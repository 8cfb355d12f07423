//! Summarizing locally discovered servers.
//!
//! Browsing the network is a collaborator's job: it hands this module, per
//! resolved service, the full service name, the relevant TXT record values,
//! the chosen address and the port. This module derives the friendly name,
//! the HTTPS flag, the connection URL and address strings, and the key used
//! to deduplicate servers answering on several interfaces.

use vstd::prelude::*;
use vstd::string::{StringExecFns, StringSliceAdditionalSpecFns};
use crate::settings::{spec_trim_end_bytes, trim_end_matches_str};
use crate::strutil::{concat2, opt_view, str_eq};

verus! {

/// A discovered server.
#[derive(Debug)]
pub struct DiscoveredServer {
    /// Friendly server name, from the service's full name.
    pub name: String,
    /// Server ID from the TXT record, when one was published.
    pub server_id: Option<String>,
    /// Server address, as `ip:port`.
    pub address: String,
    /// HTTP or HTTPS URL to connect to.
    pub url: String,
    /// Whether HTTPS is available.
    pub https: bool,
}

/// The ghost value of a discovered server.
pub ghost struct DiscoveredServerView {
    pub name: Seq<char>,
    pub server_id: Option<Seq<char>>,
    pub address: Seq<char>,
    pub url: Seq<char>,
    pub https: bool,
}

impl View for DiscoveredServer {
    type V = DiscoveredServerView;

    open spec fn view(&self) -> DiscoveredServerView {
        DiscoveredServerView {
            name: self.name@,
            server_id: opt_view(self.server_id),
            address: self.address@,
            url: self.url@,
            https: self.https,
        }
    }
}

/// The domain and service-type parts stripped off a full service name.
pub open spec fn spec_friendly_name_bytes(fullname: Seq<u8>) -> Seq<u8> {
    spec_trim_end_bytes(
        spec_trim_end_bytes(fullname, ".local.".spec_bytes()),
        "._mass._tcp".spec_bytes(),
    )
}

/// The friendly name of a service: its full name without the trailing
/// domain and service-type parts.
pub fn friendly_server_name(fullname: &str) -> (r: String)
    ensures
        vstd::utf8::encode_utf8(r@) == spec_friendly_name_bytes(fullname.spec_bytes()),
{
    proof {
        reveal_strlit(".local.");
        reveal_strlit("._mass._tcp");
    }
    let step1 = trim_end_matches_str(fullname, ".local.");
    trim_end_matches_str(step1.as_str(), "._mass._tcp")
}

/// Whether a published `https` TXT value announces HTTPS: `"true"` or
/// `"1"`; anything else, or no value, does not.
pub fn https_announced(value: Option<&String>) -> (r: bool)
    ensures
        value matches Some(v) ==> r == (v@ == "true"@ || v@ == "1"@),
        value is None ==> !r,
{
    match value {
        Some(v) => str_eq(v.as_str(), "true") || str_eq(v.as_str(), "1"),
        None => false,
    }
}

/// The key deduplicating servers that answer on several interfaces: the
/// published server id when there is one, else the full service name.
pub fn server_dedup_key(server_id: &Option<String>, fullname: String) -> (r: String)
    ensures
        server_id matches Some(id) ==> r@ == id@,
        server_id is None ==> r@ == fullname@,
{
    match server_id {
        Some(id) => id.clone(),
        None => fullname,
    }
}

/// The decimal digits of a number, most significant first.
pub open spec fn spec_decimal(n: int) -> Seq<char>
    decreases n,
{
    if n < 10 {
        seq![spec_digit_char(n)]
    } else {
        spec_decimal(n / 10).push(spec_digit_char(n % 10))
    }
}

/// The character of one decimal digit.
pub open spec fn spec_digit_char(d: int) -> char {
    if d == 0 {
        '0'
    } else if d == 1 {
        '1'
    } else if d == 2 {
        '2'
    } else if d == 3 {
        '3'
    } else if d == 4 {
        '4'
    } else if d == 5 {
        '5'
    } else if d == 6 {
        '6'
    } else if d == 7 {
        '7'
    } else if d == 8 {
        '8'
    } else {
        '9'
    }
}

fn digit_str(d: u16) -> (r: &'static str)
    requires
        d < 10,
    ensures
        r@ == seq![spec_digit_char(d as int)],
{
    proof {
        reveal_strlit("0");
        reveal_strlit("1");
        reveal_strlit("2");
        reveal_strlit("3");
        reveal_strlit("4");
        reveal_strlit("5");
        reveal_strlit("6");
        reveal_strlit("7");
        reveal_strlit("8");
        reveal_strlit("9");
    }
    let r: &'static str = if d == 0 {
        "0"
    } else if d == 1 {
        "1"
    } else if d == 2 {
        "2"
    } else if d == 3 {
        "3"
    } else if d == 4 {
        "4"
    } else if d == 5 {
        "5"
    } else if d == 6 {
        "6"
    } else if d == 7 {
        "7"
    } else if d == 8 {
        "8"
    } else {
        "9"
    };
    proof {
        assert(r@.len() == 1);
        assert(r@ =~= seq![spec_digit_char(d as int)]);
    }
    r
}

/// Render a port number in decimal.
pub fn port_to_string(n: u16) -> (r: String)
    ensures
        r@ == spec_decimal(n as int),
    decreases n,
{
    if n < 10 {
        digit_str(n).to_owned()
    } else {
        let prefix = port_to_string(n / 10);
        let r = prefix.concat(digit_str(n % 10));
        proof {
            assert(r@ =~= spec_decimal(n as int / 10).push(spec_digit_char(n as int % 10)));
        }
        r
    }
}

/// Build the discovered-server record: `ip:port` as the address, and the
/// URL under the scheme the https flag selects.
pub fn build_discovered_server(
    name: String,
    server_id: Option<String>,
    ip: &str,
    port: u16,
    https: bool,
) -> (r: DiscoveredServer)
    ensures
        r@.name == name@,
        r@.server_id == opt_view(server_id),
        r@.address == ip@ + ":"@ + spec_decimal(port as int),
        r@.https == https,
        https ==> r@.url == "https://"@ + ip@ + ":"@ + spec_decimal(port as int),
        !https ==> r@.url == "http://"@ + ip@ + ":"@ + spec_decimal(port as int),
{
    let port_str = port_to_string(port);
    let host_port = concat2(ip, ":").concat(port_str.as_str());
    let scheme: &str = if https {
        "https://"
    } else {
        "http://"
    };
    let url = concat2(scheme, host_port.as_str());
    proof {
        reveal_strlit("https://");
        reveal_strlit("http://");
        if https {
            assert(url@ =~= "https://"@ + ip@ + ":"@ + spec_decimal(port as int));
        } else {
            assert(url@ =~= "http://"@ + ip@ + ":"@ + spec_decimal(port as int));
        }
    }
    DiscoveredServer { name, server_id, address: host_port, url, https }
}

} // verus!
