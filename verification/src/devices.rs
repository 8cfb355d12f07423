//! Summarizing audio output devices for selection.
//!
//! Hardware enumeration is a collaborator's job: it hands this module, per
//! device, a name, whether it is the default, and the supported
//! configuration ranges. This module decides which common sample rates the
//! device supports, its channel ceiling, and the fallback used when the
//! ranges cannot be read.

use vstd::prelude::*;

verus! {

/// Information about an audio output device.
#[derive(Debug)]
pub struct AudioDevice {
    /// Unique identifier for the device (its name: the platform layer has
    /// no stabler id).
    pub id: String,
    /// Human-readable device name.
    pub name: String,
    /// Whether this is the system default device.
    pub is_default: bool,
    /// Supported common sample rates, ascending.
    pub sample_rates: Vec<u32>,
    /// Maximum number of output channels.
    pub max_channels: u16,
}

/// The ghost value of a device record.
pub ghost struct AudioDeviceView {
    pub id: Seq<char>,
    pub name: Seq<char>,
    pub is_default: bool,
    pub sample_rates: Seq<u32>,
    pub max_channels: u16,
}

impl View for AudioDevice {
    type V = AudioDeviceView;

    open spec fn view(&self) -> AudioDeviceView {
        AudioDeviceView {
            id: self.id@,
            name: self.name@,
            is_default: self.is_default,
            sample_rates: self.sample_rates@,
            max_channels: self.max_channels,
        }
    }
}

/// One supported output configuration range a device reports.
#[derive(Clone, Copy, PartialEq, Eq, Structural, Debug)]
pub struct ConfigRange {
    pub min_rate: u32,
    pub max_rate: u32,
    pub channels: u16,
}

/// The common sample rates a device is probed for.
pub open spec fn is_common_rate(rate: u32) -> bool {
    rate == 44100 || rate == 48000 || rate == 88200 || rate == 96000 || rate == 176400 || rate
        == 192000
}

/// Whether some reported range covers the rate.
pub open spec fn rate_supported(ranges: Seq<ConfigRange>, rate: u32) -> bool {
    exists|i: int| 0 <= i < ranges.len() && (#[trigger] ranges[i]).min_rate <= rate <= ranges[i].max_rate
}

/// Whether some reported range covers the rate.
fn rate_in_ranges(ranges: &Vec<ConfigRange>, rate: u32) -> (r: bool)
    ensures
        r == rate_supported(ranges@, rate),
{
    let mut i: usize = 0;
    while i < ranges.len()
        invariant
            i <= ranges@.len(),
            forall|k: int|
                0 <= k < i ==> !((#[trigger] ranges@[k]).min_rate <= rate <= ranges@[k].max_rate),
        decreases ranges@.len() - i,
    {
        let range = ranges[i];
        if range.min_rate <= rate && rate <= range.max_rate {
            return true;
        }
        i = i + 1;
    }
    false
}

/// Collect, ascending, the common sample rates that some reported range
/// covers.
pub fn supported_common_rates(ranges: &Vec<ConfigRange>) -> (r: Vec<u32>)
    ensures
        forall|j: int|
            0 <= j < r@.len() ==> is_common_rate(#[trigger] r@[j]) && rate_supported(
                ranges@,
                r@[j],
            ),
        forall|rate: u32|
            is_common_rate(rate) && rate_supported(ranges@, rate) ==> r@.contains(rate),
        forall|i: int, j: int| 0 <= i < j < r@.len() ==> r@[i] < r@[j],
{
    let has1 = rate_in_ranges(ranges, 44100);
    let has2 = rate_in_ranges(ranges, 48000);
    let has3 = rate_in_ranges(ranges, 88200);
    let has4 = rate_in_ranges(ranges, 96000);
    let has5 = rate_in_ranges(ranges, 176400);
    let has6 = rate_in_ranges(ranges, 192000);
    let mut r: Vec<u32> = Vec::new();
    if has1 {
        r.push(44100);
    }
    if has2 {
        r.push(48000);
    }
    if has3 {
        r.push(88200);
    }
    if has4 {
        r.push(96000);
    }
    if has5 {
        r.push(176400);
    }
    if has6 {
        r.push(192000);
    }
    proof {
        let n1: int = if has1 { 1 } else { 0 };
        let n2: int = if has2 { 1 } else { 0 };
        let n3: int = if has3 { 1 } else { 0 };
        let n4: int = if has4 { 1 } else { 0 };
        let n5: int = if has5 { 1 } else { 0 };
        assert forall|rate: u32|
            is_common_rate(rate) && rate_supported(ranges@, rate) implies r@.contains(rate) by {
            if rate == 44100 {
                assert(r@[0] == 44100u32);
            } else if rate == 48000 {
                assert(r@[n1] == 48000u32);
            } else if rate == 88200 {
                assert(r@[n1 + n2] == 88200u32);
            } else if rate == 96000 {
                assert(r@[n1 + n2 + n3] == 96000u32);
            } else if rate == 176400 {
                assert(r@[n1 + n2 + n3 + n4] == 176400u32);
            } else {
                assert(r@[n1 + n2 + n3 + n4 + n5] == 192000u32);
            }
        }
    }
    r
}

/// The channel ceiling over the reported ranges; zero when none report.
pub fn max_config_channels(ranges: &Vec<ConfigRange>) -> (r: u16)
    ensures
        forall|k: int| 0 <= k < ranges@.len() ==> (#[trigger] ranges@[k]).channels <= r,
        r != 0 ==> exists|k: int| 0 <= k < ranges@.len() && (#[trigger] ranges@[k]).channels == r,
{
    let mut best: u16 = 0;
    let mut i: usize = 0;
    while i < ranges.len()
        invariant
            i <= ranges@.len(),
            forall|k: int| 0 <= k < i ==> (#[trigger] ranges@[k]).channels <= best,
            best != 0 ==> exists|k: int|
                0 <= k < i && (#[trigger] ranges@[k]).channels == best,
        decreases ranges@.len() - i,
    {
        let range = ranges[i];
        if range.channels > best {
            best = range.channels;
        }
        i = i + 1;
    }
    best
}

/// Byte-lexicographic order on byte sequences, as the standard library
/// orders strings.
pub open spec fn lex_le(a: Seq<u8>, b: Seq<u8>) -> bool
    decreases a.len(),
{
    if a.len() == 0 {
        true
    } else if b.len() == 0 {
        false
    } else if a[0] < b[0] {
        true
    } else if a[0] > b[0] {
        false
    } else {
        lex_le(a.drop_first(), b.drop_first())
    }
}

/// The lexicographic order is total.
pub proof fn lemma_lex_le_total(a: Seq<u8>, b: Seq<u8>)
    ensures
        lex_le(a, b) || lex_le(b, a),
    decreases a.len(),
{
    if a.len() != 0 && b.len() != 0 && a[0] == b[0] {
        lemma_lex_le_total(a.drop_first(), b.drop_first());
    }
}

/// The lexicographic order is transitive.
pub proof fn lemma_lex_le_trans(a: Seq<u8>, b: Seq<u8>, c: Seq<u8>)
    requires
        lex_le(a, b),
        lex_le(b, c),
    ensures
        lex_le(a, c),
    decreases a.len(),
{
    if a.len() != 0 && b.len() != 0 && c.len() != 0 && a[0] == b[0] && b[0] == c[0] {
        lemma_lex_le_trans(a.drop_first(), b.drop_first(), c.drop_first());
    }
}

/// Compare two byte slices lexicographically.
fn bytes_le(x: &[u8], y: &[u8]) -> (r: bool)
    ensures
        r == lex_le(x@, y@),
{
    proof {
        assert(x@.skip(0) =~= x@);
        assert(y@.skip(0) =~= y@);
    }
    let mut i: usize = 0;
    while i < x.len() && i < y.len()
        invariant
            i <= x@.len(),
            i <= y@.len(),
            lex_le(x@, y@) == lex_le(x@.skip(i as int), y@.skip(i as int)),
        decreases x@.len() - i,
    {
        let xi = x[i];
        let yi = y[i];
        proof {
            assert(x@.skip(i as int)[0] == x@[i as int]);
            assert(y@.skip(i as int)[0] == y@[i as int]);
        }
        if xi < yi {
            return true;
        }
        if xi > yi {
            return false;
        }
        proof {
            assert(x@.skip(i as int).drop_first() =~= x@.skip(i + 1));
            assert(y@.skip(i as int).drop_first() =~= y@.skip(i + 1));
        }
        i = i + 1;
    }
    if i >= x.len() {
        proof {
            assert(x@.skip(i as int).len() == 0);
        }
        true
    } else {
        proof {
            assert(y@.skip(i as int).len() == 0);
            assert(x@.skip(i as int).len() > 0);
        }
        false
    }
}

/// The presentation order of enumerated devices: default devices first,
/// then by name.
pub open spec fn device_le(a: AudioDevice, b: AudioDevice) -> bool {
    if a.is_default != b.is_default {
        a.is_default
    } else {
        lex_le(vstd::utf8::encode_utf8(a.name@), vstd::utf8::encode_utf8(b.name@))
    }
}

/// The device order is total.
pub proof fn lemma_device_le_total(a: AudioDevice, b: AudioDevice)
    ensures
        device_le(a, b) || device_le(b, a),
{
    if a.is_default == b.is_default {
        lemma_lex_le_total(
            vstd::utf8::encode_utf8(a.name@),
            vstd::utf8::encode_utf8(b.name@),
        );
    }
}

/// The device order is transitive.
pub proof fn lemma_device_le_trans(a: AudioDevice, b: AudioDevice, c: AudioDevice)
    requires
        device_le(a, b),
        device_le(b, c),
    ensures
        device_le(a, c),
{
    if a.is_default == b.is_default && b.is_default == c.is_default {
        lemma_lex_le_trans(
            vstd::utf8::encode_utf8(a.name@),
            vstd::utf8::encode_utf8(b.name@),
            vstd::utf8::encode_utf8(c.name@),
        );
    }
}

/// Decide the presentation order of two devices.
pub fn device_order_le(a: &AudioDevice, b: &AudioDevice) -> (r: bool)
    ensures
        r == device_le(*a, *b),
{
    if a.is_default != b.is_default {
        a.is_default
    } else {
        bytes_le(a.name.as_str().as_bytes(), b.name.as_str().as_bytes())
    }
}

/// Sort enumerated devices for presentation: the default device first, then
/// by name. The result is a reordering of the input (same multiset of
/// devices), ordered by `device_le`.
pub fn sort_devices(devices: &mut Vec<AudioDevice>)
    ensures
        final(devices)@.len() == old(devices)@.len(),
        final(devices)@.to_multiset() == old(devices)@.to_multiset(),
        forall|p: int, q: int|
            0 <= p < q < final(devices)@.len() ==> device_le(
                final(devices)@[p],
                final(devices)@[q],
            ),
{
    broadcast use vstd::seq_lib::group_to_multiset_ensures;
    broadcast use vstd::seq_lib::to_multiset_insert;

    if devices.len() <= 1 {
        return;
    }
    let mut i: usize = 1;
    while i < devices.len()
        invariant
            1 <= i <= devices@.len(),
            devices@.len() == old(devices)@.len(),
            devices@.to_multiset() == old(devices)@.to_multiset(),
            forall|p: int, q: int| 0 <= p < q < i ==> device_le(devices@[p], devices@[q]),
        decreases devices@.len() - i,
    {
        let mut j: usize = i;
        while j > 0
            invariant
                j <= i < devices@.len(),
                devices@.len() == old(devices)@.len(),
                devices@.to_multiset() == old(devices)@.to_multiset(),
                forall|p: int, q: int|
                    0 <= p < q <= i && q != j ==> device_le(devices@[p], devices@[q]),
                forall|q: int| j < q <= i ==> device_le(devices@[j as int], devices@[q]),
            ensures
                j <= i < devices@.len(),
                devices@.len() == old(devices)@.len(),
                devices@.to_multiset() == old(devices)@.to_multiset(),
                forall|p: int, q: int|
                    0 <= p < q <= i && q != j ==> device_le(devices@[p], devices@[q]),
                forall|q: int| j < q <= i ==> device_le(devices@[j as int], devices@[q]),
                j == 0 || device_le(devices@[j - 1], devices@[j as int]),
            decreases j,
        {
            if device_order_le(&devices[j - 1], &devices[j]) {
                break;
            }
            proof {
                lemma_device_le_total(devices@[j - 1], devices@[j as int]);
            }
            let ghost w = devices@;
            let moved = devices.remove(j);
            devices.insert(j - 1, moved);
            proof {
                let w2 = devices@;
                assert(w.remove(j as int) =~= w.subrange(0, j as int) + w.subrange(
                    j + 1,
                    w.len() as int,
                ));
                assert(w2 =~= w.subrange(0, j - 1) + seq![w[j as int]] + seq![w[j - 1]]
                    + w.subrange(j + 1, w.len() as int));
                assert(w2[j - 1] == w[j as int]);
                assert(w2[j as int] == w[j - 1]);
                assert(forall|k: int|
                    0 <= k < w.len() && k != j - 1 && k != j ==> w2[k] == w[k]);
                assert(w.contains(w[j as int]));
                w.to_multiset_ensures();
                vstd::seq_lib::to_multiset_insert(w.remove(j as int), j - 1, w[j as int]);
                assert(w.remove(j as int).to_multiset() =~= w.to_multiset().remove(
                    w[j as int],
                ));
                assert(w2.to_multiset() =~= w.remove(j as int).to_multiset().insert(
                    w[j as int],
                ));
                assert(w2.to_multiset() =~= w.to_multiset());
            }
            j = j - 1;
        }
        proof {
            assert forall|p: int, q: int|
                0 <= p < q <= i implies device_le(devices@[p], devices@[q]) by {
                if q == j {
                    if p == j - 1 {
                        assert(device_le(devices@[p], devices@[q]));
                    } else {
                        lemma_device_le_trans(
                            devices@[p],
                            devices@[j - 1],
                            devices@[j as int],
                        );
                    }
                }
            }
        }
        i = i + 1;
    }
}

/// Summarize one enumerated device. With readable configuration ranges the
/// rates and channel ceiling come from them; when reading them failed, the
/// well-known fallback (44.1 and 48 kHz, stereo) stands in.
pub fn build_audio_device(
    id: String,
    name: String,
    is_default: bool,
    ranges: Option<&Vec<ConfigRange>>,
) -> (d: AudioDevice)
    ensures
        d@.id == id@,
        d@.name == name@,
        d@.is_default == is_default,
        ranges matches Some(rs) ==> {
            &&& forall|j: int|
                0 <= j < d@.sample_rates.len() ==> is_common_rate(#[trigger] d@.sample_rates[j])
                    && rate_supported(rs@, d@.sample_rates[j])
            &&& forall|rate: u32|
                is_common_rate(rate) && rate_supported(rs@, rate) ==> d@.sample_rates.contains(
                    rate,
                )
            &&& forall|i: int, j: int|
                0 <= i < j < d@.sample_rates.len() ==> d@.sample_rates[i] < d@.sample_rates[j]
            &&& forall|k: int| 0 <= k < rs@.len() ==> (#[trigger] rs@[k]).channels <= d@.max_channels
        },
        ranges is None ==> d@.sample_rates == seq![44100u32, 48000u32] && d@.max_channels == 2,
{
    match ranges {
        Some(rs) => {
            let sample_rates = supported_common_rates(rs);
            let max_channels = max_config_channels(rs);
            AudioDevice { id, name, is_default, sample_rates, max_channels }
        },
        None => {
            let mut sample_rates: Vec<u32> = Vec::new();
            sample_rates.push(44100);
            sample_rates.push(48000);
            proof {
                assert(sample_rates@ =~= seq![44100u32, 48000u32]);
            }
            AudioDevice { id, name, is_default, sample_rates, max_channels: 2 }
        },
    }
}

} // verus!
