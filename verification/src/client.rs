//! The client lifecycle: one owned session per manager, an enable flag,
//! status and identity queries, and the bounded outbound command queue.
//!
//! The manager guarantees at most one live session: starting while a
//! session is active clears the prior session before the new handle is
//! installed. Commands are accepted only while a session is active and the
//! command queue has room; both failures surface synchronously.

use vstd::prelude::*;
use vstd::string::StringExecFns;
use crate::strutil::{clone_opt_string, opt_view};

verus! {

/// Client configuration, supplied once at start and immutable for the life
/// of a session.
#[derive(Debug)]
pub struct SendspinConfig {
    pub player_id: String,
    pub player_name: String,
    pub server_url: String,
    pub audio_device_id: Option<String>,
    pub sync_delay_ms: i32,
    /// Auth credential for the server's proxy authentication (required).
    pub auth_token: String,
}

/// The ghost value of a configuration: every string by its characters.
pub ghost struct SendspinConfigView {
    pub player_id: Seq<char>,
    pub player_name: Seq<char>,
    pub server_url: Seq<char>,
    pub audio_device_id: Option<Seq<char>>,
    pub sync_delay_ms: i32,
    pub auth_token: Seq<char>,
}

impl View for SendspinConfig {
    type V = SendspinConfigView;

    open spec fn view(&self) -> SendspinConfigView {
        SendspinConfigView {
            player_id: self.player_id@,
            player_name: self.player_name@,
            server_url: self.server_url@,
            audio_device_id: opt_view(self.audio_device_id),
            sync_delay_ms: self.sync_delay_ms,
            auth_token: self.auth_token@,
        }
    }
}

impl Clone for SendspinConfig {
    /// Clone a configuration, keeping every field's value.
    fn clone(&self) -> (r: Self)
        ensures
            r@ == self@,
    {
        SendspinConfig {
            player_id: self.player_id.clone(),
            player_name: self.player_name.clone(),
            server_url: self.server_url.clone(),
            audio_device_id: clone_opt_string(&self.audio_device_id),
            sync_delay_ms: self.sync_delay_ms,
            auth_token: self.auth_token.clone(),
        }
    }
}

/// Connection status of the session, owned by the session loop and read by
/// external status queries.
#[derive(Debug)]
pub enum ConnectionStatus {
    Disconnected,
    Connecting,
    Connected,
    Error(String),
}

/// The ghost value of a status: an error by its message's characters.
pub ghost enum ConnectionStatusView {
    Disconnected,
    Connecting,
    Connected,
    Error(Seq<char>),
}

impl View for ConnectionStatus {
    type V = ConnectionStatusView;

    open spec fn view(&self) -> ConnectionStatusView {
        match self {
            ConnectionStatus::Disconnected => ConnectionStatusView::Disconnected,
            ConnectionStatus::Connecting => ConnectionStatusView::Connecting,
            ConnectionStatus::Connected => ConnectionStatusView::Connected,
            ConnectionStatus::Error(reason) => ConnectionStatusView::Error(reason@),
        }
    }
}

impl Clone for ConnectionStatus {
    /// Clone a status, keeping its value.
    fn clone(&self) -> (r: Self)
        ensures
            r@ == self@,
    {
        match self {
            ConnectionStatus::Disconnected => ConnectionStatus::Disconnected,
            ConnectionStatus::Connecting => ConnectionStatus::Connecting,
            ConnectionStatus::Connected => ConnectionStatus::Connected,
            ConnectionStatus::Error(reason) => ConnectionStatus::Error(reason.clone()),
        }
    }
}

/// The handle of one session: its configuration, status, and identity.
#[derive(Debug)]
pub struct SendspinClientHandle {
    pub config: SendspinConfig,
    pub status: ConnectionStatus,
    pub player_id: String,
}

/// The ghost value of a handle.
pub ghost struct SendspinClientHandleView {
    pub config: SendspinConfigView,
    pub status: ConnectionStatusView,
    pub player_id: Seq<char>,
}

impl View for SendspinClientHandle {
    type V = SendspinClientHandleView;

    open spec fn view(&self) -> SendspinClientHandleView {
        SendspinClientHandleView {
            config: self.config@,
            status: self.status@,
            player_id: self.player_id@,
        }
    }
}

impl SendspinClientHandle {
    /// A handle for the given configuration, not yet connected, identified
    /// by the configured player id.
    pub fn new(config: SendspinConfig) -> (h: Self)
        ensures
            h.config@ == config@,
            h.status@ is Disconnected,
            h.player_id@ == config.player_id@,
    {
        let player_id = config.player_id.clone();
        SendspinClientHandle { config, status: ConnectionStatus::Disconnected, player_id }
    }
}

/// How many outbound commands may wait at once; one more is rejected.
pub const COMMAND_QUEUE_CAPACITY: usize = 32;

/// The lifecycle manager: the single owner of the process's session state.
pub struct ClientManager {
    /// The active session's handle, if one is active.
    pub client: Option<SendspinClientHandle>,
    /// Whether the client is enabled.
    pub enabled: bool,
    /// The outbound command queue; present exactly while a session runs.
    pub commands: Option<Vec<String>>,
}

/// How many sessions a manager state holds.
pub open spec fn active_sessions(m: ClientManager) -> int {
    if m.client is Some {
        1
    } else {
        0
    }
}

/// How many of a manager's sessions report `Connected`.
pub open spec fn connected_sessions(m: ClientManager) -> int {
    if m.client matches Some(h) && h.status@ is Connected {
        1
    } else {
        0
    }
}

/// Law: in any manager state at most one session is live, so no two
/// sessions it owns are ever `Connected` at the same time. (That a freshly
/// started session is still `Connecting` is part of `start`'s contract.)
pub proof fn lemma_single_session(m: ClientManager)
    ensures
        active_sessions(m) <= 1,
        connected_sessions(m) <= active_sessions(m),
{
}

/// The manager's queue is open and empty.
pub open spec fn drained(m: ClientManager) -> bool {
    m.commands matches Some(q) && q@.len() == 0
}

impl ClientManager {
    /// A manager with no session: disabled, nothing queued.
    pub fn new() -> (m: ClientManager)
        ensures
            m.client is None,
            !m.enabled,
            m.commands is None,
    {
        ClientManager { client: None, enabled: false, commands: None }
    }

    /// Get the current connection status: the session's, or `Disconnected`
    /// when none is active.
    pub fn get_status(&self) -> (r: ConnectionStatus)
        ensures
            self.client matches Some(h) ==> r@ == h.status@,
            self.client is None ==> r@ is Disconnected,
    {
        match &self.client {
            Some(h) => h.status.clone(),
            None => ConnectionStatus::Disconnected,
        }
    }

    /// Get the current player identity, if a session is active.
    pub fn get_player_id(&self) -> (r: Option<String>)
        ensures
            self.client matches Some(h) ==> r matches Some(id) && id@ == h.player_id@,
            self.client is None ==> r is None,
    {
        match &self.client {
            Some(h) => Some(h.player_id.clone()),
            None => None,
        }
    }

    /// Whether the client is enabled.
    pub fn is_enabled(&self) -> (r: bool)
        ensures
            r == self.enabled,
    {
        self.enabled
    }

    /// Set the enabled flag.
    pub fn set_enabled(&mut self, enabled: bool)
        ensures
            final(self).enabled == enabled,
            final(self).client == old(self).client,
            final(self).commands == old(self).commands,
    {
        self.enabled = enabled;
    }

    /// Record a status transition on the active session; without one there
    /// is nothing to record.
    pub fn update_status(&mut self, status: ConnectionStatus)
        ensures
            old(self).client matches Some(h) ==> final(self).client matches Some(h2) && {
                &&& h2.status@ == status@
                &&& h2.config == h.config
                &&& h2.player_id == h.player_id
            },
            old(self).client is None ==> final(self).client is None,
            final(self).enabled == old(self).enabled,
            final(self).commands == old(self).commands,
    {
        match &mut self.client {
            Some(h) => {
                h.status = status;
            },
            None => {},
        }
    }

    /// Start a session for the given configuration. Any prior session is
    /// stopped first — its handle and queue are gone before the new handle
    /// is installed — so at most one session is ever live. The new session
    /// starts out `Connecting` with an empty command queue, and the
    /// configured player identity is returned.
    pub fn start(&mut self, config: SendspinConfig) -> (r: Result<String, String>)
        ensures
            r matches Ok(id) && id@ == config.player_id@,
            final(self).client matches Some(h) && {
                &&& h.config@ == config@
                &&& h.status@ is Connecting
                &&& h.player_id@ == config.player_id@
            },
            final(self).enabled,
            final(self).commands matches Some(q) && q@.len() == 0,
    {
        self.stop();
        let player_id = config.player_id.clone();
        let mut handle = SendspinClientHandle::new(config);
        handle.status = ConnectionStatus::Connecting;
        self.client = Some(handle);
        self.enabled = true;
        self.commands = Some(Vec::new());
        Ok(player_id)
    }

    /// Stop the session: disable the client and clear the handle and the
    /// command queue. (The caller waits out the session task's bounded
    /// shutdown; a straggler past that bound is abandoned, never waited on
    /// forever.)
    pub fn stop(&mut self)
        ensures
            final(self).client is None,
            !final(self).enabled,
            final(self).commands is None,
    {
        self.enabled = false;
        self.client = None;
        self.commands = None;
    }

    /// Take every queued command, in order, leaving the queue empty; the
    /// session loop forwards them to the transport. Without an open queue
    /// nothing is handed out.
    pub fn drain_commands(&mut self) -> (r: Vec<String>)
        ensures
            final(self).client == old(self).client,
            final(self).enabled == old(self).enabled,
            old(self).commands matches Some(q) ==> r@ == q@ && drained(*final(self)),
            old(self).commands is None ==> r@.len() == 0 && final(self).commands is None,
    {
        match self.commands.take() {
            Some(queue) => {
                self.commands = Some(Vec::new());
                queue
            },
            None => Vec::new(),
        }
    }

    /// Queue a playback command for the session loop to forward. Rejected,
    /// with the queue untouched and no outbound message produced, when no
    /// session is active, when the queue is gone, or when the queue is
    /// full.
    pub fn send_command(&mut self, command: &str) -> (r: Result<(), String>)
        ensures
            final(self).client == old(self).client,
            final(self).enabled == old(self).enabled,
            old(self).client is None ==> r is Err && final(self).commands == old(self).commands,
            old(self).client is Some && old(self).commands is None ==> r is Err
                && final(self).commands == old(self).commands,
            old(self).commands matches Some(q) ==> (old(self).client is Some ==> {
                &&& q@.len() >= COMMAND_QUEUE_CAPACITY ==> r is Err && final(self).commands
                    == old(self).commands
                &&& q@.len() < COMMAND_QUEUE_CAPACITY ==> r is Ok
                    && (final(self).commands matches Some(q2) && q2@.len() == q@.len() + 1
                    && q2@.last()@ == command@ && (forall|i: int|
                    0 <= i < q@.len() ==> q2@[i] == q@[i]))
            }),
    {
        if self.client.is_none() {
            return Err(String::from_str("Sendspin client not connected"));
        }
        match &mut self.commands {
            Some(queue) => {
                if queue.len() >= COMMAND_QUEUE_CAPACITY {
                    Err(String::from_str("Failed to send command: queue full"))
                } else {
                    queue.push(command.to_owned());
                    Ok(())
                }
            },
            None => Err(String::from_str("Command channel not available")),
        }
    }
}

} // verus!
