//! The persistent remote session manager's decisions. At most one live
//! channel is kept, for one (host, principal) pair; it is reused while it
//! answers a liveness probe, replaced otherwise, and discarded on any
//! channel failure. Connecting is retried a fixed number of times with a
//! fixed delay; a failed command is retried once on a fresh session before
//! a "session dead" error is surfaced.

use vstd::prelude::*;
use crate::text::same_text;

verus! {

/// Connection attempts made before giving up.
pub const CONNECT_ATTEMPTS: u32 = 3;

/// Seconds between two connection attempts.
pub const CONNECT_RETRY_DELAY_SECS: u64 = 2;

/// Why a remote command could not be run.
#[derive(Clone, Copy, Debug, PartialEq, Eq, Structural)]
pub enum SessionError {
    /// Every connection attempt failed.
    ConnectFailed,
    /// The host refused the credentials.
    AuthFailed,
    /// The channel failed, also after one reconnect.
    SessionDead,
}

/// What the host must do to get a usable session.
#[derive(Clone, Copy, Debug, PartialEq, Eq, Structural)]
pub enum SessionStep {
    /// Run the trivial liveness probe on the kept session.
    Probe,
    /// Tear down whatever is kept and open a new authenticated channel.
    Connect,
    /// Wait this many seconds, then try to connect again.
    RetryAfter(u64),
    /// The session is ready for commands.
    Ready,
    /// Give up with this error.
    Fail(SessionError),
}

/// What the host must do after a command ran (or failed) on the channel.
#[derive(Clone, Copy, Debug, PartialEq, Eq, Structural)]
pub enum CommandStep {
    /// Hand the output to the caller.
    Deliver,
    /// Open a fresh session and run the command once more.
    ReconnectAndRetry,
    /// Surface the error.
    Fail(SessionError),
}

/// The abstract state of the manager: the kept session's (host, principal),
/// and the diagnostic command counter.
pub struct SessionState {
    pub key: Option<(Seq<char>, Seq<char>)>,
    pub commands: u64,
}

/// Keeps track of the one live session and its command counter.
pub struct SessionManager {
    host: String,
    principal: String,
    live: bool,
    commands: u64,
}

impl View for SessionManager {
    type V = SessionState;

    closed spec fn view(&self) -> SessionState {
        SessionState {
            key: if self.live {
                Some((self.host@, self.principal@))
            } else {
                None
            },
            commands: self.commands,
        }
    }
}

/// The decision after one connection attempt numbered `attempt` (from 1).
pub open spec fn connect_step(attempt: u32, connected: bool, authenticated: bool) -> SessionStep {
    if connected && authenticated {
        SessionStep::Ready
    } else if connected {
        SessionStep::Fail(SessionError::AuthFailed)
    } else if attempt < CONNECT_ATTEMPTS {
        SessionStep::RetryAfter(CONNECT_RETRY_DELAY_SECS)
    } else {
        SessionStep::Fail(SessionError::ConnectFailed)
    }
}

impl SessionManager {
    /// A manager with no session.
    pub fn new() -> (r: SessionManager)
        ensures
            r@.key is None,
            r@.commands == 0,
    {
        SessionManager {
            host: String::new(),
            principal: String::new(),
            live: false,
            commands: 0,
        }
    }

    /// The (host, principal) of the kept session, if any.
    pub fn has_session_for(&self, host: &str, principal: &str) -> (r: bool)
        ensures
            r == (self@.key == Some((host@, principal@))),
    {
        self.live && same_text(self.host.as_str(), host) && same_text(self.principal.as_str(), principal)
    }

    /// Commands completed on kept sessions so far (diagnostics only).
    pub fn command_count(&self) -> (r: u64)
        ensures
            r == self@.commands,
    {
        self.commands
    }

    /// Asks for a session to `host` as `principal`: a kept session for the
    /// same pair is probed first; anything else is torn down and replaced.
    pub fn ensure_session(&mut self, host: &str, principal: &str) -> (r: SessionStep)
        ensures
            old(self)@.key == Some((host@, principal@)) ==> r is Probe && final(self)@ == old(self)@,
            old(self)@.key != Some((host@, principal@)) ==> r is Connect && final(self)@.key is None
                && final(self)@.commands == old(self)@.commands,
    {
        if self.has_session_for(host, principal) {
            SessionStep::Probe
        } else {
            self.live = false;
            SessionStep::Connect
        }
    }

    /// The liveness probe's answer: a live session is reused, a stale one
    /// dropped and replaced.
    pub fn probe_result(&mut self, alive: bool) -> (r: SessionStep)
        ensures
            alive ==> r is Ready && final(self)@ == old(self)@,
            !alive ==> r is Connect && final(self)@.key is None && final(self)@.commands
                == old(self)@.commands,
    {
        if alive {
            SessionStep::Ready
        } else {
            self.live = false;
            SessionStep::Connect
        }
    }

    /// The outcome of connection attempt number `attempt` (from 1) to `host`
    /// as `principal`; a success keeps the new session.
    pub fn connect_result(
        &mut self,
        host: &str,
        principal: &str,
        attempt: u32,
        connected: bool,
        authenticated: bool,
    ) -> (r: SessionStep)
        ensures
            r == connect_step(attempt, connected, authenticated),
            r is Ready ==> final(self)@.key == Some((host@, principal@)),
            !(r is Ready) ==> final(self)@.key is None,
            final(self)@.commands == old(self)@.commands,
    {
        if connected && authenticated {
            self.host = String::from_str(host);
            self.principal = String::from_str(principal);
            self.live = true;
            SessionStep::Ready
        } else {
            self.live = false;
            if connected {
                SessionStep::Fail(SessionError::AuthFailed)
            } else if attempt < CONNECT_ATTEMPTS {
                SessionStep::RetryAfter(CONNECT_RETRY_DELAY_SECS)
            } else {
                SessionStep::Fail(SessionError::ConnectFailed)
            }
        }
    }

    /// The outcome of a command on the kept session. A channel failure
    /// discards the session; the first one asks for a single reconnect and
    /// retry, the second surfaces `SessionDead`.
    pub fn command_result(&mut self, channel_ok: bool, retried: bool) -> (r: CommandStep)
        ensures
            channel_ok ==> r is Deliver && final(self)@.key == old(self)@.key
                && final(self)@.commands == (if old(self)@.commands == u64::MAX {
                u64::MAX as int
            } else {
                old(self)@.commands + 1
            }),
            !channel_ok ==> final(self)@.key is None && final(self)@.commands == old(self)@.commands,
            !channel_ok && !retried ==> r is ReconnectAndRetry,
            !channel_ok && retried ==> r == CommandStep::Fail(SessionError::SessionDead),
    {
        if channel_ok {
            if self.commands < u64::MAX {
                self.commands = self.commands + 1;
            }
            CommandStep::Deliver
        } else {
            self.live = false;
            if retried {
                CommandStep::Fail(SessionError::SessionDead)
            } else {
                CommandStep::ReconnectAndRetry
            }
        }
    }

    /// Explicit teardown at the end of a run.
    pub fn close(&mut self)
        ensures
            final(self)@.key is None,
            final(self)@.commands == old(self)@.commands,
    {
        self.live = false;
    }
}

} // verus!
