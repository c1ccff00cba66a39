use vstd::prelude::*;

verus! {

/// The wait, in milliseconds, after a rate limit that names no delay of its own.
pub const DEFAULT_RETRY_AFTER_MS: u64 = 5000;

/// Where the connection stands.
#[derive(Debug, Clone, Copy, PartialEq, Eq, Structural)]
pub enum Phase {
    /// Logging in afresh.
    Authenticating,
    /// Fetching the events missed since the resumption token.
    CatchingUp,
    /// Wiping the stored session and rebuilding the connection before a fresh login.
    Reauthenticating,
    /// Pulling events continuously.
    Streaming,
    /// Given up; the error goes to the operator.
    Failed,
}

/// How a fetch of events failed.
#[derive(Debug, Clone, Copy, PartialEq, Eq, Structural)]
pub enum SyncFailure {
    /// A network error or a timeout: the same fetch is tried again.
    Transient,
    /// The server asks to wait, for the given milliseconds if it says.
    RateLimited(Option<u64>),
    /// The access token is unknown or missing: the stored session is dead.
    InvalidToken,
    /// The server refused the credentials: log in again.
    Forbidden,
    /// Any other error.
    Fatal,
}

/// The kind of a failed request as the server reported it, or `NoServerError` when the
/// request failed before any answer.
#[derive(Debug, Clone, Copy, PartialEq, Eq, Structural)]
pub enum ServerErrorKind {
    NoServerError,
    LimitExceeded(Option<u64>),
    ConnectionTimeout,
    UnknownToken,
    MissingToken,
    Forbidden,
    Other,
}

pub open spec fn failure_of(k: ServerErrorKind) -> SyncFailure {
    match k {
        ServerErrorKind::NoServerError | ServerErrorKind::ConnectionTimeout => SyncFailure::Transient,
        ServerErrorKind::LimitExceeded(ms) => SyncFailure::RateLimited(ms),
        ServerErrorKind::UnknownToken | ServerErrorKind::MissingToken => SyncFailure::InvalidToken,
        ServerErrorKind::Forbidden => SyncFailure::Forbidden,
        ServerErrorKind::Other => SyncFailure::Fatal,
    }
}

/// How the driver treats a failed fetch: no answer or a timeout is transient, a rate limit
/// keeps the server's delay, an unknown or missing token means the session is dead, and a
/// refusal asks for a fresh login; anything else is fatal.
pub fn classify_failure(k: ServerErrorKind) -> (r: SyncFailure)
    ensures
        r == failure_of(k),
{
    match k {
        ServerErrorKind::NoServerError | ServerErrorKind::ConnectionTimeout => SyncFailure::Transient,
        ServerErrorKind::LimitExceeded(ms) => SyncFailure::RateLimited(ms),
        ServerErrorKind::UnknownToken | ServerErrorKind::MissingToken => SyncFailure::InvalidToken,
        ServerErrorKind::Forbidden => SyncFailure::Forbidden,
        ServerErrorKind::Other => SyncFailure::Fatal,
    }
}

/// What the outside reports back to the driver.
#[derive(Debug, PartialEq, Eq)]
pub enum SyncEvent {
    LoginSucceeded,
    LoginFailed(SyncFailure),
    CatchUpSucceeded(String),
    CatchUpFailed(SyncFailure),
    StoreWiped,
    StreamFailed(SyncFailure),
}

/// What the driver asks the outside to do next.
#[derive(Debug, PartialEq, Eq)]
pub enum SyncAction {
    /// Log in with the configured credentials.
    Login,
    /// Wait `delay_ms`, then fetch the events since `token` (all of them when `None`).
    CatchUp { token: Option<String>, delay_ms: u64 },
    /// Wipe the stored session and the client's store, and rebuild the connection.
    WipeStore,
    /// Store the session with this resumption token, then stream events from it.
    PersistAndStream(String),
    /// Wait `delay_ms`, then stream events from `token` again.
    Stream { token: Option<String>, delay_ms: u64 },
    /// Stop; the last error is for the operator.
    Stop,
}

/// The session lifecycle of the connection.
#[derive(Debug, PartialEq, Eq)]
pub struct SyncDriver {
    pub phase: Phase,
    pub token: Option<String>,
}

pub open spec fn retry_delay(f: SyncFailure) -> u64 {
    match f {
        SyncFailure::RateLimited(Some(ms)) => ms,
        SyncFailure::RateLimited(None) => DEFAULT_RETRY_AFTER_MS,
        _ => 0,
    }
}

/// The action that a state calls for by itself.
pub open spec fn action_of(d: SyncDriver) -> SyncAction {
    match d.phase {
        Phase::Authenticating => SyncAction::Login,
        Phase::CatchingUp => SyncAction::CatchUp { token: d.token, delay_ms: 0 },
        Phase::Reauthenticating => SyncAction::WipeStore,
        Phase::Streaming => SyncAction::Stream { token: d.token, delay_ms: 0 },
        Phase::Failed => SyncAction::Stop,
    }
}

/// The state and action after a failure while catching up (`streaming` false) or while
/// streaming.
pub open spec fn after_failure(d: SyncDriver, f: SyncFailure, streaming: bool) -> (
    SyncDriver,
    SyncAction,
) {
    match f {
        SyncFailure::Transient | SyncFailure::RateLimited(_) => if streaming {
            (d, SyncAction::Stream { token: d.token, delay_ms: retry_delay(f) })
        } else {
            (d, SyncAction::CatchUp { token: d.token, delay_ms: retry_delay(f) })
        },
        SyncFailure::InvalidToken => (
            SyncDriver { phase: Phase::Reauthenticating, token: None },
            SyncAction::WipeStore,
        ),
        SyncFailure::Forbidden => (
            SyncDriver { phase: Phase::Authenticating, token: d.token },
            SyncAction::Login,
        ),
        SyncFailure::Fatal => (SyncDriver { phase: Phase::Failed, token: d.token }, SyncAction::Stop),
    }
}

/// One transition. A login that failed for a transient reason, such as a timeout, is tried
/// again; any other login failure, such as refused credentials, is fatal. An event that the
/// phase does not expect changes nothing and repeats the phase's own action.
pub open spec fn transition(d: SyncDriver, e: SyncEvent) -> (SyncDriver, SyncAction) {
    match (d.phase, e) {
        (Phase::Authenticating, SyncEvent::LoginSucceeded) => {
            let n = SyncDriver { phase: Phase::CatchingUp, token: d.token };
            (n, action_of(n))
        },
        (Phase::Authenticating, SyncEvent::LoginFailed(f)) => if f is Transient {
            (d, SyncAction::Login)
        } else {
            (SyncDriver { phase: Phase::Failed, token: d.token }, SyncAction::Stop)
        },
        (Phase::CatchingUp, SyncEvent::CatchUpSucceeded(t)) => (
            SyncDriver { phase: Phase::Streaming, token: Some(t) },
            SyncAction::PersistAndStream(t),
        ),
        (Phase::CatchingUp, SyncEvent::CatchUpFailed(f)) => after_failure(d, f, false),
        (Phase::Reauthenticating, SyncEvent::StoreWiped) => (
            SyncDriver { phase: Phase::Authenticating, token: None },
            SyncAction::Login,
        ),
        (Phase::Streaming, SyncEvent::StreamFailed(f)) => after_failure(d, f, true),
        _ => (d, action_of(d)),
    }
}

fn copy_token(t: &Option<String>) -> (r: Option<String>)
    ensures
        r == *t,
{
    match t {
        Some(s) => Some(s.clone()),
        None => None,
    }
}

fn retry_delay_ms(f: SyncFailure) -> (r: u64)
    ensures
        r == retry_delay(f),
{
    match f {
        SyncFailure::RateLimited(Some(ms)) => ms,
        SyncFailure::RateLimited(None) => DEFAULT_RETRY_AFTER_MS,
        _ => 0,
    }
}

impl SyncDriver {
    /// No session could be restored: log in first.
    pub fn fresh() -> (r: SyncDriver)
        ensures
            r.phase == Phase::Authenticating,
            r.token is None,
    {
        SyncDriver { phase: Phase::Authenticating, token: None }
    }

    /// A session was restored, with the resumption token stored with it, if any.
    pub fn restored(token: Option<String>) -> (r: SyncDriver)
        ensures
            r.phase == Phase::CatchingUp,
            r.token == token,
    {
        SyncDriver { phase: Phase::CatchingUp, token }
    }

    /// The action that the current state calls for.
    pub fn next_action(&self) -> (r: SyncAction)
        ensures
            r == action_of(*self),
    {
        match self.phase {
            Phase::Authenticating => SyncAction::Login,
            Phase::CatchingUp => SyncAction::CatchUp { token: copy_token(&self.token), delay_ms: 0 },
            Phase::Reauthenticating => SyncAction::WipeStore,
            Phase::Streaming => SyncAction::Stream { token: copy_token(&self.token), delay_ms: 0 },
            Phase::Failed => SyncAction::Stop,
        }
    }

    fn on_failure(&mut self, f: SyncFailure, streaming: bool) -> (r: SyncAction)
        ensures
            (*final(self), r) == after_failure(*old(self), f, streaming),
    {
        match f {
            SyncFailure::Transient | SyncFailure::RateLimited(_) => {
                let token = copy_token(&self.token);
                let delay_ms = retry_delay_ms(f);
                if streaming {
                    SyncAction::Stream { token, delay_ms }
                } else {
                    SyncAction::CatchUp { token, delay_ms }
                }
            },
            SyncFailure::InvalidToken => {
                self.phase = Phase::Reauthenticating;
                self.token = None;
                SyncAction::WipeStore
            },
            SyncFailure::Forbidden => {
                self.phase = Phase::Authenticating;
                SyncAction::Login
            },
            SyncFailure::Fatal => {
                self.phase = Phase::Failed;
                SyncAction::Stop
            },
        }
    }

    /// Takes one event and returns what to do next.
    pub fn step(&mut self, e: SyncEvent) -> (r: SyncAction)
        ensures
            (*final(self), r) == transition(*old(self), e),
    {
        match (self.phase, e) {
            (Phase::Authenticating, SyncEvent::LoginSucceeded) => {
                self.phase = Phase::CatchingUp;
                self.next_action()
            },
            (Phase::Authenticating, SyncEvent::LoginFailed(f)) => {
                if let SyncFailure::Transient = f {
                    SyncAction::Login
                } else {
                    self.phase = Phase::Failed;
                    SyncAction::Stop
                }
            },
            (Phase::CatchingUp, SyncEvent::CatchUpSucceeded(t)) => {
                self.phase = Phase::Streaming;
                self.token = Some(t.clone());
                SyncAction::PersistAndStream(t)
            },
            (Phase::CatchingUp, SyncEvent::CatchUpFailed(f)) => self.on_failure(f, false),
            (Phase::Reauthenticating, SyncEvent::StoreWiped) => {
                self.phase = Phase::Authenticating;
                self.token = None;
                SyncAction::Login
            },
            (Phase::Streaming, SyncEvent::StreamFailed(f)) => self.on_failure(f, true),
            _ => self.next_action(),
        }
    }
}

/// A rejected token while streaming leads through a wipe of the stored session and a fresh
/// login to a catch-up from the start, and the new resumption token is stored before
/// streaming resumes from it.
pub proof fn lemma_invalid_token_recovery(old_token: Option<String>, new_token: String)
    ensures
        ({
            let d0 = SyncDriver { phase: Phase::Streaming, token: old_token };
            let (d1, a1) = transition(d0, SyncEvent::StreamFailed(SyncFailure::InvalidToken));
            let (d2, a2) = transition(d1, SyncEvent::StoreWiped);
            let (d3, a3) = transition(d2, SyncEvent::LoginSucceeded);
            let (d4, a4) = transition(d3, SyncEvent::CatchUpSucceeded(new_token));
            &&& d1 == SyncDriver { phase: Phase::Reauthenticating, token: None }
            &&& a1 == SyncAction::WipeStore
            &&& d2.phase == Phase::Authenticating
            &&& a2 == SyncAction::Login
            &&& a3 == SyncAction::CatchUp { token: None, delay_ms: 0 }
            &&& d4 == SyncDriver { phase: Phase::Streaming, token: Some(new_token) }
            &&& a4 == SyncAction::PersistAndStream(new_token)
        }),
{
}

/// A login is retried after a transient failure and given up after any other.
pub proof fn lemma_login_failures(token: Option<String>, f: SyncFailure)
    ensures
        ({
            let d = SyncDriver { phase: Phase::Authenticating, token };
            let (n, a) = transition(d, SyncEvent::LoginFailed(f));
            &&& f is Transient ==> n == d && a == SyncAction::Login
            &&& !(f is Transient) ==> n.phase == Phase::Failed && a == SyncAction::Stop
        }),
{
}

/// While catching up, transient errors and rate limits retry the same fetch, from the same
/// token, after the server's delay or five seconds.
pub proof fn lemma_catch_up_retries(token: Option<String>, f: SyncFailure)
    requires
        f is Transient || f is RateLimited,
    ensures
        transition(SyncDriver { phase: Phase::CatchingUp, token }, SyncEvent::CatchUpFailed(f)) == (
            SyncDriver { phase: Phase::CatchingUp, token },
            SyncAction::CatchUp { token, delay_ms: retry_delay(f) },
        ),
        f == SyncFailure::RateLimited(None) ==> retry_delay(f) == DEFAULT_RETRY_AFTER_MS,
{
}

} // verus!
