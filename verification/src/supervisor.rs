//! The supervisor: when to connect again after a session has ended, when to
//! give up, and what the local health endpoint answers.

use vstd::prelude::*;

use crate::error::{SessionError, SessionErrorView};
use crate::model::same_str;
use crate::registry::StartupError;

verus! {

/// How often a failed connection is tried again where nothing is configured.
pub const DEFAULT_MAX_RETRIES: u32 = 1;

/// The wait before the first retry: 1 second.
pub const INITIAL_BACKOFF_MS: u64 = 1000;

/// The longest wait before a retry: 60 seconds.
pub const MAX_BACKOFF_MS: u64 = 60000;

/// The wait in milliseconds before the retry that follows the
/// `failures`-th failure in a row: one second, doubled with every further
/// failure, and never more than a minute.
pub open spec fn backoff(failures: nat) -> nat
    decreases failures,
{
    if failures <= 1 {
        1000
    } else if 2 * backoff((failures - 1) as nat) >= 60000 {
        60000
    } else {
        2 * backoff((failures - 1) as nat)
    }
}

/// The wait lies between a second and a minute.
pub proof fn lemma_backoff_bounds(failures: nat)
    ensures
        1000 <= backoff(failures) <= 60000,
    decreases failures,
{
    if failures > 1 {
        lemma_backoff_bounds((failures - 1) as nat);
    }
}

/// The wait never gets shorter as failures add up, and once it has reached
/// a minute it stays there.
pub proof fn lemma_backoff_grows(earlier: nat, later: nat)
    requires
        earlier <= later,
    ensures
        backoff(earlier) <= backoff(later),
        backoff(earlier) == 60000 ==> backoff(later) == 60000,
    decreases later,
{
    lemma_backoff_bounds(earlier);
    lemma_backoff_bounds(later);
    if earlier < later {
        lemma_backoff_grows(earlier, (later - 1) as nat);
        lemma_backoff_bounds((later - 1) as nat);
    }
}

/// The wait before the retry that follows the `failures`-th failure in a row.
pub fn backoff_ms(failures: u32) -> (millis: u64)
    ensures
        millis == backoff(failures as nat),
{
    let mut millis: u64 = INITIAL_BACKOFF_MS;
    let mut counted: u32 = 1;
    while counted < failures && millis < MAX_BACKOFF_MS
        invariant
            1 <= counted,
            counted <= failures || (failures == 0 && counted == 1),
            millis == backoff(counted as nat),
            millis <= 60000,
        decreases failures - counted,
    {
        millis = if 2 * millis >= MAX_BACKOFF_MS {
            MAX_BACKOFF_MS
        } else {
            2 * millis
        };
        counted = counted + 1;
    }
    proof {
        if failures != 0 {
            lemma_backoff_grows(counted as nat, failures as nat);
        }
    }
    millis
}

/// What the supervisor does next.
#[derive(Debug, PartialEq, Eq)]
pub enum Next {
    /// Open a session now.
    Connect,
    /// Wait this many milliseconds, then open a session.
    RetryAfter { millis: u64 },
    /// Return with this result.
    Finish(Result<(), SessionError>),
}

/// View of a `Next`.
pub enum NextView {
    Connect,
    RetryAfter { millis: u64 },
    Finish(Result<(), SessionErrorView>),
}

impl View for Next {
    type V = NextView;

    open spec fn view(&self) -> NextView {
        match *self {
            Next::Connect => NextView::Connect,
            Next::RetryAfter { millis } => NextView::RetryAfter { millis },
            Next::Finish(result) => NextView::Finish(
                match result {
                    Ok(_) => Ok(()),
                    Err(e) => Err(e@),
                },
            ),
        }
    }
}

/// The state of the supervisor.
pub struct SupervisorView {
    pub max_retries: u32,
    /// How many sessions failed in a row.
    pub failures: u32,
    /// Whether a session is open.
    pub connected: bool,
    /// Whether the shutdown signal was given.
    pub stopping: bool,
}

impl SupervisorView {
    /// The failures in a row never exceed the retries that are allowed.
    pub open spec fn wf(self) -> bool {
        self.failures <= self.max_retries
    }

    /// What the supervisor does first.
    pub open spec fn on_start(self) -> NextView {
        if self.stopping {
            NextView::Finish(Ok(()))
        } else {
            NextView::Connect
        }
    }

    /// After a session has opened: the failures are forgotten.
    pub open spec fn after_open(self) -> SupervisorView {
        SupervisorView { failures: 0, connected: true, ..self }
    }

    /// What follows the end of a session that ended with `outcome`.
    pub open spec fn on_closed(self, outcome: Result<(), SessionErrorView>) -> NextView {
        if self.stopping {
            NextView::Finish(Ok(()))
        } else {
            match outcome {
                Ok(_) => NextView::Finish(Ok(())),
                Err(e) => if self.failures < self.max_retries {
                    NextView::RetryAfter { millis: backoff((self.failures + 1) as nat) as u64 }
                } else {
                    NextView::Finish(Err(e))
                },
            }
        }
    }

    /// After the end of a session that ended with `outcome`.
    pub open spec fn after_closed(self, outcome: Result<(), SessionErrorView>) -> SupervisorView {
        if self.on_closed(outcome) is RetryAfter {
            SupervisorView { failures: (self.failures + 1) as u32, connected: false, ..self }
        } else {
            SupervisorView { connected: false, ..self }
        }
    }

    /// After the shutdown signal.
    pub open spec fn after_shutdown(self) -> SupervisorView {
        SupervisorView { stopping: true, ..self }
    }
}

/// The reconnect policy of one run of the proxy.
#[derive(Debug)]
pub struct Supervisor {
    max_retries: u32,
    failures: u32,
    connected: bool,
    stopping: bool,
}

impl View for Supervisor {
    type V = SupervisorView;

    closed spec fn view(&self) -> SupervisorView {
        SupervisorView {
            max_retries: self.max_retries,
            failures: self.failures,
            connected: self.connected,
            stopping: self.stopping,
        }
    }
}

/// View of the result of a session.
pub open spec fn result_view(result: Result<(), SessionError>) -> Result<(), SessionErrorView> {
    match result {
        Ok(_) => Ok(()),
        Err(e) => Err(e@),
    }
}

impl Supervisor {
    /// A supervisor that allows `max_retries` failed sessions in a row to be
    /// tried again.
    pub fn new(max_retries: u32) -> (res: Supervisor)
        ensures
            res@ == (SupervisorView {
                max_retries,
                failures: 0,
                connected: false,
                stopping: false,
            }),
            res@.wf(),
    {
        Supervisor { max_retries, failures: 0, connected: false, stopping: false }
    }

    /// Whether a session is open.
    pub fn connected(&self) -> (res: bool)
        ensures
            res == self@.connected,
    {
        self.connected
    }

    /// How many sessions failed in a row.
    pub fn failures(&self) -> (res: u32)
        ensures
            res == self@.failures,
    {
        self.failures
    }

    /// What the supervisor does first: it connects, unless it was told to
    /// stop before it began.
    pub fn start(&self) -> (next: Next)
        ensures
            next@ == self@.on_start(),
    {
        if self.stopping {
            Next::Finish(Ok(()))
        } else {
            Next::Connect
        }
    }

    /// Takes note that a session has opened.
    pub fn on_open(&mut self)
        ensures
            final(self)@ == old(self)@.after_open(),
            final(self)@.wf(),
    {
        self.failures = 0;
        self.connected = true;
    }

    /// Takes the end of a session and says what follows.
    ///
    /// After the shutdown signal the run ends well. A session that failed
    /// is tried again after the backoff while retries are left; when none
    /// is left the run ends with the error of that session.
    pub fn on_closed(&mut self, outcome: Result<(), SessionError>) -> (next: Next)
        ensures
            next@ == old(self)@.on_closed(result_view(outcome)),
            final(self)@ == old(self)@.after_closed(result_view(outcome)),
            old(self)@.wf() ==> final(self)@.wf(),
    {
        self.connected = false;
        if self.stopping {
            return Next::Finish(Ok(()));
        }
        match outcome {
            Ok(_) => Next::Finish(Ok(())),
            Err(e) => {
                if self.failures < self.max_retries {
                    self.failures = self.failures + 1;
                    proof {
                        lemma_backoff_bounds(self.failures as nat);
                    }
                    Next::RetryAfter { millis: backoff_ms(self.failures) }
                } else {
                    Next::Finish(Err(e))
                }
            },
        }
    }

    /// Takes the shutdown signal: no session is opened from now on.
    pub fn shutdown(&mut self)
        ensures
            final(self)@ == old(self)@.after_shutdown(),
            old(self)@.wf() ==> final(self)@.wf(),
    {
        self.stopping = true;
    }
}

/// The answer of the local health endpoint.
#[derive(Debug, PartialEq, Eq)]
pub struct HealthReply {
    pub status: u16,
    pub body: String,
}

/// The status that the health endpoint answers for `path`: 200 for `/`
/// always, for `/health` 200 while a session is open and 502 while none
/// is, and 404 for any other path.
pub open spec fn health_status(path: Seq<char>, connected: bool) -> u16 {
    if path == "/"@ {
        200
    } else if path == "/health"@ {
        if connected {
            200
        } else {
            502
        }
    } else {
        404
    }
}

/// The body that the health endpoint answers for `path`: `ok` for `/`,
/// nothing for any other path.
pub open spec fn health_body(path: Seq<char>) -> Seq<char> {
    if path == "/"@ {
        "ok"@
    } else {
        Seq::empty()
    }
}

/// Answers a request to the local health endpoint.
pub fn health_reply(path: &str, connected: bool) -> (reply: HealthReply)
    ensures
        reply.status == health_status(path@, connected),
        reply.body@ == health_body(path@),
{
    if same_str(path, "/") {
        HealthReply { status: 200, body: String::from_str("ok") }
    } else if same_str(path, "/health") {
        HealthReply {
            status: if connected {
                200
            } else {
                502
            },
            body: String::new(),
        }
    } else {
        HealthReply { status: 404, body: String::new() }
    }
}

/// Why the proxy stops with an error.
#[derive(Debug, PartialEq, Eq)]
pub enum ServiceError {
    /// The registry could not be built.
    Startup(StartupError),
    /// The health endpoint could not be bound.
    Bind { message: String },
    /// The session failed and no retry was left.
    Session(SessionError),
}

/// The exit code of the hosting program: 0 after a clean shutdown, 1 after
/// an error at startup, 2 after a session error that no retry was left for.
pub fn exit_code(result: &Result<(), ServiceError>) -> (code: u8)
    ensures
        code == match *result {
            Ok(_) => 0u8,
            Err(ServiceError::Startup(_)) => 1u8,
            Err(ServiceError::Bind { .. }) => 1u8,
            Err(ServiceError::Session(_)) => 2u8,
        },
{
    match result {
        Ok(_) => 0,
        Err(ServiceError::Startup(_)) => 1,
        Err(ServiceError::Bind { .. }) => 1,
        Err(ServiceError::Session(_)) => 2,
    }
}

} // verus!
