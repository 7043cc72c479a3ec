//! The cadence-controlled reporting service: the shared state that one
//! mutual-exclusion lock protects, and the transitions that the control
//! surface and the scheduler loop perform on it.
//!
//! Each call of `start` hands out a fresh generation token and launches a
//! new scheduler loop under it; a loop presents its token on every tick and
//! retires as soon as the token is stale or the service was stopped, so at
//! most one loop keeps transmitting per service instance.

use vstd::prelude::*;
use vstd::string::StringExecFns;

verus! {

/// The enforced minimum cadence, in seconds, between reporting cycles.
pub const MIN_CADENCE_SECONDS: u64 = 5;

/// The cadence a freshly constructed service holds before any `start`.
pub const DEFAULT_CADENCE_SECONDS: u64 = 30;

/// Validation failures that `start` returns synchronously; no state
/// mutation occurs alongside either of them.
#[derive(Debug, PartialEq, Eq, Structural, Clone, Copy)]
pub enum StartError {
    /// The destination URL was empty.
    InvalidTarget,
    /// The requested cadence sat below `MIN_CADENCE_SECONDS`.
    InvalidCadence,
}

/// Outcome label of the most recent reporting cycle.
pub enum Status {
    NotStarted,
    Starting,
    Stopped,
    Success,
    /// A cycle failed; the payload is its human-readable diagnostic.
    Failure(String),
}

/// Mathematical image of a `Status` value.
#[verifier::ext_equal]
pub enum StatusModel {
    NotStarted,
    Starting,
    Stopped,
    Success,
    Failure(Seq<char>),
}

impl View for Status {
    type V = StatusModel;

    open spec fn view(&self) -> StatusModel {
        match self {
            Status::NotStarted => StatusModel::NotStarted,
            Status::Starting => StatusModel::Starting,
            Status::Stopped => StatusModel::Stopped,
            Status::Success => StatusModel::Success,
            Status::Failure(d) => StatusModel::Failure(d@),
        }
    }
}

/// Mathematical image of the whole service state.
#[verifier::ext_equal]
pub struct StateModel {
    pub running: bool,
    pub target: Seq<char>,
    pub cadence: u64,
    pub last_send: Option<Seq<char>>,
    pub status: StatusModel,
    pub generation: u64,
}

/// The state a service is constructed in: not running, unconfigured,
/// default cadence, nothing sent yet.
pub open spec fn initial_state() -> StateModel {
    StateModel {
        running: false,
        target: Seq::<char>::empty(),
        cadence: DEFAULT_CADENCE_SECONDS,
        last_send: None,
        status: StatusModel::NotStarted,
        generation: 0,
    }
}

/// Which validation error, if any, `start` returns for these inputs.
/// An empty target is reported before a short cadence.
pub open spec fn start_rejected(target: Seq<char>, cadence: u64) -> Option<StartError> {
    if target.len() == 0 {
        Some(StartError::InvalidTarget)
    } else if cadence < MIN_CADENCE_SECONDS {
        Some(StartError::InvalidCadence)
    } else {
        None
    }
}

/// The state after a successful `start`: running under a fresh generation
/// with the new target and cadence, status `Starting`; the send record is
/// kept.
pub open spec fn after_start(m: StateModel, target: Seq<char>, cadence: u64) -> StateModel {
    StateModel {
        running: true,
        target: target,
        cadence: cadence,
        status: StatusModel::Starting,
        generation: (m.generation + 1) as u64,
        ..m
    }
}

/// The state after `stop`: not running, status `Stopped`; everything else,
/// the send record included, is kept.
pub open spec fn after_stop(m: StateModel) -> StateModel {
    StateModel { running: false, status: StatusModel::Stopped, ..m }
}

/// The state after a successful transmission is recorded at time `stamp`:
/// the send record advances to `stamp` and the status becomes `Success`.
pub open spec fn after_success(m: StateModel, stamp: Seq<char>) -> StateModel {
    StateModel { last_send: Some(stamp), status: StatusModel::Success, ..m }
}

/// The state after a failed cycle is recorded: the status carries the
/// diagnostic; the send record does not move.
pub open spec fn after_failure(m: StateModel, diagnostic: Seq<char>) -> StateModel {
    StateModel { status: StatusModel::Failure(diagnostic), ..m }
}

/// The diagnostic recorded when a tick finds no target configured.
pub open spec fn unconfigured_target_diag() -> Seq<char> {
    "target not configured"@
}

/// What one tick of a scheduler loop holding `generation` does to state
/// `m`: the pair of the action the loop must take and the state it leaves
/// behind. A stale token or a stopped service retires the loop untouched;
/// an empty target records a failure without calling the collector; else
/// the loop performs one transmission to the current target.
pub open spec fn tick_model(m: StateModel, generation: u64) -> (TickModel, StateModel) {
    if !m.running || generation != m.generation {
        (TickModel::Retire, m)
    } else if m.target.len() == 0 {
        (TickModel::Skip, after_failure(m, unconfigured_target_diag()))
    } else {
        (TickModel::Transmit(m.target), m)
    }
}

/// Mathematical image of a `TickAction` value.
#[verifier::ext_equal]
pub enum TickModel {
    Retire,
    Skip,
    Transmit(Seq<char>),
}

/// What the scheduler loop is to do after presenting its token on a tick.
#[derive(Debug)]
pub enum TickAction {
    /// The token is stale or the service was stopped: exit the loop.
    Retire,
    /// No transmission this tick; keep ticking.
    Skip,
    /// Perform exactly one reporting cycle toward the held target, then
    /// record its outcome before the next tick.
    Transmit(String),
}

impl View for TickAction {
    type V = TickModel;

    open spec fn view(&self) -> TickModel {
        match self {
            TickAction::Retire => TickModel::Retire,
            TickAction::Skip => TickModel::Skip,
            TickAction::Transmit(t) => TickModel::Transmit(t@),
        }
    }
}

/// The time text `get_status` reports: the recorded timestamp, or the
/// `"never"` marker before any successful send.
pub open spec fn status_time_text(m: StateModel) -> Seq<char> {
    match m.last_send {
        Some(t) => t,
        None => "never"@,
    }
}

/// The status text `get_status` pairs with the time text.
pub open spec fn status_label(s: StatusModel) -> Seq<char> {
    match s {
        StatusModel::NotStarted => "not-started"@,
        StatusModel::Starting => "starting"@,
        StatusModel::Stopped => "stopped"@,
        StatusModel::Success => "success"@,
        StatusModel::Failure(d) => "failure: "@ + d,
    }
}

/// Fewest characters a recorded timestamp can have: four year digits, two
/// digits for each of five further fields, and four separators plus the
/// space.
pub const TIMESTAMP_CHARS_MIN: usize = 19;

/// Relies on chrono's `Local::now` and `DateTime::format` with
/// `"%Y-%m-%d %H:%M:%S"`: `%Y` is zero-padded to at least four digits and
/// every other field to two, so the text has at least 19 characters. The
/// wall clock decides the value, so nothing more is claimed of it.
#[verifier::external_body]
fn now_timestamp() -> (r: String)
    ensures
        r@.len() >= TIMESTAMP_CHARS_MIN,
{
    chrono::Local::now().format("%Y-%m-%d %H:%M:%S").to_string()
}

/// The shared state of one reporting service instance. Callers that share
/// it across tasks keep it behind one mutual-exclusion lock and hold the
/// lock only across single method calls, never across network waits.
pub struct MonitorService {
    is_running: bool,
    server_url: String,
    interval_seconds: u64,
    last_send_time: Option<String>,
    last_status: Status,
    generation: u64,
}

impl View for MonitorService {
    type V = StateModel;

    closed spec fn view(&self) -> StateModel {
        StateModel {
            running: self.is_running,
            target: self.server_url@,
            cadence: self.interval_seconds,
            last_send: match self.last_send_time {
                Some(t) => Some(t@),
                None => None,
            },
            status: self.last_status@,
            generation: self.generation,
        }
    }
}

impl MonitorService {
    /// Construct a service that has never run.
    pub fn new() -> (s: Self)
        ensures
            s@ =~= initial_state(),
    {
        MonitorService {
            is_running: false,
            server_url: String::new(),
            interval_seconds: DEFAULT_CADENCE_SECONDS,
            last_send_time: None,
            last_status: Status::NotStarted,
            generation: 0,
        }
    }

    /// The generation token the most recent `start` handed out (zero before
    /// any `start`). A scheduler loop transmits only while its own token is
    /// still the current one.
    pub fn current_generation(&self) -> (g: u64)
        ensures
            g == self@.generation,
    {
        self.generation
    }

    /// The cadence currently configured, in seconds. A scheduler loop
    /// reads it once at its own launch to build its timer; a later `start`
    /// does not retune an already-running loop, it replaces the loop.
    pub fn cadence_seconds(&self) -> (c: u64)
        ensures
            c == self@.cadence,
    {
        self.interval_seconds
    }

    /// Begin periodic reporting toward `server_url` every
    /// `interval_seconds` seconds. On success the caller receives the fresh
    /// generation token and must launch exactly one scheduler loop that
    /// presents it on every tick; a loop launched by an earlier `start` is
    /// superseded by this call. Validation failures leave the state
    /// untouched.
    pub fn start(&mut self, server_url: String, interval_seconds: u64) -> (r: Result<
        u64,
        StartError,
    >)
        requires
            old(self)@.generation < u64::MAX,
        ensures
            ({
                match start_rejected(server_url@, interval_seconds) {
                    Some(e) => r == Err::<u64, StartError>(e) && final(self)@ =~= old(self)@,
                    None => r == Ok::<u64, StartError>(final(self)@.generation) && final(self)@
                        =~= after_start(old(self)@, server_url@, interval_seconds),
                }
            }),
    {
        if server_url.as_str().is_empty() {
            return Err(StartError::InvalidTarget);
        }
        if interval_seconds < MIN_CADENCE_SECONDS {
            return Err(StartError::InvalidCadence);
        }
        self.is_running = true;
        self.server_url = server_url;
        self.interval_seconds = interval_seconds;
        self.last_status = Status::Starting;
        self.generation = self.generation + 1;
        Ok(self.generation)
    }

    /// Halt periodic reporting. Always succeeds and is idempotent; a cycle
    /// already in flight may still record its outcome, but no further tick
    /// transmits.
    pub fn stop(&mut self)
        ensures
            final(self)@ =~= after_stop(old(self)@),
    {
        self.is_running = false;
        self.last_status = Status::Stopped;
    }

    /// Whether a scheduler loop is currently permitted to transmit.
    pub fn is_running(&self) -> (r: bool)
        ensures
            r == self@.running,
    {
        self.is_running
    }

    /// One tick of the scheduler loop that holds `generation`: decide
    /// whether that loop is still current and, if so, what this cycle is
    /// to do. The caller performs a returned `Transmit` outside any lock
    /// and then records the outcome with `record_success` or
    /// `record_failure`.
    pub fn on_tick(&mut self, generation: u64) -> (a: TickAction)
        ensures
            a@ =~= tick_model(old(self)@, generation).0,
            final(self)@ =~= tick_model(old(self)@, generation).1,
    {
        if !self.is_running || generation != self.generation {
            TickAction::Retire
        } else if self.server_url.as_str().is_empty() {
            self.last_status = Status::Failure(String::from_str("target not configured"));
            TickAction::Skip
        } else {
            TickAction::Transmit(self.server_url.clone())
        }
    }

    /// Record a confirmed successful transmission: stamp the send record
    /// with the local wall-clock time and set the status to `Success`.
    /// Nothing else moves.
    pub fn record_success(&mut self)
        ensures
            final(self)@ =~= after_success(old(self)@, final(self)@.last_send->0),
            final(self)@.last_send is Some,
            final(self)@.last_send->0.len() >= TIMESTAMP_CHARS_MIN,
    {
        self.last_send_time = Some(now_timestamp());
        self.last_status = Status::Success;
    }

    /// Record a failed cycle under its human-readable diagnostic. The send
    /// record keeps the value of the last confirmed success.
    pub fn record_failure(&mut self, diagnostic: String)
        ensures
            final(self)@ =~= after_failure(old(self)@, diagnostic@),
    {
        self.last_status = Status::Failure(diagnostic);
    }

    /// Snapshot of the two reportable fields: the time of the last
    /// successful send (or the "never" marker) and the status text. Never
    /// blocks on the network.
    pub fn get_status(&self) -> (r: (String, String))
        ensures
            r.0@ == status_time_text(self@),
            r.1@ == status_label(self@.status),
    {
        let last_time = match &self.last_send_time {
            Some(t) => t.clone(),
            None => String::from_str("never"),
        };
        let status = match &self.last_status {
            Status::NotStarted => String::from_str("not-started"),
            Status::Starting => String::from_str("starting"),
            Status::Stopped => String::from_str("stopped"),
            Status::Success => String::from_str("success"),
            Status::Failure(d) => {
                let mut text = String::from_str("failure: ");
                text.append(d.as_str());
                text
            },
        };
        (last_time, status)
    }
}

/// Well-formedness of reachable service states: the cadence never sits
/// below the enforced minimum, and a running service always has a
/// configured target.
pub open spec fn wf(m: StateModel) -> bool {
    &&& m.cadence >= MIN_CADENCE_SECONDS
    &&& (m.running ==> m.target.len() > 0)
}

/// The constructed state is well formed, and every transition of the
/// service preserves well-formedness.
pub proof fn lemma_wf_preserved(
    m: StateModel,
    target: Seq<char>,
    cadence: u64,
    generation: u64,
    diagnostic: Seq<char>,
    stamp: Seq<char>,
)
    requires
        wf(m),
    ensures
        wf(initial_state()),
        start_rejected(target, cadence) is None ==> wf(after_start(m, target, cadence)),
        wf(after_stop(m)),
        wf(after_success(m, stamp)),
        wf(after_failure(m, diagnostic)),
        wf(tick_model(m, generation).1),
{
}

/// After `stop`, no tick of any loop generation transmits again: every
/// loop retires, the state sits still, and the send record does not
/// advance past the value `stop` left behind.
pub proof fn lemma_stop_halts_transmissions(m: StateModel, generation: u64)
    ensures
        tick_model(after_stop(m), generation).0 == TickModel::Retire,
        tick_model(after_stop(m), generation).1 == after_stop(m),
        after_stop(m).last_send == m.last_send,
{
}

/// Two `start` calls in a row leave exactly one live loop: a tick that
/// presents the first call's token retires without transmitting, while a
/// tick under the current token transmits to the second target only.
pub proof fn lemma_second_start_supersedes(
    m: StateModel,
    target1: Seq<char>,
    cadence1: u64,
    target2: Seq<char>,
    cadence2: u64,
)
    requires
        start_rejected(target1, cadence1) is None,
        start_rejected(target2, cadence2) is None,
        m.generation + 2 <= u64::MAX,
    ensures
        ({
            let first = after_start(m, target1, cadence1);
            let second = after_start(first, target2, cadence2);
            &&& tick_model(second, first.generation).0 == TickModel::Retire
            &&& tick_model(second, first.generation).1 == second
            &&& tick_model(second, second.generation).0 == TickModel::Transmit(target2)
        }),
{
}

/// A transport that keeps failing never stops the loop: recording the
/// failure leaves the service running under the same generation with the
/// diagnostic on display and the send record untouched, and the next tick
/// transmits to the same target again.
pub proof fn lemma_failure_keeps_loop_alive(m: StateModel, diagnostic: Seq<char>)
    requires
        m.running,
        m.target.len() > 0,
    ensures
        ({
            let failed = after_failure(m, diagnostic);
            &&& failed.running
            &&& failed.generation == m.generation
            &&& failed.last_send == m.last_send
            &&& failed.status == StatusModel::Failure(diagnostic)
            &&& tick_model(failed, m.generation).0 == TickModel::Transmit(m.target)
            &&& tick_model(failed, m.generation).1 == failed
        }),
{
}

/// Before any `start`, the reported status pair is
/// `("never", "not-started")`.
pub proof fn lemma_initial_status()
    ensures
        status_time_text(initial_state()) == "never"@,
        status_label(initial_state().status) == "not-started"@,
{
}

/// With valid parameters, the first tick after `start` transmits to the
/// new target; once that transmission's success is recorded, the service
/// is still running and reports `"success"` with a real timestamp, never
/// the `"never"` marker.
pub proof fn lemma_start_then_success_reported(
    m: StateModel,
    target: Seq<char>,
    cadence: u64,
    stamp: Seq<char>,
)
    requires
        start_rejected(target, cadence) is None,
        stamp.len() >= TIMESTAMP_CHARS_MIN,
    ensures
        ({
            let started = after_start(m, target, cadence);
            let sent = after_success(started, stamp);
            &&& tick_model(started, started.generation).0 == TickModel::Transmit(target)
            &&& tick_model(started, started.generation).1 == started
            &&& sent.running
            &&& status_label(sent.status) == "success"@
            &&& status_time_text(sent) != "never"@
        }),
{
    // The marker is five characters long, shorter than any timestamp.
    reveal_strlit("never");
}

/// The send record moves only when a confirmed success is recorded: no
/// other transition of the service touches it.
pub proof fn lemma_send_record_only_advances_on_success(
    m: StateModel,
    target: Seq<char>,
    cadence: u64,
    generation: u64,
    diagnostic: Seq<char>,
)
    ensures
        after_start(m, target, cadence).last_send == m.last_send,
        after_stop(m).last_send == m.last_send,
        after_failure(m, diagnostic).last_send == m.last_send,
        tick_model(m, generation).1.last_send == m.last_send,
{
}

/// `stop` is idempotent: a second `stop` changes nothing, and the status
/// reads `Stopped` after each of the two.
pub proof fn lemma_stop_idempotent(m: StateModel)
    ensures
        after_stop(after_stop(m)) =~= after_stop(m),
        after_stop(m).status == StatusModel::Stopped,
        after_stop(after_stop(m)).status == StatusModel::Stopped,
{
}

} // verus!
