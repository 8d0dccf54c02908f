//! The life of one metrics request, from a command line to a response.
//!
//! `PENDING -> LAUNCHED/SAMPLING -> WINDOW_ELAPSED -> RESPONDED` on success,
//! `PENDING -> FAILED` when the command is blank or cannot be launched. The
//! driver performs each [`HandlerAction`] and reports back a
//! [`HandlerEvent`]; no step is ever retried.
use vstd::prelude::*;
use crate::command::{CommandLine, parse_command, is_blank, words};
use crate::sample::{Sample, Usage};
use crate::store::SnapshotStore;

verus! {

/// Placeholder for bytes received over the network; not measured.
pub const NET_BYTES_READ: u64 = 512;

/// Placeholder for bytes sent over the network; not measured.
pub const NET_BYTES_WRITTEN: u64 = 256;

/// Observation window of the reference deployment, in milliseconds.
pub const DEFAULT_WINDOW_MS: u64 = 2000;

/// Sampling interval of the reference deployment, in milliseconds.
pub const DEFAULT_INTERVAL_MS: u64 = 300;

/// Why a request produced no response.
#[derive(Clone, Copy, Debug, PartialEq, Eq, Structural)]
pub enum HandlerError {
    /// The command holds no word (client error; no process was created).
    InvalidCommand,
    /// The operating system refused to start the process (server error).
    SpawnFailed { os_error: i32 },
}

/// The figures reported for one request.
#[derive(Clone, Copy, Debug, PartialEq, Eq, Structural)]
pub struct MetricsResponse {
    pub process_id: u32,
    /// Launch time, in seconds since the Unix epoch.
    pub timestamp: u64,
    pub usage: Usage,
    pub net_bytes_read: u64,
    pub net_bytes_written: u64,
}

/// The usage in which every figure is zero.
pub open spec fn zero_usage() -> Usage {
    Usage { cpu_centi_percent: 0, memory_rss_bytes: 0, io_bytes_read: 0, io_bytes_written: 0 }
}

/// Configuration of the service: how long a request observes its process,
/// how often the process is sampled, and the figures reported when no sample
/// of it was taken (the degraded response).
#[derive(Clone, Copy, Debug, PartialEq, Eq, Structural)]
pub struct MetricsService {
    pub window_ms: u64,
    pub interval_ms: u64,
    pub fallback: Usage,
}

impl Default for MetricsService {
    /// A 2000 ms window, a 300 ms interval and an all-zero fallback.
    fn default() -> (r: MetricsService)
        ensures
            r == (MetricsService {
                window_ms: DEFAULT_WINDOW_MS,
                interval_ms: DEFAULT_INTERVAL_MS,
                fallback: zero_usage(),
            }),
    {
        MetricsService::new(DEFAULT_WINDOW_MS, DEFAULT_INTERVAL_MS)
    }
}

/// The response for process `pid` launched at `timestamp`, given what its
/// snapshot store held when the window elapsed. Only a sample of that very
/// process is reported; otherwise the fallback figures are.
pub open spec fn response_of(pid: u32, timestamp: u64, snapshot: Option<Sample>, fallback: Usage) -> MetricsResponse {
    MetricsResponse {
        process_id: pid,
        timestamp,
        usage: match snapshot {
            Some(s) if s.pid == pid => s.usage,
            _ => fallback,
        },
        net_bytes_read: NET_BYTES_READ,
        net_bytes_written: NET_BYTES_WRITTEN,
    }
}

/// Where a request stands.
#[derive(Clone, Copy, Debug, PartialEq, Eq, Structural)]
pub enum Phase {
    /// The command is valid and its process is being launched.
    Pending,
    /// The process runs and is sampled until the window elapses.
    Sampling { pid: u32, launched_at: u64 },
    /// The response was produced.
    Responded,
    /// The request failed.
    Failed,
}

/// What the driver reports back.
#[derive(Clone, Copy, Debug, PartialEq, Eq, Structural)]
pub enum HandlerEvent {
    /// The process started; `launched_at` is in seconds since the Unix epoch.
    Launched { pid: u32, launched_at: u64 },
    /// The operating system refused to start the process.
    LaunchFailed { os_error: i32 },
    /// The window elapsed; `snapshot` is what the request's store held.
    WindowElapsed { snapshot: Option<Sample> },
}

/// What the driver is asked to do.
pub enum HandlerAction {
    /// Launch this command.
    Spawn(CommandLine),
    /// Start a sampler for `pid` every `interval_ms` into a fresh store, and
    /// wait `window_ms` before reporting the window's end.
    StartSampling { pid: u32, interval_ms: u64, window_ms: u64 },
    /// Cancel the sampler and answer with this response.
    Respond(MetricsResponse),
    /// Answer with this error.
    Fail(HandlerError),
    /// Nothing: the event does not fit the request's phase.
    Ignore,
}

/// One request in flight, with the configuration it was begun under.
#[derive(Clone, Copy, Debug, PartialEq, Eq, Structural)]
pub struct Request {
    pub config: MetricsService,
    pub phase: Phase,
}

impl MetricsService {
    /// A service with the given window and interval and an all-zero fallback.
    pub fn new(window_ms: u64, interval_ms: u64) -> (r: MetricsService)
        ensures
            r == (MetricsService { window_ms, interval_ms, fallback: zero_usage() }),
    {
        MetricsService {
            window_ms,
            interval_ms,
            fallback: Usage { cpu_centi_percent: 0, memory_rss_bytes: 0, io_bytes_read: 0, io_bytes_written: 0 },
        }
    }

    /// The same service with other fallback figures.
    pub fn with_fallback(self, fallback: Usage) -> (r: MetricsService)
        ensures
            r == (MetricsService { fallback, ..self }),
    {
        MetricsService { fallback, ..self }
    }

    /// Begins a request for `command`: a blank command fails at once with
    /// [`HandlerError::InvalidCommand`] and launches nothing; any other is
    /// split into words and handed out to be launched.
    pub fn begin(&self, command: &str) -> (r: (Request, HandlerAction))
        ensures
            r.0.config == *self,
            is_blank(command@) ==> r.0.phase == Phase::Failed && r.1 == HandlerAction::Fail(
                HandlerError::InvalidCommand,
            ),
            !is_blank(command@) ==> r.0.phase == Phase::Pending && (r.1 matches HandlerAction::Spawn(
                cl,
            ) && cl.view() == words(command@)),
    {
        match parse_command(command) {
            None => (
                Request { config: *self, phase: Phase::Failed },
                HandlerAction::Fail(HandlerError::InvalidCommand),
            ),
            Some(cl) => (Request { config: *self, phase: Phase::Pending }, HandlerAction::Spawn(cl)),
        }
    }
}

impl Request {
    /// The phase after `event`.
    pub open spec fn next_phase(self, event: HandlerEvent) -> Phase {
        match (self.phase, event) {
            (Phase::Pending, HandlerEvent::Launched { pid, launched_at }) => Phase::Sampling {
                pid,
                launched_at,
            },
            (Phase::Pending, HandlerEvent::LaunchFailed { .. }) => Phase::Failed,
            (Phase::Sampling { .. }, HandlerEvent::WindowElapsed { .. }) => Phase::Responded,
            _ => self.phase,
        }
    }

    /// The action that `event` calls for.
    pub open spec fn action_for(self, event: HandlerEvent) -> HandlerAction {
        match (self.phase, event) {
            (Phase::Pending, HandlerEvent::Launched { pid, .. }) => HandlerAction::StartSampling {
                pid,
                interval_ms: self.config.interval_ms,
                window_ms: self.config.window_ms,
            },
            (Phase::Pending, HandlerEvent::LaunchFailed { os_error }) => HandlerAction::Fail(
                HandlerError::SpawnFailed { os_error },
            ),
            (
                Phase::Sampling { pid, launched_at },
                HandlerEvent::WindowElapsed { snapshot },
            ) => HandlerAction::Respond(
                response_of(pid, launched_at, snapshot, self.config.fallback),
            ),
            _ => HandlerAction::Ignore,
        }
    }

    /// Whether no event can move the request any more.
    pub open spec fn is_finished(self) -> bool {
        self.phase == Phase::Responded || self.phase == Phase::Failed
    }

    /// Moves the request on by `event` and says what to do next.
    pub fn step(&mut self, event: HandlerEvent) -> (r: HandlerAction)
        ensures
            final(self).config == old(self).config,
            final(self).phase == old(self).next_phase(event),
            r == old(self).action_for(event),
    {
        match (self.phase, event) {
            (Phase::Pending, HandlerEvent::Launched { pid, launched_at }) => {
                self.phase = Phase::Sampling { pid, launched_at };
                HandlerAction::StartSampling {
                    pid,
                    interval_ms: self.config.interval_ms,
                    window_ms: self.config.window_ms,
                }
            },
            (Phase::Pending, HandlerEvent::LaunchFailed { os_error }) => {
                self.phase = Phase::Failed;
                HandlerAction::Fail(HandlerError::SpawnFailed { os_error })
            },
            (Phase::Sampling { pid, launched_at }, HandlerEvent::WindowElapsed { snapshot }) => {
                self.phase = Phase::Responded;
                HandlerAction::Respond(compose_response(pid, launched_at, snapshot, self.config.fallback))
            },
            _ => HandlerAction::Ignore,
        }
    }
}

/// The response for process `pid` launched at `timestamp`, from what its
/// store held: its own sample's figures, else `fallback`.
pub fn compose_response(pid: u32, timestamp: u64, snapshot: Option<Sample>, fallback: Usage) -> (r: MetricsResponse)
    ensures
        r == response_of(pid, timestamp, snapshot, fallback),
{
    let usage = match snapshot {
        Some(s) if s.pid == pid => s.usage,
        _ => fallback,
    };
    MetricsResponse {
        process_id: pid,
        timestamp,
        usage,
        net_bytes_read: NET_BYTES_READ,
        net_bytes_written: NET_BYTES_WRITTEN,
    }
}

/// The request after each event of `events` in turn.
pub open spec fn run(req: Request, events: Seq<HandlerEvent>) -> Request
    decreases events.len(),
{
    if events.len() == 0 {
        req
    } else {
        let last = events.last();
        let before = run(req, events.drop_last());
        Request { phase: before.next_phase(last), ..before }
    }
}

/// A launched request reports, when its window elapses, the very process it
/// launched and the time it was launched at.
pub proof fn lemma_response_names_launched_process(
    req: Request,
    pid: u32,
    launched_at: u64,
    snapshot: Option<Sample>,
)
    requires
        req.phase == Phase::Pending,
    ensures
        ({
            let launched = Request {
                phase: req.next_phase(HandlerEvent::Launched { pid, launched_at }),
                ..req
            };
            &&& launched.phase == (Phase::Sampling { pid, launched_at })
            &&& launched.action_for(HandlerEvent::WindowElapsed { snapshot }) matches HandlerAction::Respond(m)
            &&& m.process_id == pid
            &&& m.timestamp == launched_at
            &&& launched.next_phase(HandlerEvent::WindowElapsed { snapshot }) == Phase::Responded
        }),
{
}

/// A finished request (answered, or failed on a blank command or a refused
/// launch) stays as it is whatever happens next, and asks for nothing more:
/// no launch, no sampler, no second answer.
pub proof fn lemma_finished_request_is_inert(req: Request, events: Seq<HandlerEvent>)
    requires
        req.is_finished(),
    ensures
        run(req, events) == req,
        forall|i: int|
            0 <= i < events.len() ==> (run(req, events.take(i)).action_for(#[trigger] events[i])
                is Ignore),
    decreases events.len(),
{
    if events.len() > 0 {
        lemma_finished_request_is_inert(req, events.drop_last());
        assert forall|i: int| 0 <= i < events.len() implies run(req, events.take(i)).action_for(
            #[trigger] events[i],
        ) is Ignore by {
            if i < events.len() - 1 {
                assert(events.take(i) =~= events.drop_last().take(i));
                assert(events[i] == events.drop_last()[i]);
            } else {
                assert(events.take(i) =~= events.drop_last());
            }
        }
    }
}

/// A refused launch fails the request with the operating system's error,
/// distinct from a blank command, and without starting any sampling.
pub proof fn lemma_launch_failure_is_reported(req: Request, os_error: i32)
    requires
        req.phase == Phase::Pending,
    ensures
        ({
            let e = HandlerEvent::LaunchFailed { os_error };
            &&& req.action_for(e) == HandlerAction::Fail(HandlerError::SpawnFailed { os_error })
            &&& req.next_phase(e) == Phase::Failed
            &&& HandlerError::SpawnFailed { os_error } != HandlerError::InvalidCommand
        }),
{
}

/// When no sample of the process was stored by the end of the window, the
/// response still names the process and reports the fallback figures, which
/// are all zero under the default configuration.
pub proof fn lemma_no_sample_gives_fallback(req: Request, pid: u32, launched_at: u64)
    requires
        req.phase == (Phase::Sampling { pid, launched_at }),
    ensures
        ({
            let expected = MetricsResponse {
                process_id: pid,
                timestamp: launched_at,
                usage: req.config.fallback,
                net_bytes_read: NET_BYTES_READ,
                net_bytes_written: NET_BYTES_WRITTEN,
            };
            &&& req.action_for(HandlerEvent::WindowElapsed { snapshot: None })
                == HandlerAction::Respond(expected)
            &&& req.config.fallback == zero_usage() ==> expected.usage == zero_usage()
        }),
{
}

/// Two requests for different processes, each with its own store, never
/// report each other's figures: each reports the sample stored last in its
/// own store (or its fallback), and the other request's store yields only the
/// fallback.
pub proof fn lemma_requests_do_not_mix(
    r1: Request,
    st1: SnapshotStore,
    r2: Request,
    st2: SnapshotStore,
)
    requires
        (r1.phase matches Phase::Sampling { pid, .. } && st1.owner() == pid),
        (r2.phase matches Phase::Sampling { pid, .. } && st2.owner() == pid),
        st1.owner() != st2.owner(),
    ensures
        st1.latest() matches Some(s) ==> s.pid == st1.owner() && reports(r1, st1.latest(), s.usage),
        st2.latest() matches Some(s) ==> s.pid == st2.owner() && reports(r2, st2.latest(), s.usage),
        reports(r1, st2.latest(), r1.config.fallback),
        reports(r2, st1.latest(), r2.config.fallback),
{
    st1.lemma_latest_is_own();
    st2.lemma_latest_is_own();
}

/// A request answered from its own store reports the figures of the sample
/// stored last in it; when none was stored (the process exited before the
/// first tick, or every read failed) it reports the fallback figures, all
/// zero under the default configuration.
pub proof fn lemma_reports_latest_of_own_store(req: Request, store: SnapshotStore)
    requires
        (req.phase matches Phase::Sampling { pid, .. } && store.owner() == pid),
    ensures
        store.latest() is None ==> reports(req, store.latest(), req.config.fallback),
        store.latest() matches Some(s) ==> reports(req, store.latest(), s.usage),
        (store.latest() is None && req.config.fallback == zero_usage()) ==> reports(
            req,
            store.latest(),
            zero_usage(),
        ),
{
    store.lemma_latest_is_own();
}

/// `req` answers the end of its window, with `snapshot` in its store, by a
/// response carrying `usage`.
pub open spec fn reports(req: Request, snapshot: Option<Sample>, usage: Usage) -> bool {
    req.action_for(HandlerEvent::WindowElapsed { snapshot }) matches HandlerAction::Respond(m)
        && m.usage == usage
}

} // verus!
