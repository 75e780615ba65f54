//! The execution adapter: it takes what a backend made of one input and
//! tells the engine how the execution ended, with the coverage and the
//! execution time in the engine's observers.

use vstd::prelude::*;
use vstd::string::StringExecFns;
use crate::duration::RunDuration;
use crate::error::TapascoRunError;
use crate::status::{classify, outcome_of, Outcome, StatusError};
use crate::time_feedback::ManualTimeObserver;

verus! {

/// Result data of one run.
#[derive(Clone, Debug, PartialEq, Eq)]
pub struct TapascoHostRun {
    /// The status word.
    pub status: u32,
    /// The coverage bitmap of the run.
    pub bitmap: Vec<u8>,
    /// Execution time, where the element produced a counter value.
    pub duration: Option<RunDuration>,
}

/// The two observers that the adapter writes to.
#[derive(Clone, Copy, Debug, PartialEq, Eq, Structural)]
pub enum ObserverKind {
    Coverage,
    Time,
}

/// Errors that the adapter reports to the engine.
#[derive(Clone, Debug, PartialEq, Eq)]
pub enum HostError {
    /// No observer of this kind goes by the name that the adapter was given.
    KeyNotFound { observer: ObserverKind },
    Unknown { s: String },
    /// A file or pipe operation failed.
    File { message: String },
    /// The host is shutting down.
    ShuttingDown,
    /// Any other error of the run.
    Run { source: TapascoRunError },
    /// The element refused the bitmap size.
    InvalidBitmapSize,
    /// The status word has reserved bits set.
    InvalidRunStatus { status: u32 },
}

/// The error that the engine is told for an error of the run.
pub open spec fn host_error_of(e: TapascoRunError) -> HostError {
    match e {
        TapascoRunError::Unknown { s } => HostError::Unknown { s },
        TapascoRunError::IO { message } => HostError::File { message },
        TapascoRunError::ShuttingDown => HostError::ShuttingDown,
        _ => HostError::Run { source: e },
    }
}

/// The error that the engine is told for a status word that is none.
pub open spec fn status_error_of(e: StatusError) -> HostError {
    match e {
        StatusError::InvalidBitmapSize => HostError::InvalidBitmapSize,
        StatusError::Reserved { status } => HostError::InvalidRunStatus { status },
    }
}

impl HostError {
    /// Maps an error of the run to what the engine is told.
    pub fn from_run(e: TapascoRunError) -> (r: Self)
        ensures
            r == host_error_of(e),
    {
        match e {
            TapascoRunError::Unknown { s } => HostError::Unknown { s },
            TapascoRunError::IO { message } => HostError::File { message },
            TapascoRunError::ShuttingDown => HostError::ShuttingDown,
            other => HostError::Run { source: other },
        }
    }
}

/// The observer that holds the coverage map for the engine.
#[derive(Clone, Debug, PartialEq, Eq)]
pub struct CoverageObserver {
    name: String,
    map: Vec<u8>,
}

impl CoverageObserver {
    /// The observer's name.
    pub closed spec fn spec_name(&self) -> Seq<char> {
        self.name@
    }

    /// The coverage map.
    pub closed spec fn spec_map(&self) -> Seq<u8> {
        self.map@
    }

    /// Creates an observer with the given name around a map.
    pub fn new(name: &'static str, map: Vec<u8>) -> (r: Self)
        ensures
            r.spec_name() == name@,
            r.spec_map() == map@,
    {
        CoverageObserver { name: String::from_str(name), map }
    }

    /// The observer's name.
    pub fn name(&self) -> (r: &str)
        ensures
            r@ == self.spec_name(),
    {
        self.name.as_str()
    }

    /// The coverage map.
    pub fn map(&self) -> (r: &Vec<u8>)
        ensures
            r@ == self.spec_map(),
    {
        &self.map
    }
}

/// What the engine can see of the adapter.
pub struct ExecutorState {
    /// Name under which the adapter looks for the map observer.
    pub map_observer_name: Seq<char>,
    /// Name under which the adapter looks for the time observer.
    pub time_observer_name: Seq<char>,
    /// Name of the map observer it was given.
    pub map_name: Seq<char>,
    /// Name of the time observer it was given.
    pub time_name: Seq<char>,
    /// Length of the bitmap that the adapter asks a backend for.
    pub bitmap_len: usize,
    pub coverage: Seq<u8>,
    pub last_runtime: Option<RunDuration>,
}

impl ExecutorState {
    /// The map observer goes by the name that the adapter looks for.
    pub open spec fn finds_map(self) -> bool {
        self.map_name == self.map_observer_name
    }

    /// The time observer goes by the name that the adapter looks for.
    pub open spec fn finds_time(self) -> bool {
        self.time_name == self.time_observer_name
    }

    /// The adapter after the result of a run, and what the engine is told.
    /// An error of the run clears the execution time. A run that ended is
    /// judged by its status word; unless that is a hard error, the coverage
    /// is copied whatever the outcome, and the execution time recorded.
    pub open spec fn concluded(
        self,
        status: Result<u32, TapascoRunError>,
        bitmap: Seq<u8>,
        duration: Option<RunDuration>,
    ) -> (ExecutorState, Result<Outcome, HostError>) {
        match status {
            Err(e) => if self.finds_time() {
                (ExecutorState { last_runtime: None, ..self }, Err(host_error_of(e)))
            } else {
                (self, Err(HostError::KeyNotFound { observer: ObserverKind::Time }))
            },
            Ok(word) => match outcome_of(word) {
                Err(e) => (self, Err(status_error_of(e))),
                Ok(outcome) => if !self.finds_map() {
                    (self, Err(HostError::KeyNotFound { observer: ObserverKind::Coverage }))
                } else if !self.finds_time() {
                    (
                        ExecutorState { coverage: bitmap, ..self },
                        Err(HostError::KeyNotFound { observer: ObserverKind::Time }),
                    )
                } else {
                    (
                        ExecutorState { coverage: bitmap, last_runtime: duration, ..self },
                        Ok(outcome),
                    )
                },
            },
        }
    }
}

/// Hands the results of a backend over to the engine.
pub struct TapascoHostExecutor {
    target: String,
    bitmap_len: usize,
    coverage: CoverageObserver,
    time: ManualTimeObserver,
    map_observer_name: String,
    time_observer_name: String,
}

impl View for TapascoHostExecutor {
    type V = ExecutorState;

    closed spec fn view(&self) -> ExecutorState {
        ExecutorState {
            map_observer_name: self.map_observer_name@,
            time_observer_name: self.time_observer_name@,
            map_name: self.coverage.spec_name(),
            time_name: self.time.spec_name(),
            bitmap_len: self.bitmap_len,
            coverage: self.coverage.spec_map(),
            last_runtime: self.time.spec_last_runtime(),
        }
    }
}

/// The result of a run as the adapter's model takes it: the status word or
/// the error.
pub open spec fn status_of(result: Result<TapascoHostRun, TapascoRunError>) -> Result<
    u32,
    TapascoRunError,
> {
    match result {
        Ok(run) => Ok(run.status),
        Err(e) => Err(e),
    }
}

/// The bitmap of a run; empty for an error.
pub open spec fn bitmap_of(result: Result<TapascoHostRun, TapascoRunError>) -> Seq<u8> {
    match result {
        Ok(run) => run.bitmap@,
        Err(_) => Seq::empty(),
    }
}

/// The execution time of a run; none for an error.
pub open spec fn duration_of(result: Result<TapascoHostRun, TapascoRunError>) -> Option<
    RunDuration,
> {
    match result {
        Ok(run) => run.duration,
        Err(_) => None,
    }
}

impl TapascoHostExecutor {
    /// The name of the target program.
    pub closed spec fn spec_target(&self) -> Seq<char> {
        self.target@
    }

    /// Creates an adapter for the given target and observers.
    pub fn new(
        target: String,
        coverage: CoverageObserver,
        time: ManualTimeObserver,
        map_observer_name: &'static str,
        bitmap_len: usize,
        time_observer_name: &'static str,
    ) -> (r: Self)
        ensures
            r.spec_target() == target@,
            r@ == (ExecutorState {
                map_observer_name: map_observer_name@,
                time_observer_name: time_observer_name@,
                map_name: coverage.spec_name(),
                time_name: time.spec_name(),
                bitmap_len,
                coverage: coverage.spec_map(),
                last_runtime: time.spec_last_runtime(),
            }),
    {
        Self::with_debug(
            target,
            coverage,
            time,
            map_observer_name,
            bitmap_len,
            time_observer_name,
            false,
        )
    }

    /// Creates an adapter for the given target and observers; the debug
    /// switch changes nothing.
    pub fn with_debug(
        target: String,
        coverage: CoverageObserver,
        time: ManualTimeObserver,
        map_observer_name: &'static str,
        bitmap_len: usize,
        time_observer_name: &'static str,
        _debug_output: bool,
    ) -> (r: Self)
        ensures
            r.spec_target() == target@,
            r@ == (ExecutorState {
                map_observer_name: map_observer_name@,
                time_observer_name: time_observer_name@,
                map_name: coverage.spec_name(),
                time_name: time.spec_name(),
                bitmap_len,
                coverage: coverage.spec_map(),
                last_runtime: time.spec_last_runtime(),
            }),
    {
        TapascoHostExecutor {
            target,
            bitmap_len,
            coverage,
            time,
            map_observer_name: String::from_str(map_observer_name),
            time_observer_name: String::from_str(time_observer_name),
        }
    }

    /// Length of the bitmap to ask a backend for.
    pub fn bitmap_len(&self) -> (r: usize)
        ensures
            r == self@.bitmap_len,
    {
        self.bitmap_len
    }

    /// The name of the target program.
    pub fn target(&self) -> (r: &str)
        ensures
            r@ == self.spec_target(),
    {
        self.target.as_str()
    }

    /// The coverage observer.
    pub fn coverage(&self) -> (r: &CoverageObserver)
        ensures
            r.spec_map() == self@.coverage,
            r.spec_name() == self@.map_name,
    {
        &self.coverage
    }

    /// The time observer.
    pub fn time(&self) -> (r: &ManualTimeObserver)
        ensures
            r.spec_last_runtime() == self@.last_runtime,
            r.spec_name() == self@.time_name,
    {
        &self.time
    }

    /// Takes the result that a backend made of one input, and tells how the
    /// execution ended.
    pub fn run_target(&mut self, result: Result<TapascoHostRun, TapascoRunError>) -> (r: Result<
        Outcome,
        HostError,
    >)
        requires
            result matches Ok(run) ==> (outcome_of(run.status) is Ok && old(self)@.finds_map()
                ==> run.bitmap@.len() == old(self)@.coverage.len()),
        ensures
            final(self).spec_target() == old(self).spec_target(),
            (final(self)@, r) == old(self)@.concluded(
                status_of(result),
                bitmap_of(result),
                duration_of(result),
            ),
    {
        let finds_map: bool = self.coverage.name == self.map_observer_name;
        let finds_time: bool = self.time.name_matches(&self.time_observer_name);
        match result {
            Err(e) => {
                if !finds_time {
                    return Err(HostError::KeyNotFound { observer: ObserverKind::Time });
                }
                self.time.set_last_runtime(None);
                Err(HostError::from_run(e))
            },
            Ok(run) => {
                let outcome = match classify(run.status) {
                    Err(StatusError::InvalidBitmapSize) => {
                        return Err(HostError::InvalidBitmapSize);
                    },
                    Err(StatusError::Reserved { status }) => {
                        return Err(HostError::InvalidRunStatus { status });
                    },
                    Ok(outcome) => outcome,
                };
                if !finds_map {
                    return Err(HostError::KeyNotFound { observer: ObserverKind::Coverage });
                }
                self.coverage.map = run.bitmap;
                if !finds_time {
                    return Err(HostError::KeyNotFound { observer: ObserverKind::Time });
                }
                self.time.set_last_runtime(run.duration);
                Ok(outcome)
            },
        }
    }
}

/// Whenever the engine is told an outcome, be it success, crash or timeout,
/// its coverage slot holds the whole bitmap of that run and its time slot
/// the run's duration.
pub proof fn lemma_coverage_on_every_outcome(
    state: ExecutorState,
    status: u32,
    bitmap: Seq<u8>,
    duration: Option<RunDuration>,
)
    ensures
        state.concluded(Ok(status), bitmap, duration).1 is Ok ==> {
            &&& state.concluded(Ok(status), bitmap, duration).0.coverage == bitmap
            &&& state.concluded(Ok(status), bitmap, duration).0.last_runtime == duration
            &&& state.concluded(Ok(status), bitmap, duration).1 == Ok::<Outcome, HostError>(
                outcome_of(status).unwrap(),
            )
        },
{
}

/// An error of the run leaves no execution time behind.
pub proof fn lemma_error_clears_time(state: ExecutorState, e: TapascoRunError)
    requires
        state.finds_time(),
    ensures
        state.concluded(Err(e), Seq::empty(), None).0.last_runtime is None,
        state.concluded(Err(e), Seq::empty(), None).0.coverage == state.coverage,
        state.concluded(Err(e), Seq::empty(), None).1 == Err::<Outcome, HostError>(
            host_error_of(e),
        ),
{
}

/// A status word with bit 6 set, or with any bit from bit 8 upwards set, is
/// a hard error whatever the other bits, the bitmap and the observers are,
/// and leaves the engine's slots as they were.
pub proof fn lemma_hard_error_status(
    state: ExecutorState,
    status: u32,
    bitmap: Seq<u8>,
    duration: Option<RunDuration>,
)
    requires
        crate::status::bitmap_size_refused(status) || crate::status::reserved_bits_set(status),
    ensures
        state.concluded(Ok(status), bitmap, duration).1 is Err,
        state.concluded(Ok(status), bitmap, duration).0 == state,
        crate::status::bitmap_size_refused(status) ==> state.concluded(
            Ok(status),
            bitmap,
            duration,
        ).1 == Err::<Outcome, HostError>(HostError::InvalidBitmapSize),
        !crate::status::bitmap_size_refused(status) ==> state.concluded(
            Ok(status),
            bitmap,
            duration,
        ).1 == Err::<Outcome, HostError>(HostError::InvalidRunStatus { status }),
{
}

} // verus!
