//! The two execution backends as the adapter drives them. A request to stop
//! is looked at before a run is begun and again when it is over.

use vstd::prelude::*;
use crate::dispatch::plan_matches;
use crate::duration::RunDuration;
use crate::error::TapascoRunError;
use crate::host::TapascoHostRun;
use crate::image::{data_image, instruction_image, split_image};
use crate::job::{initial, refusal, register_bitmap_len, PhysicalJob};
use crate::pool::{Begin, TapascoDispatcher};
use crate::sim::{sim_initial, SimConfig, SimJob};

verus! {

/// What a run that was asked for while the stop flag may be set comes to.
pub open spec fn gated<T>(stop: bool, result: Result<T, TapascoRunError>) -> Result<
    T,
    TapascoRunError,
> {
    if stop {
        Err(TapascoRunError::ShuttingDown)
    } else {
        result
    }
}

/// Refuses a run with the shutdown signal where a stop was requested.
pub fn check_stop(stop: bool) -> (r: Result<(), TapascoRunError>)
    ensures
        r == gated(stop, Ok(())),
{
    if stop {
        Err(TapascoRunError::ShuttingDown)
    } else {
        Ok(())
    }
}

/// Looks at the stop flag once a run is over: where a stop was requested in
/// the meantime, the result is dropped for the shutdown signal.
pub fn settle(stop: bool, result: Result<TapascoHostRun, TapascoRunError>) -> (r: Result<
    TapascoHostRun,
    TapascoRunError,
>)
    ensures
        r == gated(stop, result),
{
    if stop {
        Err(TapascoRunError::ShuttingDown)
    } else {
        result
    }
}

/// Why a runner could not be made.
#[derive(Clone, Copy, Debug, PartialEq, Eq, Structural)]
pub enum RunnerError {
    /// There is no pool to run on.
    NoDispatchers,
    /// The segment shared with the simulation is too small or too large.
    BadSegmentSize,
}

/// Runs a program on physical elements and retrieves the results. All users
/// of a pool are taken to run the same instruction image.
pub struct TapascoRunnerPhysical {
    instmem: Vec<u8>,
    datamem: Vec<u8>,
    ignore_addresses_min: u32,
    timeout_cycles: u64,
}

/// How an attempt to begin a run on a physical element ended.
pub enum PhysicalBegin {
    /// A stop was requested; the pool was not touched.
    ShuttingDown,
    /// What the pool answered.
    Pool(Begin),
}

impl TapascoRunnerPhysical {
    /// The instruction image.
    pub closed spec fn instmem(&self) -> Seq<u8> {
        self.instmem@
    }

    /// The data image.
    pub closed spec fn datamem(&self) -> Seq<u8> {
        self.datamem@
    }

    /// Lowest address whose control flow the element records.
    pub closed spec fn ignore_addresses_min(&self) -> u32 {
        self.ignore_addresses_min
    }

    /// Cycle limit of a run.
    pub closed spec fn timeout_cycles(&self) -> u64 {
        self.timeout_cycles
    }

    /// Creates a runner for the program whose file holds `image`, to run on
    /// `dispatchers` pools.
    pub fn new(
        image: &[u8],
        ignore_addresses_min: u32,
        dispatchers: usize,
        timeout_cycles: u64,
    ) -> (r: Result<Self, RunnerError>)
        ensures
            r is Ok <==> dispatchers > 0,
            r matches Ok(runner) ==> {
                &&& runner.instmem() == instruction_image(image@)
                &&& runner.datamem() == data_image(image@)
                &&& runner.ignore_addresses_min() == ignore_addresses_min
                &&& runner.timeout_cycles() == timeout_cycles
            },
            r matches Err(e) ==> e == RunnerError::NoDispatchers,
    {
        let (instmem, datamem) = split_image(image);
        if dispatchers == 0 {
            return Err(RunnerError::NoDispatchers);
        }
        Ok(TapascoRunnerPhysical { instmem, datamem, ignore_addresses_min, timeout_cycles })
    }

    /// Begins a run of `input` unless a stop was requested: then the pool is
    /// left as it is and no element is taken.
    pub fn begin(
        &self,
        stop: bool,
        pool: &mut TapascoDispatcher,
        input: &[u8],
        bitmap_len: usize,
    ) -> (r: PhysicalBegin)
        requires
            old(pool).wf(),
        ensures
            final(pool).wf(),
            r is ShuttingDown <==> stop,
            stop ==> final(pool)@ == old(pool)@,
            r matches PhysicalBegin::Pool(begun) ==> {
                &&& begun is Busy <==> old(pool)@.idle.len() == 0
                &&& begun is Busy ==> final(pool)@ == old(pool)@
                &&& begun matches Begin::Refused(e) ==> final(pool)@ == old(pool)@ && refusal(
                    old(pool)@.idle.last(),
                    self.instmem(),
                    self.datamem(),
                    input@,
                    bitmap_len,
                ) == Some(e)
                &&& begun matches Begin::Started(job) ==> {
                    &&& refusal(
                        old(pool)@.idle.last(),
                        self.instmem(),
                        self.datamem(),
                        input@,
                        bitmap_len,
                    ) is None
                    &&& final(pool)@ == old(pool)@.acquire().0
                    &&& final(pool)@.lent() > 0
                    &&& job.wf()
                    &&& job@ == initial(old(pool)@.idle.last(), job@.plan, bitmap_len)
                    &&& plan_matches(
                        job@.plan,
                        old(pool)@.idle.last(),
                        0,
                        self.instmem(),
                        self.datamem(),
                        input@,
                        self.ignore_addresses_min(),
                        register_bitmap_len(bitmap_len),
                        self.timeout_cycles(),
                    )
                }
            },
    {
        if stop {
            return PhysicalBegin::ShuttingDown;
        }
        PhysicalBegin::Pool(
            pool.begin(
                0,
                self.instmem.as_slice(),
                self.datamem.as_slice(),
                self.ignore_addresses_min,
                self.timeout_cycles,
                input,
                bitmap_len,
            ),
        )
    }

    /// Ends a finished run: the element goes back to the pool whatever the
    /// stop flag says, and the result is dropped for the shutdown signal
    /// where a stop was requested. A run that is not finished is handed
    /// back.
    pub fn conclude(&self, stop: bool, pool: &mut TapascoDispatcher, job: PhysicalJob) -> (r:
        Result<Result<TapascoHostRun, TapascoRunError>, PhysicalJob>)
        requires
            old(pool).wf(),
            old(pool)@.lent() > 0,
            job.wf(),
        ensures
            final(pool).wf(),
            r is Ok <==> job@.stage is Finished,
            r matches Err(unfinished) ==> unfinished == job && final(pool)@ == old(pool)@,
            r is Ok ==> final(pool)@ == old(pool)@.release(job@.desc),
            r matches Ok(result) ==> (stop ==> result == Err::<TapascoHostRun, TapascoRunError>(
                TapascoRunError::ShuttingDown,
            )),
            r matches Ok(Err(e)) ==> stop || job@.failure == Some(e),
            r matches Ok(Ok(run)) ==> {
                &&& !stop
                &&& job@.failure is None
                &&& run.status == job@.status
                &&& job@.coverage == Some(run.bitmap@)
                &&& run.bitmap@.len() == job@.bitmap_len
                &&& run.duration == Some(RunDuration::of_cycles(job@.counter))
            },
            !stop && job@.stage is Finished && job@.failure is None ==> r matches Ok(Ok(_)),
    {
        match pool.complete(job) {
            Err(unfinished) => Err(unfinished),
            Ok(result) => Ok(settle(stop, result)),
        }
    }
}

/// Runs a program on a simulated element and retrieves the results.
pub struct TapascoRunnerSim {
    config: SimConfig,
}

impl TapascoRunnerSim {
    /// How the runner shares memory with the simulation.
    pub closed spec fn config(&self) -> SimConfig {
        self.config
    }

    /// Creates a runner for a simulation that shares the described segment.
    pub fn new(config: SimConfig) -> (r: Result<Self, RunnerError>)
        ensures
            r is Ok <==> config.wf(),
            r matches Ok(runner) ==> runner.config() == config,
            r matches Err(e) ==> e == RunnerError::BadSegmentSize,
    {
        if config.is_valid() {
            Ok(TapascoRunnerSim { config })
        } else {
            Err(RunnerError::BadSegmentSize)
        }
    }

    /// Begins a run of `input` unless a stop was requested.
    pub fn begin(&self, stop: bool, input: &[u8], bitmap_len: usize) -> (r: Result<
        SimJob,
        TapascoRunError,
    >)
        requires
            self.config().wf(),
        ensures
            r is Err <==> stop,
            r matches Err(e) ==> e == TapascoRunError::ShuttingDown,
            r matches Ok(job) ==> job.wf() && job@ == sim_initial(self.config(), input@, bitmap_len),
    {
        if stop {
            return Err(TapascoRunError::ShuttingDown);
        }
        Ok(SimJob::new(self.config, input, bitmap_len))
    }
}

/// After a request to stop, a run is refused with the shutdown signal, and
/// a run that was under way ends with it whatever its own result is.
pub proof fn lemma_stop_wins(result: Result<TapascoHostRun, TapascoRunError>)
    ensures
        gated(true, Ok::<(), TapascoRunError>(())) == Err::<(), TapascoRunError>(
            TapascoRunError::ShuttingDown,
        ),
        gated(true, result) == Err::<TapascoHostRun, TapascoRunError>(
            TapascoRunError::ShuttingDown,
        ),
        gated(false, result) == result,
{
}

} // verus!
