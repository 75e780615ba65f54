//! The pool of idle elements. A descriptor is handed out to one run at a
//! time and comes back when the run is over; the pool is a stack, so the
//! descriptor returned last is handed out first.

use vstd::prelude::*;
use crate::error::TapascoRunError;
use crate::host::TapascoHostRun;
use crate::dispatch::plan_matches;
use crate::duration::RunDuration;
use crate::job::{initial, refusal, register_bitmap_len, PhysicalJob};
use crate::memconf::DRAM_REGION_SIZE;
use crate::pedesc::PEDesc;

verus! {

/// The state of a pool: the idle descriptors, the one to hand out next last,
/// and the number of descriptors that the pool was made with.
pub struct PoolState {
    pub idle: Seq<PEDesc>,
    pub total: nat,
}

impl PoolState {
    /// Number of descriptors that runs hold at the moment.
    pub open spec fn lent(self) -> int {
        self.total - self.idle.len()
    }

    /// No more descriptors are idle than the pool has, and each is
    /// well-formed.
    pub open spec fn wf(self) -> bool {
        &&& self.idle.len() <= self.total
        &&& forall|i: int| 0 <= i < self.idle.len() ==> (#[trigger] self.idle[i]).wf()
    }

    /// Takes the descriptor that was returned last; `None`, and no change,
    /// where none is idle and the caller has to wait.
    pub open spec fn acquire(self) -> (PoolState, Option<PEDesc>) {
        if self.idle.len() == 0 {
            (self, None)
        } else {
            (PoolState { idle: self.idle.drop_last(), ..self }, Some(self.idle.last()))
        }
    }

    /// Puts a descriptor back on top of the idle ones; no change where the
    /// pool has lent none.
    pub open spec fn release(self, desc: PEDesc) -> PoolState {
        if self.lent() > 0 {
            PoolState { idle: self.idle.push(desc), ..self }
        } else {
            self
        }
    }

    /// The pool after `n` descriptors have been taken.
    pub open spec fn drained(self, n: nat) -> PoolState
        decreases n,
    {
        if n == 0 {
            self
        } else {
            self.acquire().0.drained((n - 1) as nat)
        }
    }
}

/// Index of the first descriptor from `from` on whose off-chip allocation
/// does not start at a region boundary.
pub open spec fn first_misaligned(pes: Seq<PEDesc>, from: int) -> Option<int>
    decreases pes.len() - from,
{
    if from < 0 || from >= pes.len() {
        None
    } else if !pes[from].aligned() {
        Some(from)
    } else {
        first_misaligned(pes, from + 1)
    }
}

/// The error that reports a misaligned off-chip allocation: it carries the
/// address and the alignment that was asked of it, the size of a region.
pub open spec fn misaligned_error(desc: PEDesc) -> TapascoRunError {
    TapascoRunError::DRAMAllocationMisaligned {
        addr: desc.dram_allocation.unwrap(),
        alignment_num: DRAM_REGION_SIZE as u64,
    }
}

/// Manages a set of elements to run fuzzing jobs on.
pub struct TapascoDispatcher {
    idle: Vec<PEDesc>,
    total: usize,
}

impl View for TapascoDispatcher {
    type V = PoolState;

    closed spec fn view(&self) -> PoolState {
        PoolState { idle: self.idle@, total: self.total as nat }
    }
}

/// How an attempt to begin a run ended.
pub enum Begin {
    /// No element is idle: the caller waits until one is returned.
    Busy,
    /// The run was refused; the element is idle again.
    Refused(TapascoRunError),
    /// The run holds an element.
    Started(PhysicalJob),
}

impl TapascoDispatcher {
    /// The pool's state is well-formed.
    pub closed spec fn wf(&self) -> bool {
        self@.wf()
    }

    /// A well-formed pool has no more idle descriptors than it was made
    /// with, and each of them is well-formed.
    pub proof fn lemma_wf(&self)
        requires
            self.wf(),
        ensures
            self@.wf(),
            self@.idle.len() <= self@.total,
            self@.lent() >= 0,
    {
    }

    /// Makes a pool of the given elements, all idle. An element whose
    /// off-chip allocation does not start at a region boundary is refused.
    pub fn new(pes: Vec<PEDesc>) -> (r: Result<Self, TapascoRunError>)
        requires
            forall|i: int| 0 <= i < pes@.len() ==> (#[trigger] pes@[i]).wf(),
        ensures
            r matches Ok(pool) ==> {
                &&& first_misaligned(pes@, 0) is None
                &&& pool.wf()
                &&& pool@.idle == pes@
                &&& pool@.total == pes@.len()
            },
            r matches Err(e) ==> first_misaligned(pes@, 0) matches Some(i) && e
                == misaligned_error(pes@[i]),
    {
        let mut i: usize = 0;
        while i < pes.len()
            invariant
                i <= pes.len(),
                first_misaligned(pes@, 0) == first_misaligned(pes@, i as int),
                forall|k: int| 0 <= k < pes@.len() ==> (#[trigger] pes@[k]).wf(),
            decreases pes.len() - i,
        {
            if !pes[i].is_aligned() {
                let addr: u64 = match pes[i].dram_allocation {
                    Some(addr) => addr,
                    None => 0,
                };
                let alignment_num: u64 = DRAM_REGION_SIZE as u64;
                return Err(TapascoRunError::DRAMAllocationMisaligned { addr, alignment_num });
            }
            i = i + 1;
        }
        let total = pes.len();
        Ok(TapascoDispatcher { idle: pes, total })
    }

    /// Takes the pool apart and hands out its idle descriptors, the one
    /// returned last at the end.
    pub fn into_idle(self) -> (r: Vec<PEDesc>)
        ensures
            r@ == self@.idle,
    {
        self.idle
    }

    /// Number of idle elements.
    pub fn idle_count(&self) -> (r: usize)
        ensures
            r == self@.idle.len(),
    {
        self.idle.len()
    }

    /// Number of elements that runs hold.
    pub fn lent_count(&self) -> (r: usize)
        requires
            self.wf(),
        ensures
            r == self@.lent(),
    {
        self.total - self.idle.len()
    }

    /// Takes an idle element out of the pool: the one returned last. `None`
    /// where no element is idle.
    pub fn acquire(&mut self) -> (r: Option<PEDesc>)
        requires
            old(self).wf(),
        ensures
            final(self).wf(),
            (final(self)@, r) == old(self)@.acquire(),
            r matches Some(desc) ==> desc.wf(),
    {
        let r = self.idle.pop();
        assert(self.idle@ =~= old(self).idle@.drop_last() || r is None);
        r
    }

    /// Returns an element to the pool. A descriptor is handed back where the
    /// pool has lent none.
    pub fn release(&mut self, desc: PEDesc) -> (r: Result<(), PEDesc>)
        requires
            old(self).wf(),
            desc.wf(),
        ensures
            final(self).wf(),
            final(self)@ == old(self)@.release(desc),
            r is Ok <==> old(self)@.lent() > 0,
            r matches Err(d) ==> d == desc,
    {
        if self.idle.len() < self.total {
            self.idle.push(desc);
            Ok(())
        } else {
            Err(desc)
        }
    }
    /// Begins a run on the element that was returned last. With no idle
    /// element nothing changes and the caller has to wait; a run that is
    /// refused leaves its element idle.
    pub fn begin(
        &mut self,
        task_id: u32,
        instmem: &[u8],
        datamem: &[u8],
        ignore_addresses_min: u32,
        timeout_cycles: u64,
        input: &[u8],
        bitmap_len: usize,
    ) -> (r: Begin)
        requires
            old(self).wf(),
        ensures
            final(self).wf(),
            r is Busy <==> old(self)@.idle.len() == 0,
            r is Busy ==> final(self)@ == old(self)@,
            r matches Begin::Refused(e) ==> final(self)@ == old(self)@ && refusal(
                old(self)@.idle.last(),
                instmem@,
                datamem@,
                input@,
                bitmap_len,
            ) == Some(e),
            r matches Begin::Started(job) ==> {
                &&& refusal(old(self)@.idle.last(), instmem@, datamem@, input@, bitmap_len)
                    is None
                &&& final(self)@ == old(self)@.acquire().0
                &&& final(self)@.lent() > 0
                &&& job.wf()
                &&& job@ == initial(old(self)@.idle.last(), job@.plan, bitmap_len)
                &&& plan_matches(
                    job@.plan,
                    old(self)@.idle.last(),
                    task_id,
                    instmem@,
                    datamem@,
                    input@,
                    ignore_addresses_min,
                    register_bitmap_len(bitmap_len),
                    timeout_cycles,
                )
            },
    {
        let desc = match self.acquire() {
            Some(desc) => desc,
            None => {
                return Begin::Busy;
            },
        };
        match PhysicalJob::prepare(
            desc,
            task_id,
            instmem,
            datamem,
            ignore_addresses_min,
            timeout_cycles,
            input,
            bitmap_len,
        ) {
            Ok(job) => Begin::Started(job),
            Err(refused) => {
                let (desc, e) = refused;
                self.idle.push(desc);
                assert(self.idle@ =~= old(self).idle@);
                Begin::Refused(e)
            },
        }
    }

    /// Ends a finished run: its element is idle again, on top of the others,
    /// and its result is handed out. A run that is not finished is handed
    /// back and keeps its element.
    pub fn complete(&mut self, job: PhysicalJob) -> (r: Result<
        Result<TapascoHostRun, TapascoRunError>,
        PhysicalJob,
    >)
        requires
            old(self).wf(),
            old(self)@.lent() > 0,
            job.wf(),
        ensures
            final(self).wf(),
            r is Ok <==> job@.stage is Finished,
            r matches Err(unfinished) ==> unfinished == job && final(self)@ == old(self)@,
            r matches Ok(result) ==> final(self)@ == old(self)@.release(job@.desc) && match result {
                Ok(run) => {
                    &&& job@.failure is None
                    &&& run.status == job@.status
                    &&& job@.coverage == Some(run.bitmap@)
                    &&& run.bitmap@.len() == job@.bitmap_len
                    &&& run.duration == Some(RunDuration::of_cycles(job@.counter))
                },
                Err(e) => job@.failure == Some(e),
            },
    {
        proof {
            job.lemma_desc_wf();
        }
        match job.finish() {
            Err(unfinished) => Err(unfinished),
            Ok(done) => {
                let (desc, result) = done;
                self.idle.push(desc);
                Ok(result)
            },
        }
    }
}

/// Taking `n` descriptors out of a pool with at least `n` idle ones leaves
/// the others idle and lends `n` more.
pub proof fn lemma_drained(s: PoolState, n: nat)
    requires
        s.wf(),
        n <= s.idle.len(),
    ensures
        s.drained(n).wf(),
        s.drained(n).total == s.total,
        s.drained(n).idle == s.idle.take(s.idle.len() - n),
        s.drained(n).lent() == s.lent() + n,
    decreases n,
{
    if n > 0 {
        let t = s.acquire().0;
        lemma_drained(t, (n - 1) as nat);
        assert(t.idle.take(t.idle.len() - (n - 1)) == s.idle.take(s.idle.len() - n));
    } else {
        assert(s.idle.take(s.idle.len() as int) == s.idle);
    }
}

/// Once as many runs as a pool has elements hold one each, the next request
/// finds none and has to wait.
pub proof fn lemma_full_pool_blocks(s: PoolState)
    requires
        s.wf(),
    ensures
        s.drained(s.idle.len()).idle.len() == 0,
        s.drained(s.idle.len()).acquire().1 is None,
        s.drained(s.idle.len()).acquire().0 == s.drained(s.idle.len()),
{
    lemma_drained(s, s.idle.len());
}

/// The descriptor returned last is the one handed out next, and taking it
/// leaves the pool as it was before the return.
pub proof fn lemma_returned_last_is_next(s: PoolState, desc: PEDesc)
    requires
        s.wf(),
        s.lent() > 0,
    ensures
        s.release(desc).acquire().1 == Some(desc),
        s.release(desc).acquire().0 == s,
        s.release(desc).lent() == s.lent() - 1,
{
    assert(s.idle.push(desc).drop_last() == s.idle);
}

/// Taking and returning descriptors never changes how many the pool has:
/// the idle and the lent ones together stay what the pool was made with.
pub proof fn lemma_pool_keeps_its_elements(s: PoolState, desc: PEDesc)
    requires
        s.wf(),
    ensures
        s.acquire().0.total == s.total,
        s.release(desc).total == s.total,
        s.acquire().0.idle.len() + s.acquire().0.lent() == s.total,
        s.release(desc).idle.len() + s.release(desc).lent() == s.total,
        s.acquire().1 is Some ==> s.acquire().0.lent() == s.lent() + 1,
{
}

} // verus!
