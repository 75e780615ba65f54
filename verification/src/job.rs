//! One run on a physical element, as a machine that names the next device
//! operation and takes its result: upload, register programming, start,
//! completion, read-back and the release of what the run reserved.

use vstd::prelude::*;
use crate::dispatch::{
    bitmap_region,
    dispatch_error,
    memory_path,
    plan_dispatch,
    plan_matches,
    ArgValue,
    DispatchPlan,
    MemoryPath,
    Upload,
};
use crate::duration::RunDuration;
use crate::error::{BitmapLenError, DeviceFailure, Subsystem, TapascoRunError, wrapped};
use crate::host::TapascoHostRun;
use crate::memconf::PE_INVFLAG_DCACHE;
use crate::pedesc::PEDesc;
use crate::status::{bitmap_size_refused, crashed, reserved_bits_set};

verus! {

/// The three memory images of a plan.
#[derive(Clone, Copy, Debug, PartialEq, Eq, Structural)]
pub enum Part {
    Image,
    Data,
    Input,
}

/// An operation for the device access layer to perform.
#[derive(Clone, Copy, Debug, PartialEq, Eq, Structural)]
pub enum DeviceAction {
    /// Reserve `size` bytes of local memory at `addr`.
    AllocateFixed { size: u64, addr: u64 },
    /// Read a 32-bit argument register.
    ReadArg32 { index: usize },
    /// Read a 64-bit argument register.
    ReadArg64 { index: usize },
    /// Write an argument register.
    SetArg { index: usize, value: ArgValue },
    /// Copy one of the plan's images to the device.
    CopyTo { path: MemoryPath, part: Part },
    /// Make all register writes visible to the device.
    Fence,
    /// Start the element.
    Start,
    /// Wait until the element has finished.
    WaitForCompletion,
    /// Read the element's return value.
    ReturnValue,
    /// Copy `len` bytes from the device.
    CopyFrom { path: MemoryPath, addr: u64, len: usize },
    /// Give back the local memory reserved at `addr`.
    Free { addr: u64 },
}

/// What the device access layer reports of the operation it performed.
#[derive(Clone, Debug, PartialEq, Eq)]
pub enum DeviceEvent {
    /// Nothing has been performed yet.
    Begin,
    /// The operation succeeded and has no result.
    Done,
    Value32(u32),
    Value64(u64),
    /// The address of the memory reserved.
    Address(u64),
    /// The bytes copied from the device.
    Data(Vec<u8>),
    Failed(DeviceFailure),
}

/// Why a run cannot go on and the process has to stop.
#[derive(Clone, Debug, PartialEq, Eq)]
pub enum FatalError {
    /// Reserved memory could not be given back.
    FreeFailed(DeviceFailure),
    /// The event does not answer the operation that was asked for.
    UnexpectedEvent,
}

/// What to do next.
#[derive(Clone, Debug, PartialEq, Eq)]
pub enum Step {
    Perform(DeviceAction),
    /// The run is over and its result can be collected.
    Finished,
    Fatal(FatalError),
}

/// Where a run stands: the operation whose result is awaited.
#[derive(Clone, Copy, Debug, PartialEq, Eq, Structural)]
pub enum Stage {
    Created,
    AllocateBitmap,
    ReadFlags { after_run: bool },
    WriteFlags { after_run: bool },
    Upload(Part),
    Program(usize),
    Fence,
    Start,
    Await,
    ReadStatus,
    ReadCounter,
    ReadBitmap,
    ReadFault,
    Release,
    Finished,
    Aborted,
}

/// The state of a run.
pub struct JobState {
    pub stage: Stage,
    pub desc: PEDesc,
    pub plan: DispatchPlan,
    /// Length of the coverage bitmap asked for.
    pub bitmap_len: usize,
    /// Address of the bitmap region reserved for this run.
    pub devbitmap: Option<u64>,
    /// Value to write to the invalidation flag register.
    pub flags: u32,
    pub status: u32,
    pub counter: u64,
    /// The bitmap, once it has been read back.
    pub coverage: Option<Seq<u8>>,
    /// The error with which the run ends.
    pub failure: Option<TapascoRunError>,
}

/// Index of the register that holds the invalidation flags.
pub const INVALIDATE_FLAGS_ARG: usize = 9;

/// Index of the register that holds the fault information after a crash.
pub const FAULT_ARG: usize = 4;

/// Index of the cycle counter register.
pub open spec fn counter_arg(desc: PEDesc) -> usize {
    if desc.is_regular_tapascoriscv {
        5
    } else {
        7
    }
}

/// A bitmap of `len` zero bytes.
pub open spec fn zeros(len: int) -> Seq<u8> {
    Seq::new(len as nat, |i: int| 0u8)
}

/// The operation that a stage waits for.
pub open spec fn action_of(s: JobState) -> DeviceAction {
    match s.stage {
        Stage::AllocateBitmap => {
            let region = s.plan.bitmap_region.unwrap();
            DeviceAction::AllocateFixed { size: region.0, addr: region.1 }
        },
        Stage::ReadFlags { after_run } => DeviceAction::ReadArg32 { index: INVALIDATE_FLAGS_ARG },
        Stage::WriteFlags { after_run } => DeviceAction::SetArg {
            index: INVALIDATE_FLAGS_ARG,
            value: ArgValue::Single32(s.flags),
        },
        Stage::Upload(part) => DeviceAction::CopyTo { path: s.plan.path, part },
        Stage::Program(i) => DeviceAction::SetArg {
            index: s.plan.registers@[i as int].index,
            value: s.plan.registers@[i as int].value,
        },
        Stage::Fence => DeviceAction::Fence,
        Stage::Start => DeviceAction::Start,
        Stage::Await => DeviceAction::WaitForCompletion,
        Stage::ReadStatus => DeviceAction::ReturnValue,
        Stage::ReadCounter => DeviceAction::ReadArg64 { index: counter_arg(s.desc) },
        Stage::ReadBitmap => if s.desc.memconf.bitmap_via_dram_dma {
            DeviceAction::CopyFrom {
                path: MemoryPath::OffChip,
                addr: (s.desc.base() + s.desc.memconf.bitmap_bram_addr) as u64,
                len: s.bitmap_len,
            }
        } else {
            DeviceAction::CopyFrom {
                path: MemoryPath::Local,
                addr: s.devbitmap.unwrap(),
                len: s.bitmap_len,
            }
        },
        Stage::ReadFault => DeviceAction::ReadArg64 { index: FAULT_ARG },
        Stage::Release => DeviceAction::Free { addr: s.devbitmap.unwrap() },
        _ => DeviceAction::Fence,
    }
}

/// Moves to `stage` and asks for its operation.
pub open spec fn go(s: JobState, stage: Stage) -> (JobState, Step) {
    let t = JobState { stage, ..s };
    (t, Step::Perform(action_of(t)))
}

/// Ends the run: what it reserved is given back first.
pub open spec fn wind_up(s: JobState) -> (JobState, Step) {
    if s.devbitmap is Some {
        go(s, Stage::Release)
    } else {
        (JobState { stage: Stage::Finished, ..s }, Step::Finished)
    }
}

/// Ends the run with an error.
pub open spec fn fail(s: JobState, e: TapascoRunError) -> (JobState, Step) {
    wind_up(JobState { failure: Some(e), ..s })
}

/// Stops the run for good.
pub open spec fn abort(s: JobState, cause: FatalError) -> (JobState, Step) {
    (JobState { stage: Stage::Aborted, ..s }, Step::Fatal(cause))
}

/// The first stage of a run.
pub open spec fn first_stage(s: JobState) -> Stage {
    if s.plan.bitmap_region is Some {
        Stage::AllocateBitmap
    } else {
        flags_stage(s)
    }
}

/// The stage that follows the reservation of the bitmap region.
pub open spec fn flags_stage(s: JobState) -> Stage {
    if s.plan.invalidate is Some {
        Stage::ReadFlags { after_run: false }
    } else {
        upload_stage(s)
    }
}

/// The first upload: the instruction image where the plan holds one.
pub open spec fn upload_stage(s: JobState) -> Stage {
    if s.plan.image is Some {
        Stage::Upload(Part::Image)
    } else {
        Stage::Upload(Part::Data)
    }
}

/// The stage that writes register number `i` of the plan, or the fence
/// behind the last one.
pub open spec fn program_stage(s: JobState, i: int) -> Stage {
    if i < s.plan.registers@.len() {
        Stage::Program(i as usize)
    } else {
        Stage::Fence
    }
}

/// The stage that follows the completion of the element.
pub open spec fn completed_stage(s: JobState) -> Stage {
    if s.desc.memconf.invalidate_caches {
        Stage::ReadFlags { after_run: true }
    } else {
        Stage::ReadStatus
    }
}

/// The invalidation flags asked for at a stage: those of the plan before the
/// run, the data cache after it.
pub open spec fn requested_flags(s: JobState, after_run: bool) -> u32 {
    match s.plan.invalidate {
        Some(flags) => if after_run {
            PE_INVFLAG_DCACHE
        } else {
            flags
        },
        None => PE_INVFLAG_DCACHE,
    }
}

/// Judges the status word once the bitmap is there: a refused bitmap size
/// and reserved bits end the run with an error, a crash leads to the fault
/// registers.
pub open spec fn judge(s: JobState) -> (JobState, Step) {
    if bitmap_size_refused(s.status) {
        fail(s, TapascoRunError::BitmapLen { reason: BitmapLenError::Rejected })
    } else if reserved_bits_set(s.status) {
        fail(s, TapascoRunError::UnexpectedStatus { status: s.status })
    } else if crashed(s.status) {
        go(s, Stage::ReadFault)
    } else {
        wind_up(s)
    }
}

/// The subsystem that a failure at a stage comes from; `None` where the
/// stage's operation cannot fail.
pub open spec fn failing_subsystem(stage: Stage) -> Option<Subsystem> {
    match stage {
        Stage::AllocateBitmap => Some(Subsystem::Allocator),
        Stage::Upload(_) | Stage::ReadBitmap => Some(Subsystem::Dma),
        Stage::ReadFlags { .. }
        | Stage::WriteFlags { .. }
        | Stage::Program(_)
        | Stage::Start
        | Stage::Await
        | Stage::ReadCounter
        | Stage::ReadFault => Some(Subsystem::Pe),
        _ => None,
    }
}

/// The state after an event, and what to do next.
pub open spec fn next(s: JobState, event: DeviceEvent) -> (JobState, Step) {
    match (s.stage, event) {
        (Stage::Created, DeviceEvent::Begin) => go(s, first_stage(s)),
        (Stage::AllocateBitmap, DeviceEvent::Address(addr)) => {
            let t = JobState { devbitmap: Some(addr), ..s };
            go(t, flags_stage(t))
        },
        (Stage::ReadFlags { after_run }, DeviceEvent::Value32(prev)) => go(
            JobState { flags: requested_flags(s, after_run) | prev, ..s },
            Stage::WriteFlags { after_run },
        ),
        (Stage::WriteFlags { after_run }, DeviceEvent::Done) => if after_run {
            go(s, Stage::ReadStatus)
        } else {
            go(s, upload_stage(s))
        },
        (Stage::Upload(Part::Image), DeviceEvent::Done) => go(
            JobState { desc: PEDesc { instmem_initialized: true, ..s.desc }, ..s },
            Stage::Upload(Part::Data),
        ),
        (Stage::Upload(Part::Data), DeviceEvent::Done) => go(s, Stage::Upload(Part::Input)),
        (Stage::Upload(Part::Input), DeviceEvent::Done) => go(s, program_stage(s, 0)),
        (Stage::Program(i), DeviceEvent::Done) => go(s, program_stage(s, i + 1)),
        (Stage::Program(i), DeviceEvent::Failed(failure)) => if s.plan.registers@[i as int].required {
            fail(s, wrapped(Subsystem::Pe, failure))
        } else {
            go(s, program_stage(s, i + 1))
        },
        (Stage::Fence, DeviceEvent::Done) => go(s, Stage::Start),
        (Stage::Start, DeviceEvent::Done) => go(s, Stage::Await),
        (Stage::Await, DeviceEvent::Done) => go(s, completed_stage(s)),
        (Stage::ReadStatus, DeviceEvent::Value64(value)) => go(
            JobState { status: (value % 0x1_0000_0000) as u32, ..s },
            Stage::ReadCounter,
        ),
        (Stage::ReadCounter, DeviceEvent::Value64(counter)) => if s.desc.is_regular_tapascoriscv {
            judge(JobState { counter, coverage: Some(zeros(s.bitmap_len as int)), ..s })
        } else {
            go(JobState { counter, ..s }, Stage::ReadBitmap)
        },
        (Stage::ReadBitmap, DeviceEvent::Data(bytes)) => if bytes@.len() == s.bitmap_len {
            judge(JobState { coverage: Some(bytes@), ..s })
        } else {
            fail(s, TapascoRunError::BitmapLen { reason: BitmapLenError::Changed })
        },
        (Stage::ReadFault, DeviceEvent::Value64(_)) => wind_up(s),
        (Stage::Release, DeviceEvent::Done) => (
            JobState { stage: Stage::Finished, devbitmap: None, ..s },
            Step::Finished,
        ),
        (Stage::Release, DeviceEvent::Failed(failure)) => abort(s, FatalError::FreeFailed(failure)),
        (stage, DeviceEvent::Failed(failure)) => match failing_subsystem(stage) {
            Some(subsystem) => fail(s, wrapped(subsystem, failure)),
            None => abort(s, FatalError::UnexpectedEvent),
        },
        _ => abort(s, FatalError::UnexpectedEvent),
    }
}

/// The bitmap has been read back in full.
pub open spec fn covered(s: JobState) -> bool {
    s.coverage matches Some(bytes) && bytes.len() == s.bitmap_len
}

/// What holds of every state that a run passes through: the plan fits the
/// element, the bitmap region is held from its reservation to its release
/// and at no other time, and a run that ends without an error has its
/// bitmap, all zero on the baseline element.
pub open spec fn inv(s: JobState) -> bool {
    &&& s.desc.wf()
    &&& s.plan.path == memory_path(s.desc)
    &&& s.plan.bitmap_region == bitmap_region(s.desc)
    &&& s.plan.invalidate is Some <==> s.desc.memconf.invalidate_caches
    &&& s.stage matches Stage::Program(i) ==> i < s.plan.registers@.len()
    &&& s.stage is Created || s.stage is AllocateBitmap || s.stage is Finished ==> s.devbitmap
        is None
    &&& s.plan.bitmap_region is None ==> s.devbitmap is None && !(s.stage is AllocateBitmap)
    &&& s.plan.bitmap_region is Some && holds_region(s.stage) ==> s.devbitmap is Some
    &&& s.stage is ReadBitmap ==> !s.desc.is_regular_tapascoriscv
    &&& s.failure is Some ==> s.stage is Release || s.stage is Finished || s.stage is Aborted
    &&& (s.stage is ReadFault || s.stage is Release || s.stage is Finished) && s.failure is None
        ==> covered(s)
    &&& s.desc.is_regular_tapascoriscv ==> s.coverage is None || s.coverage == Some(
        zeros(s.bitmap_len as int),
    )
}

/// The stages in which a run holds the bitmap region that its plan names.
pub open spec fn holds_region(stage: Stage) -> bool {
    !(stage is Created || stage is AllocateBitmap || stage is Finished || stage is Aborted)
}

/// The state in which a run begins.
pub open spec fn initial(desc: PEDesc, plan: DispatchPlan, bitmap_len: usize) -> JobState {
    JobState {
        stage: Stage::Created,
        desc,
        plan,
        bitmap_len,
        devbitmap: None,
        flags: 0,
        status: 0,
        counter: 0,
        coverage: None,
        failure: None,
    }
}

/// The error, if any, with which a bitmap length is refused: a length
/// outside 4 to the bitmap capacity, unless the element has no bitmap.
pub open spec fn bitmap_len_error(desc: PEDesc, bitmap_len: usize) -> Option<TapascoRunError> {
    if !desc.memconf.bitmap_disabled() && (bitmap_len < 4 || bitmap_len
        > desc.memconf.bitmap_bram_size) {
        Some(
            TapascoRunError::BitmapLen {
                reason: BitmapLenError::OutOfRange {
                    len: bitmap_len,
                    max: desc.memconf.bitmap_bram_size as usize,
                },
            },
        )
    } else {
        None
    }
}

/// The error, if any, with which a run is refused before it begins.
pub open spec fn refusal(
    desc: PEDesc,
    instmem: Seq<u8>,
    datamem: Seq<u8>,
    input: Seq<u8>,
    bitmap_len: usize,
) -> Option<TapascoRunError> {
    match bitmap_len_error(desc, bitmap_len) {
        Some(e) => Some(e),
        None => dispatch_error(desc, instmem, datamem, input),
    }
}

/// Every step keeps what holds of a run's states.
pub proof fn lemma_next_keeps_inv(s: JobState, event: DeviceEvent)
    requires
        inv(s),
    ensures
        inv(next(s, event).0),
{
    assert(s.plan.registers.len() == s.plan.registers@.len());
}

/// A run is never reported as finished while it holds a bitmap region, and
/// whenever it ends, with or without an error, the region it holds is given
/// back first.
pub proof fn lemma_release_before_finish(s: JobState, event: DeviceEvent)
    requires
        inv(s),
    ensures
        next(s, event).1 is Finished ==> next(s, event).0.devbitmap is None,
        next(s, event).1 is Finished && s.devbitmap is Some ==> s.stage is Release,
        next(s, event).0.failure is Some && s.failure is None && s.devbitmap is Some ==> next(
            s,
            event,
        ).1 == Step::Perform(DeviceAction::Free { addr: s.devbitmap.unwrap() }),
{
}

/// A run that ends without an error has its whole bitmap: the bytes read
/// from the device, or zero bytes on the baseline element.
pub proof fn lemma_finished_run_is_covered(s: JobState, event: DeviceEvent)
    requires
        inv(s),
    ensures
        ({
            let t = next(s, event).0;
            t.stage is Finished && t.failure is None ==> covered(t) && (
            t.desc.is_regular_tapascoriscv ==> t.coverage == Some(zeros(t.bitmap_len as int)))
        }),
        s.stage is ReadBitmap ==> (event matches DeviceEvent::Data(bytes) ==> (bytes@.len()
            == s.bitmap_len ==> next(s, event).0.coverage == Some(bytes@))),
{
}

/// An error, once met, stays the result of the run.
pub proof fn lemma_failure_is_kept(s: JobState, event: DeviceEvent)
    requires
        inv(s),
        s.failure is Some,
    ensures
        next(s, event).0.failure == s.failure,
{
}

/// The bitmap length as it is written to the element's 32-bit register.
pub open spec fn register_bitmap_len(bitmap_len: usize) -> u32 {
    (bitmap_len as int % 0x1_0000_0000) as u32
}

/// Whether the operation of the state's stage can be named.
pub open spec fn actionable(s: JobState) -> bool {
    match s.stage {
        Stage::AllocateBitmap => s.plan.bitmap_region is Some,
        Stage::Program(i) => i < s.plan.registers@.len(),
        Stage::ReadBitmap => s.desc.wf() && (!s.desc.memconf.bitmap_via_dram_dma ==> s.devbitmap
            is Some),
        Stage::Release => s.devbitmap is Some,
        _ => true,
    }
}

/// A vector of `len` zero bytes.
pub fn zero_bytes(len: usize) -> (r: Vec<u8>)
    ensures
        r@ == zeros(len as int),
{
    let mut out: Vec<u8> = Vec::with_capacity(len);
    let mut i: usize = 0;
    while i < len
        invariant
            i <= len,
            out@ == zeros(i as int),
        decreases len - i,
    {
        out.push(0u8);
        i = i + 1;
        assert(out@ =~= zeros(i as int));
    }
    out
}

/// One run on a physical element. It owns the element's descriptor from its
/// preparation to the collection of its result.
pub struct PhysicalJob {
    stage: Stage,
    desc: PEDesc,
    plan: DispatchPlan,
    bitmap_len: usize,
    devbitmap: Option<u64>,
    flags: u32,
    status: u32,
    counter: u64,
    coverage: Option<Vec<u8>>,
    failure: Option<TapascoRunError>,
}

impl View for PhysicalJob {
    type V = JobState;

    closed spec fn view(&self) -> JobState {
        JobState {
            stage: self.stage,
            desc: self.desc,
            plan: self.plan,
            bitmap_len: self.bitmap_len,
            devbitmap: self.devbitmap,
            flags: self.flags,
            status: self.status,
            counter: self.counter,
            coverage: match self.coverage {
                Some(bytes) => Some(bytes@),
                None => None,
            },
            failure: self.failure,
        }
    }
}

impl PhysicalJob {
    /// The run's state is one that a run can be in.
    pub closed spec fn wf(&self) -> bool {
        inv(self@)
    }

    /// Checks a run against the element and prepares it. A run that is
    /// refused gives the descriptor back with the error.
    pub fn prepare(
        desc: PEDesc,
        task_id: u32,
        instmem: &[u8],
        datamem: &[u8],
        ignore_addresses_min: u32,
        timeout_cycles: u64,
        input: &[u8],
        bitmap_len: usize,
    ) -> (r: Result<PhysicalJob, (PEDesc, TapascoRunError)>)
        requires
            desc.wf(),
        ensures
            r matches Ok(job) ==> {
                &&& refusal(desc, instmem@, datamem@, input@, bitmap_len) is None
                &&& job.wf()
                &&& job@ == initial(desc, job@.plan, bitmap_len)
                &&& plan_matches(
                    job@.plan,
                    desc,
                    task_id,
                    instmem@,
                    datamem@,
                    input@,
                    ignore_addresses_min,
                    register_bitmap_len(bitmap_len),
                    timeout_cycles,
                )
            },
            r matches Err(refused) ==> refused.0 == desc && refusal(
                desc,
                instmem@,
                datamem@,
                input@,
                bitmap_len,
            ) == Some(refused.1),
    {
        let capacity: u32 = desc.memconf.bitmap_bram_size;
        if capacity != 0 && (bitmap_len < 4 || bitmap_len > capacity as usize) {
            let reason = BitmapLenError::OutOfRange { len: bitmap_len, max: capacity as usize };
            return Err((desc, TapascoRunError::BitmapLen { reason }));
        }
        let register_len: u32 = (bitmap_len as u64 % 0x1_0000_0000) as u32;
        let planned = plan_dispatch(
            &desc,
            task_id,
            instmem,
            datamem,
            input,
            ignore_addresses_min,
            register_len,
            timeout_cycles,
        );
        match planned {
            Err(e) => Err((desc, e)),
            Ok(plan) => Ok(
                PhysicalJob {
                    stage: Stage::Created,
                    desc,
                    plan,
                    bitmap_len,
                    devbitmap: None,
                    flags: 0,
                    status: 0,
                    counter: 0,
                    coverage: None,
                    failure: None,
                },
            ),
        }
    }

    /// The descriptor that a run holds is well-formed.
    pub proof fn lemma_desc_wf(&self)
        requires
            self.wf(),
        ensures
            self@.desc.wf(),
    {
    }

    /// The descriptor of the element that the run uses.
    pub fn desc(&self) -> (r: &PEDesc)
        ensures
            *r == self@.desc,
    {
        &self.desc
    }

    /// Whether the run is over and its result can be collected.
    pub fn is_finished(&self) -> (r: bool)
        ensures
            r == (self@.stage is Finished),
    {
        match self.stage {
            Stage::Finished => true,
            _ => false,
        }
    }

    /// The image that a `CopyTo` operation names; none for the instruction
    /// image once it has been uploaded.
    pub fn payload(&self, part: Part) -> (r: Option<&Upload>)
        ensures
            part is Image ==> (r matches Some(upload) ==> self@.plan.image == Some(*upload)) && (
            r is None ==> self@.plan.image is None),
            part is Data ==> r == Some(&self@.plan.data),
            part is Input ==> r == Some(&self@.plan.input),
    {
        match part {
            Part::Image => self.plan.image.as_ref(),
            Part::Data => Some(&self.plan.data),
            Part::Input => Some(&self.plan.input),
        }
    }

    fn enter(&mut self, stage: Stage) -> (r: Step)
        requires
            actionable(JobState { stage, ..old(self)@ }),
        ensures
            (final(self)@, r) == go(old(self)@, stage),
    {
        self.stage = stage;
        let action = match stage {
            Stage::AllocateBitmap => match self.plan.bitmap_region {
                Some(region) => DeviceAction::AllocateFixed { size: region.0, addr: region.1 },
                None => DeviceAction::Fence,
            },
            Stage::ReadFlags { after_run } => DeviceAction::ReadArg32 {
                index: INVALIDATE_FLAGS_ARG,
            },
            Stage::WriteFlags { after_run } => DeviceAction::SetArg {
                index: INVALIDATE_FLAGS_ARG,
                value: ArgValue::Single32(self.flags),
            },
            Stage::Upload(part) => DeviceAction::CopyTo { path: self.plan.path, part },
            Stage::Program(i) => DeviceAction::SetArg {
                index: self.plan.registers[i].index,
                value: self.plan.registers[i].value,
            },
            Stage::Fence => DeviceAction::Fence,
            Stage::Start => DeviceAction::Start,
            Stage::Await => DeviceAction::WaitForCompletion,
            Stage::ReadStatus => DeviceAction::ReturnValue,
            Stage::ReadCounter => DeviceAction::ReadArg64 {
                index: if self.desc.is_regular_tapascoriscv {
                    5
                } else {
                    7
                },
            },
            Stage::ReadBitmap => if self.desc.memconf.bitmap_via_dram_dma {
                let base: u64 = match self.desc.dram_allocation {
                    Some(addr) => addr,
                    None => 0,
                };
                DeviceAction::CopyFrom {
                    path: MemoryPath::OffChip,
                    addr: base + self.desc.memconf.bitmap_bram_addr as u64,
                    len: self.bitmap_len,
                }
            } else {
                match self.devbitmap {
                    Some(addr) => DeviceAction::CopyFrom {
                        path: MemoryPath::Local,
                        addr,
                        len: self.bitmap_len,
                    },
                    None => DeviceAction::Fence,
                }
            },
            Stage::ReadFault => DeviceAction::ReadArg64 { index: FAULT_ARG },
            Stage::Release => match self.devbitmap {
                Some(addr) => DeviceAction::Free { addr },
                None => DeviceAction::Fence,
            },
            _ => DeviceAction::Fence,
        };
        Step::Perform(action)
    }

    fn conclude(&mut self) -> (r: Step)
        ensures
            (final(self)@, r) == wind_up(old(self)@),
    {
        if self.devbitmap.is_some() {
            self.enter(Stage::Release)
        } else {
            self.stage = Stage::Finished;
            Step::Finished
        }
    }

    fn fail_with(&mut self, e: TapascoRunError) -> (r: Step)
        ensures
            (final(self)@, r) == fail(old(self)@, e),
    {
        self.failure = Some(e);
        self.conclude()
    }

    fn abort_with(&mut self, cause: FatalError) -> (r: Step)
        ensures
            (final(self)@, r) == abort(old(self)@, cause),
    {
        self.stage = Stage::Aborted;
        Step::Fatal(cause)
    }

    fn judge_status(&mut self) -> (r: Step)
        ensures
            (final(self)@, r) == judge(old(self)@),
    {
        if crate::status::has_refused_bitmap_size(self.status) {
            self.fail_with(TapascoRunError::BitmapLen { reason: BitmapLenError::Rejected })
        } else if crate::status::has_reserved_bits(self.status) {
            let status = self.status;
            self.fail_with(TapascoRunError::UnexpectedStatus { status })
        } else if crate::status::has_crashed(self.status) {
            self.enter(Stage::ReadFault)
        } else {
            self.conclude()
        }
    }

    fn stage_of_program(&self, i: usize) -> (r: Stage)
        ensures
            r == program_stage(self@, i as int),
    {
        if i < self.plan.registers.len() {
            Stage::Program(i)
        } else {
            Stage::Fence
        }
    }

    fn stage_after_program(&self, i: usize) -> (r: Stage)
        requires
            i < self@.plan.registers@.len(),
        ensures
            r == program_stage(self@, i + 1),
    {
        let count: usize = self.plan.registers.len();
        if i + 1 < count {
            Stage::Program(i + 1)
        } else {
            Stage::Fence
        }
    }

    fn stage_of_upload(&self) -> (r: Stage)
        ensures
            r == upload_stage(self@),
    {
        if self.plan.image.is_some() {
            Stage::Upload(Part::Image)
        } else {
            Stage::Upload(Part::Data)
        }
    }

    fn stage_of_flags(&self) -> (r: Stage)
        ensures
            r == flags_stage(self@),
    {
        if self.plan.invalidate.is_some() {
            Stage::ReadFlags { after_run: false }
        } else {
            self.stage_of_upload()
        }
    }

    fn on_failure(&mut self, failure: DeviceFailure) -> (r: Step)
        requires
            old(self).wf(),
        ensures
            (final(self)@, r) == next(old(self)@, DeviceEvent::Failed(failure)),
    {
        match self.stage {
            Stage::Release => self.abort_with(FatalError::FreeFailed(failure)),
            Stage::Program(i) => {
                if self.plan.registers[i].required {
                    self.fail_with(TapascoRunError::from_device(Subsystem::Pe, failure))
                } else {
                    let stage = self.stage_after_program(i);
                    self.enter(stage)
                }
            },
            Stage::AllocateBitmap => self.fail_with(
                TapascoRunError::from_device(Subsystem::Allocator, failure),
            ),
            Stage::Upload(_) | Stage::ReadBitmap => self.fail_with(
                TapascoRunError::from_device(Subsystem::Dma, failure),
            ),
            Stage::ReadFlags { .. }
            | Stage::WriteFlags { .. }
            | Stage::Start
            | Stage::Await
            | Stage::ReadCounter
            | Stage::ReadFault => self.fail_with(
                TapascoRunError::from_device(Subsystem::Pe, failure),
            ),
            _ => self.abort_with(FatalError::UnexpectedEvent),
        }
    }

    fn on_done(&mut self) -> (r: Step)
        requires
            old(self).wf(),
        ensures
            (final(self)@, r) == next(old(self)@, DeviceEvent::Done),
    {
        match self.stage {
            Stage::WriteFlags { after_run } => {
                if after_run {
                    self.enter(Stage::ReadStatus)
                } else {
                    let stage = self.stage_of_upload();
                    self.enter(stage)
                }
            },
            Stage::Upload(part) => match part {
                Part::Image => {
                    self.desc.instmem_initialized = true;
                    self.enter(Stage::Upload(Part::Data))
                },
                Part::Data => self.enter(Stage::Upload(Part::Input)),
                Part::Input => {
                    let stage = self.stage_of_program(0);
                    self.enter(stage)
                },
            },
            Stage::Program(i) => {
                let stage = self.stage_after_program(i);
                self.enter(stage)
            },
            Stage::Fence => self.enter(Stage::Start),
            Stage::Start => self.enter(Stage::Await),
            Stage::Await => {
                if self.desc.memconf.invalidate_caches {
                    self.enter(Stage::ReadFlags { after_run: true })
                } else {
                    self.enter(Stage::ReadStatus)
                }
            },
            Stage::Release => {
                self.devbitmap = None;
                self.stage = Stage::Finished;
                Step::Finished
            },
            _ => self.abort_with(FatalError::UnexpectedEvent),
        }
    }

    fn on_value64(&mut self, value: u64) -> (r: Step)
        requires
            old(self).wf(),
        ensures
            (final(self)@, r) == next(old(self)@, DeviceEvent::Value64(value)),
    {
        match self.stage {
            Stage::ReadStatus => {
                assert(value & 0xffff_ffff == value % 0x1_0000_0000) by (bit_vector);
                self.status = (value & 0xffff_ffff) as u32;
                self.enter(Stage::ReadCounter)
            },
            Stage::ReadCounter => {
                self.counter = value;
                if self.desc.is_regular_tapascoriscv {
                    self.coverage = Some(zero_bytes(self.bitmap_len));
                    self.judge_status()
                } else {
                    self.enter(Stage::ReadBitmap)
                }
            },
            Stage::ReadFault => self.conclude(),
            _ => self.abort_with(FatalError::UnexpectedEvent),
        }
    }

    /// Takes the result of the operation that was asked for last and names
    /// the next one. An error ends the run after what it reserved has been
    /// given back; a failure to give it back is fatal.
    pub fn step(&mut self, event: DeviceEvent) -> (r: Step)
        requires
            old(self).wf(),
        ensures
            final(self).wf(),
            (final(self)@, r) == next(old(self)@, event),
    {
        proof {
            lemma_next_keeps_inv(self@, event);
        }
        match event {
            DeviceEvent::Begin => match self.stage {
                Stage::Created => {
                    let stage = if self.plan.bitmap_region.is_some() {
                        Stage::AllocateBitmap
                    } else {
                        self.stage_of_flags()
                    };
                    self.enter(stage)
                },
                _ => self.abort_with(FatalError::UnexpectedEvent),
            },
            DeviceEvent::Done => self.on_done(),
            DeviceEvent::Value32(prev) => match self.stage {
                Stage::ReadFlags { after_run } => {
                    let requested: u32 = match self.plan.invalidate {
                        Some(flags) => if after_run {
                            PE_INVFLAG_DCACHE
                        } else {
                            flags
                        },
                        None => PE_INVFLAG_DCACHE,
                    };
                    self.flags = requested | prev;
                    self.enter(Stage::WriteFlags { after_run })
                },
                _ => self.abort_with(FatalError::UnexpectedEvent),
            },
            DeviceEvent::Value64(value) => self.on_value64(value),
            DeviceEvent::Address(addr) => match self.stage {
                Stage::AllocateBitmap => {
                    self.devbitmap = Some(addr);
                    let stage = self.stage_of_flags();
                    self.enter(stage)
                },
                _ => self.abort_with(FatalError::UnexpectedEvent),
            },
            DeviceEvent::Data(bytes) => match self.stage {
                Stage::ReadBitmap => {
                    if bytes.len() == self.bitmap_len {
                        self.coverage = Some(bytes);
                        self.judge_status()
                    } else {
                        self.fail_with(
                            TapascoRunError::BitmapLen { reason: BitmapLenError::Changed },
                        )
                    }
                },
                _ => self.abort_with(FatalError::UnexpectedEvent),
            },
            DeviceEvent::Failed(failure) => self.on_failure(failure),
        }
    }
    /// Collects the result of a finished run together with the descriptor:
    /// the status word as the element returned it, the bitmap and the
    /// execution time. A run that is not finished is handed back as it is.
    pub fn finish(self) -> (r: Result<
        (PEDesc, Result<TapascoHostRun, TapascoRunError>),
        PhysicalJob,
    >)
        requires
            self.wf(),
        ensures
            r is Ok <==> self@.stage is Finished,
            r matches Err(job) ==> job == self,
            r matches Ok(done) ==> done.0 == self@.desc && match done.1 {
                Ok(run) => {
                    &&& self@.failure is None
                    &&& run.status == self@.status
                    &&& self@.coverage == Some(run.bitmap@)
                    &&& run.bitmap@.len() == self@.bitmap_len
                    &&& run.duration == Some(RunDuration::of_cycles(self@.counter))
                },
                Err(e) => self@.failure == Some(e),
            },
    {
        if !self.is_finished() {
            return Err(self);
        }
        let status: u32 = self.status;
        let duration = Some(RunDuration::from_cycles(self.counter));
        let desc = self.desc;
        match self.failure {
            Some(e) => Ok((desc, Err(e))),
            None => match self.coverage {
                Some(bitmap) => Ok((desc, Ok(TapascoHostRun { status, bitmap, duration }))),
                None => unreached(),
            },
        }
    }
}

/// Number of steps that a run in the given stage can still take, for a plan
/// with `registers` register writes.
pub open spec fn rank(stage: Stage, registers: nat) -> nat {
    match stage {
        Stage::Created => registers + 18,
        Stage::AllocateBitmap => registers + 17,
        Stage::ReadFlags { after_run } => if after_run {
            8
        } else {
            registers + 16
        },
        Stage::WriteFlags { after_run } => if after_run {
            7
        } else {
            registers + 15
        },
        Stage::Upload(Part::Image) => registers + 14,
        Stage::Upload(Part::Data) => registers + 13,
        Stage::Upload(Part::Input) => registers + 12,
        Stage::Program(i) => (registers + 11 - i) as nat,
        Stage::Fence => 11,
        Stage::Start => 10,
        Stage::Await => 9,
        Stage::ReadStatus => 6,
        Stage::ReadCounter => 5,
        Stage::ReadBitmap => 4,
        Stage::ReadFault => 3,
        Stage::Release => 2,
        Stage::Finished => 1,
        Stage::Aborted => 0,
    }
}

/// Every step brings a run closer to its end: a run is over after at most
/// as many steps as its first stage's rank says.
pub proof fn lemma_run_ends(s: JobState, event: DeviceEvent)
    requires
        inv(s),
        !(s.stage is Finished),
        !(s.stage is Aborted),
    ensures
        rank(next(s, event).0.stage, s.plan.registers@.len()) < rank(
            s.stage,
            s.plan.registers@.len(),
        ),
        next(s, event).0.plan == s.plan,
{
    assert(s.plan.registers.len() == s.plan.registers@.len());
}

/// The state of a run after a sequence of events.
pub open spec fn after(s: JobState, events: Seq<DeviceEvent>) -> JobState
    decreases events.len(),
{
    if events.len() == 0 {
        s
    } else {
        after(next(s, events[0]).0, events.drop_first())
    }
}

/// Whatever the device reports and in whatever order, a run stays in a
/// state that a run can be in. So a finished run holds no bitmap region,
/// and if it met no error it has its whole bitmap.
pub proof fn lemma_inv_throughout(s: JobState, events: Seq<DeviceEvent>)
    requires
        inv(s),
    ensures
        inv(after(s, events)),
        after(s, events).stage is Finished ==> after(s, events).devbitmap is None,
        after(s, events).stage is Finished && after(s, events).failure is None ==> covered(
            after(s, events),
        ),
    decreases events.len(),
{
    if events.len() > 0 {
        lemma_next_keeps_inv(s, events[0]);
        lemma_inv_throughout(next(s, events[0]).0, events.drop_first());
    }
}

/// A run is over after as many events as the rank of its stage says, at the
/// latest.
pub proof fn lemma_run_is_bounded(s: JobState, events: Seq<DeviceEvent>)
    requires
        inv(s),
        events.len() >= rank(s.stage, s.plan.registers@.len()),
    ensures
        after(s, events).stage is Finished || after(s, events).stage is Aborted,
    decreases events.len(),
{
    if events.len() > 0 {
        let t = next(s, events[0]).0;
        lemma_next_keeps_inv(s, events[0]);
        if s.stage is Finished || s.stage is Aborted {
            assert(t.stage is Aborted);
            assert(t.plan == s.plan);
        } else {
            lemma_run_ends(s, events[0]);
        }
        lemma_run_is_bounded(t, events.drop_first());
    }
}

/// The element is started only from behind the fence, and the fence is
/// reached only when the last register has been written: every register of
/// the run is visible to the element before it starts.
pub proof fn lemma_fence_before_start(s: JobState, event: DeviceEvent)
    requires
        inv(s),
    ensures
        next(s, event).1 == Step::Perform(DeviceAction::Start) ==> s.stage is Fence,
        next(s, event).1 == Step::Perform(DeviceAction::Fence) ==> (s.stage matches Stage::Program(
            i,
        ) && i + 1 == s.plan.registers@.len()) || (s.stage == Stage::Upload(Part::Input)
            && s.plan.registers@.len() == 0),
{
    assert(s.plan.registers.len() == s.plan.registers@.len());
}

} // verus!
