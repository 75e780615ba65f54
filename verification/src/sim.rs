//! The exchange with a simulated element: a companion process that is told
//! what to do by one byte on a pipe, answers with one byte on another, and
//! shares a segment of memory with the host for everything else.

use vstd::prelude::*;
use crate::codec::{
    decode_u32,
    decode_u64,
    encode_u32,
    encode_u64,
    u32_bytes,
    u32_value,
    u64_bytes,
    u64_value,
    ByteOrder,
};
use crate::duration::RunDuration;
use crate::error::{BitmapLenError, TapascoRunError};
use crate::host::TapascoHostRun;
use crate::job::{register_bitmap_len, FatalError};

verus! {

/// The requests that the host sends to the simulation.
#[derive(Clone, Copy, Debug, PartialEq, Eq, Structural)]
pub enum SimRequestType {
    /// The input lies in the shared segment.
    SetInput,
    /// Run the target.
    Start,
    /// Put the bitmap into the shared segment.
    CopyBitmap,
    /// Exit.
    Close,
}

impl SimRequestType {
    /// The byte that stands for the request on the pipe.
    pub open spec fn spec_code(self) -> u8 {
        match self {
            SimRequestType::SetInput => 0,
            SimRequestType::Start => 1,
            SimRequestType::CopyBitmap => 2,
            SimRequestType::Close => 255,
        }
    }

    /// The byte that stands for the request on the pipe.
    pub fn code(self) -> (r: u8)
        ensures
            r == self.spec_code(),
    {
        match self {
            SimRequestType::SetInput => 0,
            SimRequestType::Start => 1,
            SimRequestType::CopyBitmap => 2,
            SimRequestType::Close => 255,
        }
    }
}

/// Offset of the status word in the segment after a run.
pub const STATUS_OFFSET: usize = 0;

/// Offset of the fault information in the segment after a run.
pub const FAULT_OFFSET: usize = 4;

/// Offset of the timeout in the segment before a run.
pub const TIMEOUT_OFFSET: usize = 8;

/// Offset of the cycle counter in the segment after a run.
pub const COUNTER_OFFSET: usize = 16;

/// Number of bytes at the start of the segment that hold the results of a
/// run.
pub const RESPONSE_LEN: usize = 24;

/// How host and simulation share memory.
#[derive(Clone, Copy, Debug, PartialEq, Eq, Structural)]
pub struct SimConfig {
    /// Byte order of the numbers in the segment: that of the machine.
    pub order: ByteOrder,
    /// Size of the shared segment in bytes.
    pub segment_size: usize,
    /// Cycle limit of a run.
    pub timeout_cycles: u64,
}

impl SimConfig {
    /// The segment holds the results of a run, and every length in it fits
    /// 32 bits.
    pub open spec fn wf(self) -> bool {
        RESPONSE_LEN <= self.segment_size <= u32::MAX
    }

    /// Checks the segment size.
    pub fn is_valid(&self) -> (r: bool)
        ensures
            r == self.wf(),
    {
        RESPONSE_LEN <= self.segment_size && self.segment_size <= u32::MAX as usize
    }
}

/// Number of input bytes that fit the segment behind the length field.
pub open spec fn staged_len(input_len: int, segment_size: int) -> int {
    if input_len <= segment_size - 4 {
        input_len
    } else {
        segment_size - 4
    }
}

/// What the host writes to the start of the segment for `SetInput`: the
/// number of input bytes, then as many input bytes as fit.
pub open spec fn input_frame(config: SimConfig, input: Seq<u8>) -> Seq<u8> {
    let n = staged_len(input.len() as int, config.segment_size as int);
    u32_bytes(config.order, n as u32) + input.take(n)
}

/// The results of a run as they lie at the start of the segment.
#[derive(Clone, Copy, Debug, PartialEq, Eq, Structural)]
pub struct SimResponse {
    pub status: u32,
    /// Program counter of the fault.
    pub fault_epc: u32,
    /// Trap value of the fault.
    pub fault_tval: u32,
    pub counter: u64,
}

/// The results that the first bytes of the segment stand for.
pub open spec fn response_of(order: ByteOrder, segment: Seq<u8>) -> SimResponse {
    SimResponse {
        status: u32_value(order, segment.subrange(0, 4)) as u32,
        fault_epc: u32_value(order, segment.subrange(4, 8)) as u32,
        fault_tval: u32_value(order, segment.subrange(8, 12)) as u32,
        counter: u64_value(order, segment.subrange(16, 24)) as u64,
    }
}

/// Lays out the input for `SetInput`. An input that does not fit the
/// segment is cut off, which is no error.
pub fn stage_input(config: &SimConfig, input: &[u8]) -> (r: Vec<u8>)
    requires
        config.wf(),
    ensures
        r@ == input_frame(*config, input@),
        r@.len() == 4 + staged_len(input.len() as int, config.segment_size as int),
        r@.len() <= config.segment_size,
{
    let room: usize = config.segment_size - 4;
    let n: usize = if input.len() <= room {
        input.len()
    } else {
        room
    };
    let header = encode_u32(config.order, n as u32);
    let mut out: Vec<u8> = Vec::with_capacity(n + 4);
    out.push(header[0]);
    out.push(header[1]);
    out.push(header[2]);
    out.push(header[3]);
    assert(out@ =~= u32_bytes(config.order, n as u32));
    let mut i: usize = 0;
    while i < n
        invariant
            i <= n <= input.len(),
            out@ == u32_bytes(config.order, n as u32) + input@.take(i as int),
        decreases n - i,
    {
        out.push(input[i]);
        i = i + 1;
        assert(out@ =~= u32_bytes(config.order, n as u32) + input@.take(i as int));
    }
    out
}

/// Lays out the bitmap length for `Start`, to be written at offset 0.
pub fn stage_bitmap_len(config: &SimConfig, bitmap_len: u32) -> (r: Vec<u8>)
    ensures
        r@ == u32_bytes(config.order, bitmap_len),
{
    let bytes = encode_u32(config.order, bitmap_len);
    let mut out: Vec<u8> = Vec::with_capacity(4);
    out.push(bytes[0]);
    out.push(bytes[1]);
    out.push(bytes[2]);
    out.push(bytes[3]);
    assert(out@ =~= u32_bytes(config.order, bitmap_len));
    out
}

/// Lays out the timeout for `Start`, to be written at offset 8.
pub fn stage_timeout(config: &SimConfig) -> (r: Vec<u8>)
    ensures
        r@ == u64_bytes(config.order, config.timeout_cycles),
{
    let bytes = encode_u64(config.order, config.timeout_cycles);
    let mut out: Vec<u8> = Vec::with_capacity(8);
    let mut i: usize = 0;
    while i < 8
        invariant
            i <= 8,
            out@ == bytes@.take(i as int),
        decreases 8 - i,
    {
        out.push(bytes[i]);
        i = i + 1;
        assert(out@ =~= bytes@.take(i as int));
    }
    assert(bytes@.take(8) =~= bytes@);
    out
}

/// Reads the results of a run from the start of the segment.
pub fn parse_response(order: ByteOrder, segment: &[u8]) -> (r: SimResponse)
    requires
        segment.len() >= RESPONSE_LEN,
    ensures
        r == response_of(order, segment@),
{
    let status = decode_u32(order, vstd::slice::slice_subrange(segment, 0, 4));
    let fault_epc = decode_u32(order, vstd::slice::slice_subrange(segment, 4, 8));
    let fault_tval = decode_u32(order, vstd::slice::slice_subrange(segment, 8, 12));
    let counter = decode_u64(order, vstd::slice::slice_subrange(segment, 16, 24));
    SimResponse { status, fault_epc, fault_tval, counter }
}

/// An input longer than the segment has room for is cut to that room: the
/// frame fills the segment and names the shortened length.
pub proof fn lemma_long_input_is_truncated(config: SimConfig, input: Seq<u8>)
    requires
        config.wf(),
        input.len() > config.segment_size - 4,
    ensures
        input_frame(config, input).len() == config.segment_size,
        input_frame(config, input).subrange(0, 4) == u32_bytes(
            config.order,
            (config.segment_size - 4) as u32,
        ),
        input_frame(config, input).subrange(4, config.segment_size as int) == input.take(
            config.segment_size - 4,
        ),
{
    let n = config.segment_size - 4;
    let frame = input_frame(config, input);
    assert(frame.subrange(0, 4) =~= u32_bytes(config.order, n as u32));
    assert(frame.subrange(4, config.segment_size as int) =~= input.take(n));
}

/// An input that fits is staged whole behind its length.
pub proof fn lemma_short_input_is_kept(config: SimConfig, input: Seq<u8>)
    requires
        config.wf(),
        input.len() <= config.segment_size - 4,
    ensures
        input_frame(config, input) == u32_bytes(config.order, input.len() as u32) + input,
{
    assert(input.take(input.len() as int) =~= input);
}

/// What the host writes into the segment.
#[derive(Clone, Copy, Debug, PartialEq, Eq, Structural)]
pub enum SimPart {
    /// Input length and input, for `SetInput`.
    Input,
    /// The bitmap length, for `Start`.
    BitmapLen,
    /// The cycle limit, for `Start`.
    Timeout,
}

/// An operation on pipes and segment for the host to perform.
#[derive(Clone, Copy, Debug, PartialEq, Eq, Structural)]
pub enum SimAction {
    /// Write one of the run's frames into the segment at `offset`.
    WriteSegment { offset: usize, part: SimPart },
    /// Send a request byte.
    SendRequest(SimRequestType),
    /// Read the one byte with which the simulation answers a request.
    AwaitResponse,
    /// Read `len` bytes of the segment from `offset`.
    ReadSegment { offset: usize, len: usize },
}

/// What the host reports of the operation it performed.
#[derive(Clone, Debug, PartialEq, Eq)]
pub enum SimEvent {
    /// Nothing has been performed yet.
    Begin,
    /// The operation succeeded and has no result.
    Done,
    /// The byte read from the response pipe.
    Response(u8),
    /// The bytes read from the segment.
    Bytes(Vec<u8>),
    /// An I/O failure with its description.
    Failed(String),
}

/// What to do next.
#[derive(Debug, PartialEq, Eq)]
pub enum SimStep {
    Perform(SimAction),
    /// The run is over.
    Finished(Result<TapascoHostRun, TapascoRunError>),
    Fatal(FatalError),
}

/// Where a simulated run stands: the operation whose result is awaited.
#[derive(Clone, Copy, Debug, PartialEq, Eq, Structural)]
pub enum SimStage {
    Created,
    StageInput,
    SendSetInput,
    AckSetInput,
    StageBitmapLen,
    StageTimeout,
    SendStart,
    AckStart,
    ReadResponse,
    SendCopyBitmap,
    AckCopyBitmap,
    ReadBitmap,
    Finished,
    Aborted,
}

/// The state of a simulated run.
pub struct SimState {
    pub stage: SimStage,
    pub config: SimConfig,
    /// Length of the coverage bitmap asked for.
    pub bitmap_len: usize,
    /// The frame written for `SetInput`.
    pub frame: Seq<u8>,
    pub response: SimResponse,
}

/// The operation that a stage waits for.
pub open spec fn sim_action_of(s: SimState) -> SimAction {
    match s.stage {
        SimStage::StageInput => SimAction::WriteSegment { offset: 0, part: SimPart::Input },
        SimStage::SendSetInput => SimAction::SendRequest(SimRequestType::SetInput),
        SimStage::StageBitmapLen => SimAction::WriteSegment {
            offset: 0,
            part: SimPart::BitmapLen,
        },
        SimStage::StageTimeout => SimAction::WriteSegment {
            offset: TIMEOUT_OFFSET,
            part: SimPart::Timeout,
        },
        SimStage::SendStart => SimAction::SendRequest(SimRequestType::Start),
        SimStage::ReadResponse => SimAction::ReadSegment { offset: 0, len: RESPONSE_LEN },
        SimStage::SendCopyBitmap => SimAction::SendRequest(SimRequestType::CopyBitmap),
        SimStage::ReadBitmap => SimAction::ReadSegment { offset: 0, len: s.bitmap_len },
        _ => SimAction::AwaitResponse,
    }
}

/// Moves to `stage` and asks for its operation.
pub open spec fn sim_go(s: SimState, stage: SimStage) -> (SimState, SimStep) {
    let t = SimState { stage, ..s };
    (t, SimStep::Perform(sim_action_of(t)))
}

/// Ends the run with the given result.
pub open spec fn sim_end(s: SimState, result: Result<TapascoHostRun, TapascoRunError>) -> (
    SimState,
    SimStep,
) {
    (SimState { stage: SimStage::Finished, ..s }, SimStep::Finished(result))
}

/// Stops the run for good.
pub open spec fn sim_abort(s: SimState) -> (SimState, SimStep) {
    (SimState { stage: SimStage::Aborted, ..s }, SimStep::Fatal(FatalError::UnexpectedEvent))
}

/// The stage that follows `stage` when its operation has succeeded without
/// a result of its own; `None` where the stage expects more than that.
pub open spec fn sim_successor(stage: SimStage) -> Option<SimStage> {
    match stage {
        SimStage::StageInput => Some(SimStage::SendSetInput),
        SimStage::SendSetInput => Some(SimStage::AckSetInput),
        SimStage::StageBitmapLen => Some(SimStage::StageTimeout),
        SimStage::StageTimeout => Some(SimStage::SendStart),
        SimStage::SendStart => Some(SimStage::AckStart),
        SimStage::SendCopyBitmap => Some(SimStage::AckCopyBitmap),
        _ => None,
    }
}

/// Whether the run is between its first operation and its end.
pub open spec fn sim_active(stage: SimStage) -> bool {
    !(stage is Created || stage is Finished || stage is Aborted)
}

/// The error, if any, with which the simulated backend refuses a bitmap
/// length: one outside 4 to the size of the segment.
pub open spec fn sim_bitmap_len_error(config: SimConfig, bitmap_len: usize) -> Option<
    TapascoRunError,
> {
    if bitmap_len < 4 || bitmap_len > config.segment_size {
        Some(
            TapascoRunError::BitmapLen {
                reason: BitmapLenError::OutOfRange { len: bitmap_len, max: config.segment_size },
            },
        )
    } else {
        None
    }
}

/// The state after an event, and what to do next.
pub open spec fn sim_next(s: SimState, event: SimEvent) -> (SimState, SimStep) {
    match (s.stage, event) {
        (SimStage::Created, SimEvent::Begin) => sim_go(s, SimStage::StageInput),
        (stage, SimEvent::Done) => match sim_successor(stage) {
            Some(following) => sim_go(s, following),
            None => sim_abort(s),
        },
        (SimStage::AckSetInput, SimEvent::Response(_)) => match sim_bitmap_len_error(
            s.config,
            s.bitmap_len,
        ) {
            Some(e) => sim_end(s, Err(e)),
            None => sim_go(s, SimStage::StageBitmapLen),
        },
        (SimStage::AckStart, SimEvent::Response(_)) => sim_go(s, SimStage::ReadResponse),
        (SimStage::AckCopyBitmap, SimEvent::Response(_)) => sim_go(s, SimStage::ReadBitmap),
        (SimStage::ReadResponse, SimEvent::Bytes(bytes)) => if bytes@.len() >= RESPONSE_LEN {
            sim_go(
                SimState { response: response_of(s.config.order, bytes@), ..s },
                SimStage::SendCopyBitmap,
            )
        } else {
            sim_abort(s)
        },
        (SimStage::ReadBitmap, SimEvent::Bytes(bytes)) => if bytes@.len() == s.bitmap_len {
            sim_end(
                s,
                Ok(
                    TapascoHostRun {
                        status: s.response.status,
                        bitmap: bytes,
                        duration: Some(RunDuration::of_cycles(s.response.counter)),
                    },
                ),
            )
        } else {
            sim_end(s, Err(TapascoRunError::BitmapLen { reason: BitmapLenError::Changed }))
        },
        (stage, SimEvent::Failed(message)) => if sim_active(stage) {
            sim_end(s, Err(TapascoRunError::IO { message }))
        } else {
            sim_abort(s)
        },
        _ => sim_abort(s),
    }
}

/// What holds of every state of a simulated run: the frame fits the
/// segment, and once the bitmap length has been checked it lies within 4
/// and the size of the segment.
pub open spec fn sim_inv(s: SimState) -> bool {
    &&& s.config.wf()
    &&& s.frame.len() <= s.config.segment_size
    &&& (s.stage is StageBitmapLen || s.stage is StageTimeout || s.stage is SendStart
        || s.stage is AckStart || s.stage is ReadResponse || s.stage is SendCopyBitmap
        || s.stage is AckCopyBitmap || s.stage is ReadBitmap) ==> 4 <= s.bitmap_len
        <= s.config.segment_size
}

/// Number of bytes of a frame.
pub open spec fn sim_part_len(s: SimState, part: SimPart) -> int {
    match part {
        SimPart::Input => s.frame.len() as int,
        SimPart::BitmapLen => 4,
        SimPart::Timeout => 8,
    }
}

/// Every step keeps what holds of a simulated run's states.
pub proof fn lemma_sim_next_keeps_inv(s: SimState, event: SimEvent)
    requires
        sim_inv(s),
    ensures
        sim_inv(sim_next(s, event).0),
{
}

/// Whatever the host is asked to read or write lies within the segment.
pub proof fn lemma_sim_access_in_segment(s: SimState, event: SimEvent)
    requires
        sim_inv(s),
    ensures
        sim_next(s, event).1 matches SimStep::Perform(SimAction::WriteSegment { offset, part })
            ==> offset + sim_part_len(s, part) <= s.config.segment_size,
        sim_next(s, event).1 matches SimStep::Perform(SimAction::ReadSegment { offset, len })
            ==> offset + len <= s.config.segment_size,
{
}

/// A request is sent only after the response to the one before has been
/// read: a step that sends a request never follows a stage that waits for a
/// response without taking that response.
pub proof fn lemma_sim_waits_for_response(s: SimState, event: SimEvent)
    requires
        s.stage is AckSetInput || s.stage is AckStart || s.stage is AckCopyBitmap,
        !(event is Response),
    ensures
        !(sim_next(s, event).1 is Perform),
{
}

/// A simulated run that ends well hands out the status word as it lay in
/// the segment, the whole bitmap as it was read, and a duration.
pub proof fn lemma_sim_result(s: SimState, event: SimEvent)
    requires
        sim_inv(s),
    ensures
        sim_next(s, event).1 matches SimStep::Finished(Ok(run)) ==> {
            &&& s.stage is ReadBitmap
            &&& event matches SimEvent::Bytes(bytes) && run.bitmap == bytes
            &&& run.bitmap@.len() == s.bitmap_len
            &&& run.status == s.response.status
            &&& run.duration == Some(RunDuration::of_cycles(s.response.counter))
        },
{
}

/// The bytes of a frame.
pub open spec fn sim_part_bytes(s: SimState, part: SimPart) -> Seq<u8> {
    match part {
        SimPart::Input => s.frame,
        SimPart::BitmapLen => u32_bytes(s.config.order, register_bitmap_len(s.bitmap_len)),
        SimPart::Timeout => u64_bytes(s.config.order, s.config.timeout_cycles),
    }
}

/// The state in which a simulated run begins.
pub open spec fn sim_initial(config: SimConfig, input: Seq<u8>, bitmap_len: usize) -> SimState {
    SimState {
        stage: SimStage::Created,
        config,
        bitmap_len,
        frame: input_frame(config, input),
        response: SimResponse { status: 0, fault_epc: 0, fault_tval: 0, counter: 0 },
    }
}

/// One run on a simulated element.
pub struct SimJob {
    stage: SimStage,
    config: SimConfig,
    bitmap_len: usize,
    frame: Vec<u8>,
    bitmap_frame: Vec<u8>,
    timeout_frame: Vec<u8>,
    response: SimResponse,
}

impl View for SimJob {
    type V = SimState;

    closed spec fn view(&self) -> SimState {
        SimState {
            stage: self.stage,
            config: self.config,
            bitmap_len: self.bitmap_len,
            frame: self.frame@,
            response: self.response,
        }
    }
}

impl SimJob {
    /// The run's state is one that a run can be in, and its frames are laid
    /// out.
    pub closed spec fn wf(&self) -> bool {
        &&& sim_inv(self@)
        &&& self.bitmap_frame@ == sim_part_bytes(self@, SimPart::BitmapLen)
        &&& self.timeout_frame@ == sim_part_bytes(self@, SimPart::Timeout)
    }

    /// Prepares a run of `input` that asks for a bitmap of `bitmap_len`
    /// bytes.
    pub fn new(config: SimConfig, input: &[u8], bitmap_len: usize) -> (r: Self)
        requires
            config.wf(),
        ensures
            r.wf(),
            r@ == sim_initial(config, input@, bitmap_len),
    {
        let register_len: u32 = (bitmap_len as u64 % 0x1_0000_0000) as u32;
        SimJob {
            stage: SimStage::Created,
            config,
            bitmap_len,
            frame: stage_input(&config, input),
            bitmap_frame: stage_bitmap_len(&config, register_len),
            timeout_frame: stage_timeout(&config),
            response: SimResponse { status: 0, fault_epc: 0, fault_tval: 0, counter: 0 },
        }
    }

    /// The bytes that a `WriteSegment` operation names.
    pub fn payload(&self, part: SimPart) -> (r: &Vec<u8>)
        requires
            self.wf(),
        ensures
            r@ == sim_part_bytes(self@, part),
            r@.len() == sim_part_len(self@, part),
    {
        match part {
            SimPart::Input => &self.frame,
            SimPart::BitmapLen => &self.bitmap_frame,
            SimPart::Timeout => &self.timeout_frame,
        }
    }

    /// The results of the run as they were read from the segment.
    pub fn response(&self) -> (r: SimResponse)
        ensures
            r == self@.response,
    {
        self.response
    }

    fn enter(&mut self, stage: SimStage) -> (r: SimStep)
        ensures
            (final(self)@, r) == sim_go(old(self)@, stage),
            final(self).bitmap_frame == old(self).bitmap_frame,
            final(self).timeout_frame == old(self).timeout_frame,
    {
        self.stage = stage;
        let action = match stage {
            SimStage::StageInput => SimAction::WriteSegment { offset: 0, part: SimPart::Input },
            SimStage::SendSetInput => SimAction::SendRequest(SimRequestType::SetInput),
            SimStage::StageBitmapLen => SimAction::WriteSegment {
                offset: 0,
                part: SimPart::BitmapLen,
            },
            SimStage::StageTimeout => SimAction::WriteSegment {
                offset: TIMEOUT_OFFSET,
                part: SimPart::Timeout,
            },
            SimStage::SendStart => SimAction::SendRequest(SimRequestType::Start),
            SimStage::ReadResponse => SimAction::ReadSegment { offset: 0, len: RESPONSE_LEN },
            SimStage::SendCopyBitmap => SimAction::SendRequest(SimRequestType::CopyBitmap),
            SimStage::ReadBitmap => SimAction::ReadSegment { offset: 0, len: self.bitmap_len },
            _ => SimAction::AwaitResponse,
        };
        SimStep::Perform(action)
    }

    fn end(&mut self, result: Result<TapascoHostRun, TapascoRunError>) -> (r: SimStep)
        ensures
            (final(self)@, r) == sim_end(old(self)@, result),
            final(self).bitmap_frame == old(self).bitmap_frame,
            final(self).timeout_frame == old(self).timeout_frame,
    {
        self.stage = SimStage::Finished;
        SimStep::Finished(result)
    }

    fn abort(&mut self) -> (r: SimStep)
        ensures
            (final(self)@, r) == sim_abort(old(self)@),
            final(self).bitmap_frame == old(self).bitmap_frame,
            final(self).timeout_frame == old(self).timeout_frame,
    {
        self.stage = SimStage::Aborted;
        SimStep::Fatal(FatalError::UnexpectedEvent)
    }

    fn on_response(&mut self, byte: u8) -> (r: SimStep)
        ensures
            (final(self)@, r) == sim_next(old(self)@, SimEvent::Response(byte)),
            final(self).bitmap_frame == old(self).bitmap_frame,
            final(self).timeout_frame == old(self).timeout_frame,
    {
        match self.stage {
            SimStage::AckSetInput => {
                if self.bitmap_len < 4 || self.bitmap_len > self.config.segment_size {
                    let reason = BitmapLenError::OutOfRange {
                        len: self.bitmap_len,
                        max: self.config.segment_size,
                    };
                    self.end(Err(TapascoRunError::BitmapLen { reason }))
                } else {
                    self.enter(SimStage::StageBitmapLen)
                }
            },
            SimStage::AckStart => self.enter(SimStage::ReadResponse),
            SimStage::AckCopyBitmap => self.enter(SimStage::ReadBitmap),
            _ => self.abort(),
        }
    }

    fn on_done(&mut self) -> (r: SimStep)
        ensures
            (final(self)@, r) == sim_next(old(self)@, SimEvent::Done),
            final(self).bitmap_frame == old(self).bitmap_frame,
            final(self).timeout_frame == old(self).timeout_frame,
    {
        match self.stage {
            SimStage::StageInput => self.enter(SimStage::SendSetInput),
            SimStage::SendSetInput => self.enter(SimStage::AckSetInput),
            SimStage::StageBitmapLen => self.enter(SimStage::StageTimeout),
            SimStage::StageTimeout => self.enter(SimStage::SendStart),
            SimStage::SendStart => self.enter(SimStage::AckStart),
            SimStage::SendCopyBitmap => self.enter(SimStage::AckCopyBitmap),
            _ => self.abort(),
        }
    }

    fn on_bytes(&mut self, bytes: Vec<u8>) -> (r: SimStep)
        ensures
            (final(self)@, r) == sim_next(old(self)@, SimEvent::Bytes(bytes)),
            final(self).bitmap_frame == old(self).bitmap_frame,
            final(self).timeout_frame == old(self).timeout_frame,
    {
        match self.stage {
            SimStage::ReadResponse => {
                if bytes.len() >= RESPONSE_LEN {
                    self.response = parse_response(self.config.order, bytes.as_slice());
                    self.enter(SimStage::SendCopyBitmap)
                } else {
                    self.abort()
                }
            },
            SimStage::ReadBitmap => {
                if bytes.len() == self.bitmap_len {
                    let run = TapascoHostRun {
                        status: self.response.status,
                        bitmap: bytes,
                        duration: Some(RunDuration::from_cycles(self.response.counter)),
                    };
                    self.end(Ok(run))
                } else {
                    self.end(Err(TapascoRunError::BitmapLen { reason: BitmapLenError::Changed }))
                }
            },
            _ => self.abort(),
        }
    }

    /// Takes the result of the operation that was asked for last and names
    /// the next one. No request is sent before the response to the one
    /// before has been read; an I/O failure ends the run.
    pub fn step(&mut self, event: SimEvent) -> (r: SimStep)
        requires
            old(self).wf(),
        ensures
            final(self).wf(),
            (final(self)@, r) == sim_next(old(self)@, event),
    {
        proof {
            lemma_sim_next_keeps_inv(self@, event);
        }
        match event {
            SimEvent::Begin => match self.stage {
                SimStage::Created => self.enter(SimStage::StageInput),
                _ => self.abort(),
            },
            SimEvent::Done => self.on_done(),
            SimEvent::Response(byte) => self.on_response(byte),
            SimEvent::Bytes(bytes) => self.on_bytes(bytes),
            SimEvent::Failed(message) => match self.stage {
                SimStage::Created | SimStage::Finished | SimStage::Aborted => self.abort(),
                _ => self.end(Err(TapascoRunError::IO { message })),
            },
        }
    }
}

/// The request to send when the runner is torn down: `Close` while the
/// simulation is still running, none once it has exited.
pub fn teardown_request(running: bool) -> (r: Option<SimRequestType>)
    ensures
        r == if running {
            Some(SimRequestType::Close)
        } else {
            None::<SimRequestType>
        },
{
    if running {
        Some(SimRequestType::Close)
    } else {
        None
    }
}

/// The requests of a run are sent in the order `SetInput`, `Start`,
/// `CopyBitmap`, each from the stage behind the frames it needs, and `Close`
/// is never part of a run.
pub proof fn lemma_sim_request_order(s: SimState, event: SimEvent)
    ensures
        sim_next(s, event).1 == SimStep::Perform(SimAction::SendRequest(SimRequestType::SetInput))
            ==> s.stage is StageInput,
        sim_next(s, event).1 == SimStep::Perform(SimAction::SendRequest(SimRequestType::Start))
            ==> s.stage is StageTimeout,
        sim_next(s, event).1 == SimStep::Perform(
            SimAction::SendRequest(SimRequestType::CopyBitmap),
        ) ==> s.stage is ReadResponse,
        sim_next(s, event).1 != SimStep::Perform(SimAction::SendRequest(SimRequestType::Close)),
{
}

} // verus!
