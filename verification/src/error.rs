//! What can go wrong while a run is prepared, executed and read back.

use vstd::prelude::*;

verus! {

/// A failure reported by the device access layer, with its own description.
#[derive(Clone, Debug, PartialEq, Eq)]
pub struct DeviceFailure {
    pub message: String,
}

/// The part of the device access layer that a failure came from.
#[derive(Clone, Copy, Debug, PartialEq, Eq, Structural)]
pub enum Subsystem {
    Allocator,
    Dma,
    Tlkm,
    Device,
    Pe,
    Job,
}

/// Why a bitmap length was not accepted.
#[derive(Clone, Copy, Debug, PartialEq, Eq, Structural)]
pub enum BitmapLenError {
    /// The caller's buffer is shorter than 4 bytes or longer than `max`.
    OutOfRange { len: usize, max: usize },
    /// The bitmap that came back has another length than the buffer.
    Changed,
    /// The element itself reported the length as unsupported.
    Rejected,
}

/// A job-control failure.
#[derive(Clone, Debug, PartialEq, Eq)]
pub enum JobError {
    /// The element has no local memory to place the program in.
    NoLocalMemory,
    /// Any other failure, as the device access layer describes it.
    Other { failure: DeviceFailure },
}

/// Errors of a run.
#[allow(inconsistent_fields)]
#[derive(Clone, Debug, PartialEq, Eq)]
pub enum TapascoRunError {
    Unknown { s: String },
    /// An I/O operation failed.
    IO { message: String },
    /// The host is shutting down; this is no failure of the run.
    ShuttingDown,
    BitmapLen { reason: BitmapLenError },
    /// Instruction or data image exceed the element's memory.
    ProgramOrDataTooLarge,
    /// The input does not fit in the data memory that the data image leaves.
    InputTooLarge,
    /// An off-chip allocation does not start at a region boundary.
    DRAMAllocationMisaligned { addr: u64, alignment_num: u64 },
    MutexPoisoned,
    TapascoAllocator { source: DeviceFailure },
    TapascoDMA { source: DeviceFailure },
    TapascoTLKM { source: DeviceFailure },
    TapascoDevice { source: DeviceFailure },
    TapascoPE { source: DeviceFailure },
    /// No supported element on any device; `last` is the last enumeration
    /// failure, if there was one.
    TapascoPENotFound { last: Option<DeviceFailure> },
    TapascoJob { source: JobError },
    /// The element returned a status word with reserved bits set.
    UnexpectedStatus { status: u32 },
}

/// The run error that stands for a device failure from the given subsystem.
pub open spec fn wrapped(subsystem: Subsystem, failure: DeviceFailure) -> TapascoRunError {
    match subsystem {
        Subsystem::Allocator => TapascoRunError::TapascoAllocator { source: failure },
        Subsystem::Dma => TapascoRunError::TapascoDMA { source: failure },
        Subsystem::Tlkm => TapascoRunError::TapascoTLKM { source: failure },
        Subsystem::Device => TapascoRunError::TapascoDevice { source: failure },
        Subsystem::Pe => TapascoRunError::TapascoPE { source: failure },
        Subsystem::Job => TapascoRunError::TapascoJob { source: JobError::Other { failure } },
    }
}

impl TapascoRunError {
    /// Wraps a device failure with the subsystem it came from.
    pub fn from_device(subsystem: Subsystem, failure: DeviceFailure) -> (r: Self)
        ensures
            r == wrapped(subsystem, failure),
    {
        match subsystem {
            Subsystem::Allocator => TapascoRunError::TapascoAllocator { source: failure },
            Subsystem::Dma => TapascoRunError::TapascoDMA { source: failure },
            Subsystem::Tlkm => TapascoRunError::TapascoTLKM { source: failure },
            Subsystem::Device => TapascoRunError::TapascoDevice { source: failure },
            Subsystem::Pe => TapascoRunError::TapascoPE { source: failure },
            Subsystem::Job => TapascoRunError::TapascoJob { source: JobError::Other { failure } },
        }
    }

    /// Whether this is the shutdown signal rather than a failure.
    pub fn is_shutdown(&self) -> (r: bool)
        ensures
            r == (*self is ShuttingDown),
    {
        match self {
            TapascoRunError::ShuttingDown => true,
            _ => false,
        }
    }
}

} // verus!
