//! The status word that a processing element reports after a run, and the
//! outcome that the fuzzing engine is told.

use vstd::prelude::*;

verus! {

/// Bit 0: the program ended with an exception.
pub const PROGRAM_CRASH_FLAG: u32 = 0x01;

/// Shift that brings the exception cause down to bit 0.
pub const PROGRAM_CRASH_CAUSE_SHIFT: u32 = 1;

/// Bits 1 to 5: the exception cause, meaningful when bit 0 is set.
pub const PROGRAM_CRASH_CAUSE_MASK: u32 = 0x3e;

/// Bit 6: the element refused the bitmap size it was given.
pub const INVALID_BITMAP_SIZE_FLAG: u32 = 0x40;

/// Bit 7: the run hit the cycle limit.
pub const TIMEOUT_FLAG: u32 = 0x80;

/// All bits that carry a meaning; any other bit is reserved.
pub const ALL_MASK: u32 = 0xff;

/// How one execution of the target ended, as the engine sees it.
#[derive(Clone, Copy, Debug, PartialEq, Eq, Structural)]
pub enum Outcome {
    /// The program ran to its end.
    Completed,
    Crash,
    Timeout,
}

/// Why a status word cannot be turned into an [`Outcome`].
#[derive(Clone, Copy, Debug, PartialEq, Eq, Structural)]
pub enum StatusError {
    /// Bit 6 was set: the element did not accept the bitmap size.
    InvalidBitmapSize,
    /// A reserved bit (bit 8 or above) was set; the word is carried along.
    Reserved { status: u32 },
}

/// Bit 0 of the word: the program crashed.
pub open spec fn crashed(status: u32) -> bool {
    status % 2 == 1
}

/// Bits 1 to 5 of the word: the exception cause.
pub open spec fn crash_cause(status: u32) -> int {
    (status as int / 2) % 32
}

/// Bit 6 of the word: the bitmap size was refused.
pub open spec fn bitmap_size_refused(status: u32) -> bool {
    (status / 64) % 2 == 1
}

/// Bit 7 of the word: the run timed out.
pub open spec fn timed_out(status: u32) -> bool {
    (status / 128) % 2 == 1
}

/// Some bit from bit 8 upwards is set.
pub open spec fn reserved_bits_set(status: u32) -> bool {
    status >= 256
}

/// The outcome that a status word stands for. A refused bitmap size wins over
/// everything, a reserved bit over the remaining flags, a crash over a
/// timeout.
pub open spec fn outcome_of(status: u32) -> Result<Outcome, StatusError> {
    if bitmap_size_refused(status) {
        Err(StatusError::InvalidBitmapSize)
    } else if reserved_bits_set(status) {
        Err(StatusError::Reserved { status })
    } else if crashed(status) {
        Ok(Outcome::Crash)
    } else if timed_out(status) {
        Ok(Outcome::Timeout)
    } else {
        Ok(Outcome::Completed)
    }
}

/// Tells whether bit 0 is set.
pub fn has_crashed(status: u32) -> (r: bool)
    ensures
        r == crashed(status),
{
    assert((status & 0x01 != 0) == (status % 2 == 1)) by (bit_vector);
    status & PROGRAM_CRASH_FLAG != 0
}

/// Extracts the exception cause, bits 1 to 5.
pub fn cause_of(status: u32) -> (r: u32)
    ensures
        r == crash_cause(status),
        r < 32,
{
    assert((status & 0x3e) >> 1 == (status / 2) % 32) by (bit_vector);
    (status & PROGRAM_CRASH_CAUSE_MASK) >> PROGRAM_CRASH_CAUSE_SHIFT
}

/// Tells whether bit 6 is set.
pub fn has_refused_bitmap_size(status: u32) -> (r: bool)
    ensures
        r == bitmap_size_refused(status),
{
    assert((status & 0x40 != 0) == ((status / 64) % 2 == 1)) by (bit_vector);
    status & INVALID_BITMAP_SIZE_FLAG != 0
}

/// Tells whether bit 7 is set.
pub fn has_timed_out(status: u32) -> (r: bool)
    ensures
        r == timed_out(status),
{
    assert((status & 0x80 != 0) == ((status / 128) % 2 == 1)) by (bit_vector);
    status & TIMEOUT_FLAG != 0
}

/// Tells whether any reserved bit is set.
pub fn has_reserved_bits(status: u32) -> (r: bool)
    ensures
        r == reserved_bits_set(status),
{
    assert((status & !0xffu32 != 0) == (status >= 256)) by (bit_vector);
    status & !ALL_MASK != 0
}

/// Maps a status word to the outcome reported to the engine.
pub fn classify(status: u32) -> (r: Result<Outcome, StatusError>)
    ensures
        r == outcome_of(status),
{
    if has_refused_bitmap_size(status) {
        Err(StatusError::InvalidBitmapSize)
    } else if has_reserved_bits(status) {
        Err(StatusError::Reserved { status })
    } else if has_crashed(status) {
        Ok(Outcome::Crash)
    } else if has_timed_out(status) {
        Ok(Outcome::Timeout)
    } else {
        Ok(Outcome::Completed)
    }
}

/// A word with bit 7 set and bits 0 and 6 clear, and no reserved bit, stands
/// for a timeout.
pub proof fn lemma_timeout_outcome(status: u32)
    requires
        timed_out(status),
        !crashed(status),
        !bitmap_size_refused(status),
        !reserved_bits_set(status),
    ensures
        outcome_of(status) == Ok::<Outcome, StatusError>(Outcome::Timeout),
{
}

/// A word with bit 0 set stands for a crash whatever bits 1 to 5 and bit 7
/// hold, as long as it is no hard error.
pub proof fn lemma_crash_outcome(status: u32)
    requires
        crashed(status),
        !bitmap_size_refused(status),
        !reserved_bits_set(status),
    ensures
        outcome_of(status) == Ok::<Outcome, StatusError>(Outcome::Crash),
{
}

/// Bit 6 makes the word a hard error whatever the other bits hold, and so
/// does any bit from bit 8 upwards.
pub proof fn lemma_hard_errors(status: u32)
    ensures
        bitmap_size_refused(status) ==> outcome_of(status) == Err::<Outcome, StatusError>(
            StatusError::InvalidBitmapSize,
        ),
        reserved_bits_set(status) ==> outcome_of(status).is_err(),
        outcome_of(status).is_err() <==> bitmap_size_refused(status) || reserved_bits_set(status),
{
}

} // verus!
