//! Rules that the values of the command line have to meet, and how the
//! worker threads share cores and pools.

use vstd::prelude::*;

verus! {

/// Largest number of edge counters that an element has.
pub const MAX_BITMAP_SIZE: usize = 8192;

/// Largest number of worker threads.
pub const MAX_THREADS: usize = 1024;

/// Why a value of the command line is refused.
#[derive(Clone, Copy, Debug, PartialEq, Eq, Structural)]
pub enum ArgError {
    /// The bitmap size is no power of two.
    BitmapSizeNotPowerOfTwo,
    /// The bitmap size is above 8192.
    BitmapSizeTooLarge,
    /// No iteration was asked for.
    NoIterations,
    /// No thread was asked for.
    NoThreads,
    /// More than 1024 threads were asked for.
    TooManyThreads,
}

/// `n` is one of 1, 2, 4, ... 8192.
pub open spec fn small_power_of_two(n: int) -> bool {
    n == 1 || n == 2 || n == 4 || n == 8 || n == 16 || n == 32 || n == 64 || n == 128 || n == 256
        || n == 512 || n == 1024 || n == 2048 || n == 4096 || n == 8192
}

/// The error, if any, with which a bitmap size is refused.
pub open spec fn bitmap_size_error(n: usize) -> Option<ArgError> {
    if n == 0 {
        Some(ArgError::BitmapSizeNotPowerOfTwo)
    } else if n > MAX_BITMAP_SIZE {
        Some(ArgError::BitmapSizeTooLarge)
    } else if !small_power_of_two(n as int) {
        Some(ArgError::BitmapSizeNotPowerOfTwo)
    } else {
        None
    }
}

/// Checks a bitmap size: a power of two of at most 8192.
pub fn validate_bitmap_size(n: usize) -> (r: Result<(), ArgError>)
    ensures
        r matches Err(e) ==> bitmap_size_error(n) == Some(e),
        r is Ok <==> bitmap_size_error(n) is None,
{
    if n == 0 {
        return Err(ArgError::BitmapSizeNotPowerOfTwo);
    }
    if n > MAX_BITMAP_SIZE {
        return Err(ArgError::BitmapSizeTooLarge);
    }
    let word: u32 = n as u32;
    let below: u32 = word - 1;
    assert((word & below == 0) == (word == 1 || word == 2 || word == 4 || word == 8 || word
        == 16 || word == 32 || word == 64 || word == 128 || word == 256 || word == 512 || word
        == 1024 || word == 2048 || word == 4096 || word == 8192)) by (bit_vector)
        requires
            0 < word <= 8192,
            below == word - 1,
    ;
    if word & below != 0 {
        return Err(ArgError::BitmapSizeNotPowerOfTwo);
    }
    Ok(())
}

/// Checks a number of iterations: at least one.
pub fn validate_numiter(n: u64) -> (r: Result<u64, ArgError>)
    ensures
        n > 0 ==> r == Ok::<u64, ArgError>(n),
        n == 0 ==> r == Err::<u64, ArgError>(ArgError::NoIterations),
{
    if n > 0 {
        Ok(n)
    } else {
        Err(ArgError::NoIterations)
    }
}

/// Checks a number of threads: 1 to 1024.
pub fn validate_numthreads(n: usize) -> (r: Result<(), ArgError>)
    ensures
        n == 0 ==> r == Err::<(), ArgError>(ArgError::NoThreads),
        n > MAX_THREADS ==> r == Err::<(), ArgError>(ArgError::TooManyThreads),
        0 < n <= MAX_THREADS ==> r is Ok,
{
    if n == 0 {
        Err(ArgError::NoThreads)
    } else if n > MAX_THREADS {
        Err(ArgError::TooManyThreads)
    } else {
        Ok(())
    }
}

/// Whether the threads are bound to cores: only where there is a core for
/// each of them.
pub fn uses_affinity(threads: usize, cores: usize) -> (r: bool)
    ensures
        r == (threads <= cores),
{
    threads <= cores
}

/// Whether a benchmark gives each element a pool of its own: where there
/// are at least as many elements as threads.
pub fn pool_per_element(elements: usize, threads: usize) -> (r: bool)
    ensures
        r == (elements >= threads),
{
    elements >= threads
}

/// Whether benchmark thread number `thread` of `threads` takes a pool for
/// itself, which it does while the pools left are at least as many as the
/// threads left; else it shares all of them.
pub fn takes_own_pool(pools_left: usize, threads: usize, thread: usize) -> (r: bool)
    requires
        thread < threads,
    ensures
        r == (pools_left >= threads - thread),
{
    pools_left >= threads - thread
}

} // verus!
