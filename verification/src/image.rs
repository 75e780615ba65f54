//! The program image on disk: a flat binary whose first part is the
//! instruction image and whose second part is the initial data image.

use vstd::prelude::*;
use vstd::string::StringExecFns;
use crate::error::TapascoRunError;
use crate::memconf::{DATAMEM_SIZE, INSTMEM_SIZE};

verus! {

/// Number of bytes of a file of `file_size` bytes that belong to the image:
/// what lies beyond both parts is not read.
pub open spec fn image_len(file_size: int) -> int {
    if file_size <= INSTMEM_SIZE + DATAMEM_SIZE {
        file_size
    } else {
        INSTMEM_SIZE + DATAMEM_SIZE
    }
}

/// The instruction image of a file: its leading bytes, up to the size of the
/// instruction part.
pub open spec fn instruction_image(file: Seq<u8>) -> Seq<u8> {
    if file.len() <= INSTMEM_SIZE {
        file
    } else {
        file.take(INSTMEM_SIZE as int)
    }
}

/// The data image of a file: what follows the instruction part, up to the
/// size of the data part; empty for a file that ends before it.
pub open spec fn data_image(file: Seq<u8>) -> Seq<u8> {
    if file.len() <= INSTMEM_SIZE {
        Seq::empty()
    } else {
        file.subrange(INSTMEM_SIZE as int, image_len(file.len() as int))
    }
}

/// Number of bytes to read from a program file of the given size.
pub fn bytes_to_read(file_size: u64) -> (r: usize)
    ensures
        r == image_len(file_size as int),
{
    let limit: usize = INSTMEM_SIZE + DATAMEM_SIZE;
    if file_size <= limit as u64 {
        file_size as usize
    } else {
        limit
    }
}

fn copy_range(file: &[u8], from: usize, to: usize) -> (r: Vec<u8>)
    requires
        from <= to <= file.len(),
    ensures
        r@ == file@.subrange(from as int, to as int),
{
    let mut out: Vec<u8> = Vec::with_capacity(to - from);
    let mut i: usize = from;
    while i < to
        invariant
            from <= i <= to <= file.len(),
            out@ == file@.subrange(from as int, i as int),
        decreases to - i,
    {
        out.push(file[i]);
        i = i + 1;
        assert(out@ =~= file@.subrange(from as int, i as int));
    }
    out
}

/// Splits the content of a program file into instruction image and data
/// image.
pub fn split_image(file: &[u8]) -> (r: (Vec<u8>, Vec<u8>))
    ensures
        r.0@ == instruction_image(file@),
        r.1@ == data_image(file@),
{
    let len: usize = file.len();
    if len <= INSTMEM_SIZE {
        let instmem = copy_range(file, 0, len);
        assert(instmem@ =~= file@);
        (instmem, Vec::new())
    } else {
        let end: usize = if len <= INSTMEM_SIZE + DATAMEM_SIZE {
            len
        } else {
            INSTMEM_SIZE + DATAMEM_SIZE
        };
        let instmem = copy_range(file, 0, INSTMEM_SIZE);
        let datamem = copy_range(file, INSTMEM_SIZE, end);
        (instmem, datamem)
    }
}

/// The two images together are the file as far as it is read: nothing is
/// lost below the two capacities and nothing kept beyond them.
pub proof fn lemma_images_cover_file(file: Seq<u8>)
    ensures
        instruction_image(file) + data_image(file) == file.take(image_len(file.len() as int)),
        instruction_image(file).len() <= INSTMEM_SIZE,
        data_image(file).len() <= DATAMEM_SIZE,
{
    assert(instruction_image(file) + data_image(file) =~= file.take(image_len(file.len() as int)));
}

/// What is said of a file that ends before all of the image is read.
pub const EARLY_END: &'static str = "File end before expected eof";

/// Takes note of one read from the program file: `n` bytes came, `read_pos`
/// of `wanted` were there before. A read that brings nothing although bytes
/// are still wanted means that the file has ended early.
pub fn after_read(read_pos: usize, wanted: usize, n: usize) -> (r: Result<usize, TapascoRunError>)
    requires
        read_pos < wanted,
        n <= wanted - read_pos,
    ensures
        n == 0 ==> (r matches Err(TapascoRunError::IO { message }) && message@ == EARLY_END@),
        n > 0 ==> r == Ok::<usize, TapascoRunError>((read_pos + n) as usize),
{
    if n == 0 {
        Err(TapascoRunError::IO { message: String::from_str(EARLY_END) })
    } else {
        Ok(read_pos + n)
    }
}

} // verus!
