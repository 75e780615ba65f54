//! What has to be sent to an element before it can be started: the length
//! checks, the memory images and the register values of one run.

use vstd::prelude::*;
use crate::error::{JobError, TapascoRunError};
use crate::memconf::{
    align_down16,
    align_up16,
    round_down16,
    round_up16,
    PE_INVFLAG_BP,
    PE_INVFLAG_DCACHE,
    PE_INVFLAG_ICACHE,
};
use crate::pedesc::PEDesc;

verus! {

/// The memory through which an element's program is written.
#[derive(Clone, Copy, Debug, PartialEq, Eq, Structural)]
pub enum MemoryPath {
    /// The device's off-chip memory.
    OffChip,
    /// The element's local memory.
    Local,
}

/// The value of an argument register.
#[derive(Clone, Copy, Debug, PartialEq, Eq, Structural)]
pub enum ArgValue {
    Single32(u32),
    Single64(u64),
}

/// One register to program. A write that is not `required` is attempted and
/// its failure ignored.
#[derive(Clone, Copy, Debug, PartialEq, Eq, Structural)]
pub struct RegisterWrite {
    pub index: usize,
    pub value: ArgValue,
    pub required: bool,
}

/// Bytes to copy to a device address.
#[derive(Clone, Debug, PartialEq, Eq)]
pub struct Upload {
    pub addr: u64,
    pub data: Vec<u8>,
}

/// Everything that one run sends to its element, in the order of the fields.
#[derive(Clone, Debug, PartialEq, Eq)]
pub struct DispatchPlan {
    pub path: MemoryPath,
    /// Size and address of the bitmap region to reserve in local memory.
    pub bitmap_region: Option<(u64, u64)>,
    /// Invalidation flags to merge into the flag register; `None` where the
    /// layout needs no invalidation.
    pub invalidate: Option<u32>,
    /// The instruction image; `None` once it has been uploaded.
    pub image: Option<Upload>,
    pub data: Upload,
    pub input: Upload,
    pub registers: Vec<RegisterWrite>,
}

/// Length of `s` without its trailing zero bytes.
pub open spec fn trimmed_len(s: Seq<u8>) -> nat
    decreases s.len(),
{
    if s.len() == 0 {
        0
    } else if s.last() != 0 {
        s.len()
    } else {
        trimmed_len(s.drop_last())
    }
}

/// `s` followed by zero bytes up to length `len`.
pub open spec fn padded(s: Seq<u8>, len: int) -> Seq<u8> {
    Seq::new(
        len as nat,
        |i: int|
            if i < s.len() {
                s[i]
            } else {
                0u8
            },
    )
}

/// The error, if any, with which the lengths of a run's images and input are
/// refused.
pub open spec fn length_error(
    desc: PEDesc,
    instmem: Seq<u8>,
    datamem: Seq<u8>,
    input: Seq<u8>,
) -> Option<TapascoRunError> {
    let capacity = desc.memconf.datamem_size_phys_without_stack as int;
    if align_up16(datamem.len() as int) > capacity {
        Some(TapascoRunError::ProgramOrDataTooLarge)
    } else if !desc.instmem_initialized && trimmed_len(instmem) > desc.memconf.instmem_size_phys {
        Some(TapascoRunError::ProgramOrDataTooLarge)
    } else if align_up16(input.len() as int) > capacity - align_up16(datamem.len() as int) {
        Some(TapascoRunError::InputTooLarge)
    } else {
        None
    }
}

/// The error, if any, with which a run is refused before anything is sent.
pub open spec fn dispatch_error(
    desc: PEDesc,
    instmem: Seq<u8>,
    datamem: Seq<u8>,
    input: Seq<u8>,
) -> Option<TapascoRunError> {
    match length_error(desc, instmem, datamem, input) {
        Some(e) => Some(e),
        None => if !desc.pe.local_memory {
            Some(TapascoRunError::TapascoJob { source: JobError::NoLocalMemory })
        } else {
            None
        },
    }
}

/// Offset of the input within the data memory: the highest multiple of 16
/// that leaves room for the input below the end of the usable data memory.
pub open spec fn input_offset(desc: PEDesc, input_len: int) -> int {
    align_down16(desc.memconf.datamem_size_phys_without_stack - input_len)
}

/// The invalidation flags asked for before a run: the data cache always,
/// instruction cache and branch predictor with a new instruction image.
pub open spec fn invalidate_flags(desc: PEDesc) -> u32 {
    if desc.instmem_initialized {
        PE_INVFLAG_DCACHE
    } else {
        0x7
    }
}

/// The memory that holds the program of `desc`.
pub open spec fn memory_path(desc: PEDesc) -> MemoryPath {
    if desc.dram_allocation is Some {
        MemoryPath::OffChip
    } else {
        MemoryPath::Local
    }
}

/// The bitmap region to reserve: none for the baseline element, none where
/// the bitmap comes over the off-chip path.
pub open spec fn bitmap_region(desc: PEDesc) -> Option<(u64, u64)> {
    if !desc.is_regular_tapascoriscv && !desc.memconf.bitmap_via_dram_dma {
        Some((desc.memconf.bitmap_bram_size as u64, desc.memconf.bitmap_bram_addr as u64))
    } else {
        None
    }
}

/// The registers of a run, in the order in which they are written.
pub open spec fn register_writes(
    desc: PEDesc,
    task_id: u32,
    input_len: int,
    bitmap_len: u32,
    timeout_cycles: u64,
    ignore_addresses_min: u32,
) -> Seq<RegisterWrite> {
    let common = seq![
        RegisterWrite { index: 0, value: ArgValue::Single32(task_id), required: true },
        RegisterWrite { index: 1, value: ArgValue::Single32(input_len as u32), required: true },
        RegisterWrite {
            index: 2,
            value: ArgValue::Single32(
                (desc.memconf.datamem_addr_virt + input_offset(desc, input_len)) as u32,
            ),
            required: true,
        },
        RegisterWrite { index: 3, value: ArgValue::Single32(bitmap_len), required: true },
    ];
    let timeout = seq![
        RegisterWrite { index: 5, value: ArgValue::Single64(timeout_cycles), required: true },
    ];
    let region = seq![
        RegisterWrite {
            index: 8,
            value: ArgValue::Single32(desc.region_index() as u32),
            required: true,
        },
    ];
    let filter = seq![
        RegisterWrite {
            index: 10,
            value: ArgValue::Single32(ignore_addresses_min),
            required: false,
        },
        RegisterWrite { index: 11, value: ArgValue::Single32(0), required: false },
    ];
    if desc.is_regular_tapascoriscv {
        common
    } else if desc.dram_allocation is Some {
        common + timeout + region + filter
    } else {
        common + timeout + filter
    }
}

/// Whether `plan` is what a run with these arguments sends to `desc`.
pub open spec fn plan_matches(
    plan: DispatchPlan,
    desc: PEDesc,
    task_id: u32,
    instmem: Seq<u8>,
    datamem: Seq<u8>,
    input: Seq<u8>,
    ignore_addresses_min: u32,
    bitmap_len: u32,
    timeout_cycles: u64,
) -> bool {
    let capacity = desc.memconf.datamem_size_phys_without_stack as int;
    let offset = input_offset(desc, input.len() as int);
    &&& plan.path == memory_path(desc)
    &&& plan.bitmap_region == bitmap_region(desc)
    &&& plan.invalidate == if desc.memconf.invalidate_caches {
        Some(invalidate_flags(desc))
    } else {
        None
    }
    &&& match plan.image {
        Some(image) => {
            &&& !desc.instmem_initialized
            &&& image.addr == desc.base() + desc.memconf.instmem_offs_phys
            &&& image.data@ == instmem.take(
                if instmem.len() <= desc.memconf.instmem_size_phys {
                    instmem.len() as int
                } else {
                    desc.memconf.instmem_size_phys as int
                },
            )
        },
        None => desc.instmem_initialized,
    }
    &&& plan.data.addr == desc.base() + desc.memconf.datamem_offs_phys
    &&& plan.data.data@ == padded(datamem, align_up16(datamem.len() as int))
    &&& plan.input.addr == desc.base() + desc.memconf.datamem_offs_phys + offset
    &&& plan.input.data@ == padded(input, capacity - offset)
    &&& plan.registers@ == register_writes(
        desc,
        task_id,
        input.len() as int,
        bitmap_len,
        timeout_cycles,
        ignore_addresses_min,
    )
}

/// Length of the instruction image without the zero bytes at its end, which
/// are taken for padding.
pub fn trimmed_length(s: &[u8]) -> (r: usize)
    ensures
        r == trimmed_len(s@),
        r <= s.len(),
{
    let mut n: usize = s.len();
    assert(s@.take(n as int) == s@);
    while n > 0 && s[n - 1] == 0
        invariant
            n <= s.len(),
            trimmed_len(s@) == trimmed_len(s@.take(n as int)),
        decreases n,
    {
        assert(s@.take(n as int).drop_last() == s@.take(n as int - 1));
        n = n - 1;
    }
    assert(n > 0 ==> s@.take(n as int).last() == s@[n as int - 1]);
    n
}

/// Copies `src` and fills up with zero bytes to length `len`.
pub fn padded_copy(src: &[u8], len: usize) -> (r: Vec<u8>)
    requires
        src.len() <= len,
    ensures
        r@ == padded(src@, len as int),
{
    let mut out: Vec<u8> = Vec::with_capacity(len);
    let mut i: usize = 0;
    while i < len
        invariant
            i <= len,
            src.len() <= len,
            out@ == padded(src@, i as int),
        decreases len - i,
    {
        let byte: u8 = if i < src.len() {
            src[i]
        } else {
            0
        };
        out.push(byte);
        i = i + 1;
        assert(out@ =~= padded(src@, i as int));
    }
    out
}

/// Checks that data image, instruction image and input fit the element.
pub fn check_lengths(desc: &PEDesc, instmem: &[u8], datamem: &[u8], input: &[u8]) -> (r: Result<
    (),
    TapascoRunError,
>)
    ensures
        r matches Err(e) ==> length_error(*desc, instmem@, datamem@, input@) == Some(e),
        r is Ok <==> length_error(*desc, instmem@, datamem@, input@) is None,
{
    let capacity: usize = desc.memconf.datamem_size_phys_without_stack;
    let data_len: usize = match round_up16(datamem.len()) {
        Some(v) => v,
        None => {
            return Err(TapascoRunError::ProgramOrDataTooLarge);
        },
    };
    if data_len > capacity {
        return Err(TapascoRunError::ProgramOrDataTooLarge);
    }
    if !desc.instmem_initialized {
        if trimmed_length(instmem) > desc.memconf.instmem_size_phys {
            return Err(TapascoRunError::ProgramOrDataTooLarge);
        }
    }
    match round_up16(input.len()) {
        Some(input_len) => {
            if input_len > capacity - data_len {
                return Err(TapascoRunError::InputTooLarge);
            }
        },
        None => {
            return Err(TapascoRunError::InputTooLarge);
        },
    }
    Ok(())
}

/// Lists the registers of a run in the order in which they are written.
pub fn plan_registers(
    desc: &PEDesc,
    task_id: u32,
    input_len: usize,
    bitmap_len: u32,
    timeout_cycles: u64,
    ignore_addresses_min: u32,
) -> (r: Vec<RegisterWrite>)
    requires
        desc.wf(),
        input_len <= desc.memconf.datamem_size_phys_without_stack,
    ensures
        r@ == register_writes(
            *desc,
            task_id,
            input_len as int,
            bitmap_len,
            timeout_cycles,
            ignore_addresses_min,
        ),
{
    let capacity: usize = desc.memconf.datamem_size_phys_without_stack;
    let offset: usize = round_down16(capacity - input_len);
    let mut regs: Vec<RegisterWrite> = Vec::new();
    regs.push(RegisterWrite { index: 0, value: ArgValue::Single32(task_id), required: true });
    regs.push(
        RegisterWrite { index: 1, value: ArgValue::Single32(input_len as u32), required: true },
    );
    regs.push(
        RegisterWrite {
            index: 2,
            value: ArgValue::Single32(desc.memconf.datamem_addr_virt + offset as u32),
            required: true,
        },
    );
    regs.push(RegisterWrite { index: 3, value: ArgValue::Single32(bitmap_len), required: true });
    if !desc.is_regular_tapascoriscv {
        regs.push(
            RegisterWrite { index: 5, value: ArgValue::Single64(timeout_cycles), required: true },
        );
        match desc.dram_allocation {
            Some(addr) => {
                assert((addr & 0xff00_0000u64) >> 24 == (addr / 0x100_0000) % 256) by (bit_vector);
                let region: u64 = (addr & crate::memconf::DRAM_REGION_MASK)
                    >> crate::memconf::DRAM_REGION_SHIFT;
                regs.push(
                    RegisterWrite {
                        index: 8,
                        value: ArgValue::Single32(region as u32),
                        required: true,
                    },
                );
            },
            None => {},
        }
        regs.push(
            RegisterWrite {
                index: 10,
                value: ArgValue::Single32(ignore_addresses_min),
                required: false,
            },
        );
        regs.push(RegisterWrite { index: 11, value: ArgValue::Single32(0), required: false });
    }
    assert(regs@ =~= register_writes(
        *desc,
        task_id,
        input_len as int,
        bitmap_len,
        timeout_cycles,
        ignore_addresses_min,
    ));
    regs
}

/// Checks a run against the element's memory and lays out what is sent to
/// the element: the images with the input at the top of the usable data
/// memory, and the register values.
pub fn plan_dispatch(
    desc: &PEDesc,
    task_id: u32,
    instmem: &[u8],
    datamem: &[u8],
    input: &[u8],
    ignore_addresses_min: u32,
    bitmap_len: u32,
    timeout_cycles: u64,
) -> (r: Result<DispatchPlan, TapascoRunError>)
    requires
        desc.wf(),
    ensures
        r matches Err(e) ==> dispatch_error(*desc, instmem@, datamem@, input@) == Some(e),
        r matches Ok(plan) ==> dispatch_error(*desc, instmem@, datamem@, input@) is None
            && plan_matches(
            plan,
            *desc,
            task_id,
            instmem@,
            datamem@,
            input@,
            ignore_addresses_min,
            bitmap_len,
            timeout_cycles,
        ),
{
    match check_lengths(desc, instmem, datamem, input) {
        Err(e) => {
            return Err(e);
        },
        Ok(_) => {},
    }
    if !desc.pe.local_memory {
        return Err(TapascoRunError::TapascoJob { source: JobError::NoLocalMemory });
    }
    let capacity: usize = desc.memconf.datamem_size_phys_without_stack;
    let data_len: usize = (datamem.len() + 15) / 16 * 16;
    let offset: usize = round_down16(capacity - input.len());
    let (path, base) = match desc.dram_allocation {
        Some(addr) => (MemoryPath::OffChip, addr),
        None => (MemoryPath::Local, 0u64),
    };
    let region = if !desc.is_regular_tapascoriscv && !desc.memconf.bitmap_via_dram_dma {
        Some((desc.memconf.bitmap_bram_size as u64, desc.memconf.bitmap_bram_addr as u64))
    } else {
        None
    };
    let invalidate = if desc.memconf.invalidate_caches {
        if desc.instmem_initialized {
            Some(PE_INVFLAG_DCACHE)
        } else {
            assert(0x4u32 | (0x1u32 | 0x2u32) == 0x7u32) by (bit_vector);
            Some(PE_INVFLAG_DCACHE | (PE_INVFLAG_ICACHE | PE_INVFLAG_BP))
        }
    } else {
        None
    };
    let image = if desc.instmem_initialized {
        None
    } else {
        let copy_len: usize = if instmem.len() <= desc.memconf.instmem_size_phys {
            instmem.len()
        } else {
            desc.memconf.instmem_size_phys
        };
        let part = vstd::slice::slice_subrange(instmem, 0, copy_len);
        let bytes = padded_copy(part, copy_len);
        assert(bytes@ =~= instmem@.take(copy_len as int));
        Some(Upload { addr: base + desc.memconf.instmem_offs_phys as u64, data: bytes })
    };
    let data = Upload {
        addr: base + desc.memconf.datamem_offs_phys as u64,
        data: padded_copy(datamem, data_len),
    };
    let input_upload = Upload {
        addr: base + desc.memconf.datamem_offs_phys as u64 + offset as u64,
        data: padded_copy(input, capacity - offset),
    };
    let registers = plan_registers(
        desc,
        task_id,
        input.len(),
        bitmap_len,
        timeout_cycles,
        ignore_addresses_min,
    );
    Ok(DispatchPlan { path, bitmap_region: region, invalidate, image, data, input: input_upload, registers })
}

/// A data image whose length, rounded up to a multiple of 16, is at most the
/// usable data memory is accepted, also where it fills that memory exactly;
/// a longer one is refused as too large.
pub proof fn lemma_data_image_limit(
    desc: PEDesc,
    instmem: Seq<u8>,
    datamem: Seq<u8>,
    input: Seq<u8>,
)
    requires
        desc.instmem_initialized || trimmed_len(instmem) <= desc.memconf.instmem_size_phys,
        input.len() == 0,
    ensures
        align_up16(datamem.len() as int) <= desc.memconf.datamem_size_phys_without_stack
            ==> length_error(desc, instmem, datamem, input) is None,
        align_up16(datamem.len() as int) > desc.memconf.datamem_size_phys_without_stack
            ==> length_error(desc, instmem, datamem, input) == Some(
            TapascoRunError::ProgramOrDataTooLarge,
        ),
        datamem.len() > desc.memconf.datamem_size_phys_without_stack ==> length_error(
            desc,
            instmem,
            datamem,
            input,
        ) == Some(TapascoRunError::ProgramOrDataTooLarge),
{
}

/// With images that fit, an input is refused as too large exactly when its
/// length, rounded up to a multiple of 16, exceeds the usable data memory
/// that the data image leaves.
pub proof fn lemma_input_limit(desc: PEDesc, instmem: Seq<u8>, datamem: Seq<u8>, input: Seq<u8>)
    requires
        desc.instmem_initialized || trimmed_len(instmem) <= desc.memconf.instmem_size_phys,
        align_up16(datamem.len() as int) <= desc.memconf.datamem_size_phys_without_stack,
    ensures
        align_up16(input.len() as int) > desc.memconf.datamem_size_phys_without_stack
            - align_up16(datamem.len() as int) ==> length_error(desc, instmem, datamem, input)
            == Some(TapascoRunError::InputTooLarge),
        align_up16(input.len() as int) <= desc.memconf.datamem_size_phys_without_stack
            - align_up16(datamem.len() as int) ==> length_error(desc, instmem, datamem, input)
            is None,
{
}

/// The input that a plan uploads ends exactly at the end of the usable data
/// memory, starts at a multiple of 16 and is preceded by fewer than 16 bytes
/// of slack.
pub proof fn lemma_input_at_top(desc: PEDesc, input_len: int)
    requires
        0 <= input_len <= desc.memconf.datamem_size_phys_without_stack,
    ensures
        input_offset(desc, input_len) % 16 == 0,
        0 <= input_offset(desc, input_len),
        input_offset(desc, input_len) + input_len
            <= desc.memconf.datamem_size_phys_without_stack,
        desc.memconf.datamem_size_phys_without_stack - (input_offset(desc, input_len) + input_len)
            < 16,
{
}

} // verus!
