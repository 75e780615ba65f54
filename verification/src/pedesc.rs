//! Descriptor of one processing element.

use vstd::prelude::*;
use crate::memconf::PEMemConfig;

verus! {

/// What the host knows of an element of the device: a number by which the
/// device access layer finds it again, and whether it has local memory.
#[derive(Clone, Copy, Debug, PartialEq, Eq, Structural)]
pub struct PeHandle {
    pub id: u64,
    pub local_memory: bool,
}

/// One processing element with its memory layout and session state. A
/// descriptor is moved to whoever runs on the element, never copied.
#[derive(Debug, PartialEq, Eq, Structural)]
pub struct PEDesc {
    pub pe: PeHandle,
    pub memconf: PEMemConfig,
    /// Address of the off-chip memory allocated to the element for its
    /// lifetime, where it is backed by off-chip memory.
    pub dram_allocation: Option<u64>,
    /// The instruction image has been uploaded and is not uploaded again.
    pub instmem_initialized: bool,
    /// The element is the baseline variant without bitmap and timeout
    /// registers.
    pub is_regular_tapascoriscv: bool,
}

impl PEDesc {
    /// The layout is well-formed, the off-chip allocation, if any, ends
    /// within the 64-bit address range, and there is one where the bitmap
    /// comes over the off-chip path.
    pub open spec fn wf(self) -> bool {
        &&& self.memconf.wf()
        &&& self.dram_allocation matches Some(addr) ==> addr + self.memconf.dram_alloc_size()
            <= u64::MAX
        &&& self.memconf.bitmap_via_dram_dma ==> self.dram_allocation is Some
    }

    /// The off-chip allocation starts at a region boundary below 4 GiB.
    pub open spec fn aligned(self) -> bool {
        self.dram_allocation matches Some(addr) ==> addr % 0x100_0000 == 0 && addr < 0x1_0000_0000
    }

    /// The descriptor of a fuzzing element that has not run yet.
    pub open spec fn fresh(pe: PeHandle, memconf: PEMemConfig, dram: Option<u64>) -> Self {
        PEDesc {
            pe,
            memconf,
            dram_allocation: dram,
            instmem_initialized: false,
            is_regular_tapascoriscv: false,
        }
    }

    /// Describes a fuzzing element; `dram` is the off-chip memory allocated
    /// for it.
    pub fn new(pe: PeHandle, memconf: PEMemConfig, dram: Option<u64>) -> (r: Self)
        ensures
            r == Self::fresh(pe, memconf, dram),
    {
        PEDesc {
            pe,
            memconf,
            dram_allocation: dram,
            instmem_initialized: false,
            is_regular_tapascoriscv: false,
        }
    }

    /// Describes a baseline element.
    pub fn new_tapascoriscv(pe: PeHandle, memconf: PEMemConfig) -> (r: Self)
        ensures
            r == (PEDesc { is_regular_tapascoriscv: true, ..Self::fresh(pe, memconf, None) }),
    {
        let mut desc = Self::new(pe, memconf, None);
        desc.is_regular_tapascoriscv = true;
        desc
    }

    /// Ends the descriptor's life and hands out the off-chip memory that was
    /// allocated to it, to be given back to the device.
    pub fn into_allocation(self) -> (r: Option<u64>)
        ensures
            r == self.dram_allocation,
    {
        self.dram_allocation
    }

    /// Checks well-formedness.
    pub fn is_valid(&self) -> (r: bool)
        ensures
            r == self.wf(),
    {
        if !self.memconf.is_valid() {
            return false;
        }
        match self.dram_allocation {
            Some(addr) => addr <= u64::MAX - self.memconf.alloc_size(),
            None => !self.memconf.bitmap_via_dram_dma,
        }
    }

    /// Checks that the off-chip allocation starts at a region boundary.
    pub fn is_aligned(&self) -> (r: bool)
        ensures
            r == self.aligned(),
    {
        match self.dram_allocation {
            Some(addr) => {
                assert((addr & !0xff00_0000u64 == 0) == (addr % 0x100_0000 == 0 && addr
                    < 0x1_0000_0000)) by (bit_vector);
                addr & !crate::memconf::DRAM_REGION_MASK == 0
            },
            None => true,
        }
    }

    /// The base address of the memory that holds the program: the off-chip
    /// allocation, or 0 for local memory.
    pub open spec fn base(self) -> int {
        match self.dram_allocation {
            Some(addr) => addr as int,
            None => 0,
        }
    }

    /// The off-chip region that the allocation lies in.
    pub open spec fn region_index(self) -> int {
        (self.base() / 0x100_0000) % 256
    }
}

} // verus!
