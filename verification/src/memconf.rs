//! Memory layouts of the supported processing elements.

use vstd::prelude::*;

verus! {

/// Size of the instruction part of a program image on disk.
pub const INSTMEM_SIZE: usize = 0x80_0000;

/// Size of the data part of a program image on disk.
pub const DATAMEM_SIZE: usize = 0x80_0000;

/// Off-chip memory is handed to an element in regions of `2^24` bytes.
pub const DRAM_REGION_SHIFT: u32 = 24;

/// Size of one off-chip region.
pub const DRAM_REGION_SIZE: u32 = 0x100_0000;

/// The bits of an off-chip address that select the region.
pub const DRAM_REGION_MASK: u64 = 0xff00_0000;

/// Invalidation request: instruction cache.
pub const PE_INVFLAG_ICACHE: u32 = 0x1;

/// Invalidation request: branch predictor.
pub const PE_INVFLAG_BP: u32 = 0x2;

/// Invalidation request: data cache.
pub const PE_INVFLAG_DCACHE: u32 = 0x4;

/// `n` rounded up to the next multiple of 16.
pub open spec fn align_up16(n: int) -> int {
    (n + 15) / 16 * 16
}

/// `n` rounded down to a multiple of 16.
pub open spec fn align_down16(n: int) -> int {
    n / 16 * 16
}

/// Where an element keeps program, data and bitmap, and how they are reached.
#[derive(Clone, Copy, Debug, PartialEq, Eq, Structural)]
pub struct PEMemConfig {
    /// Caches must be invalidated between runs.
    pub invalidate_caches: bool,
    /// Physical offset of the instruction memory.
    pub instmem_offs_phys: u32,
    /// Physical size of the instruction memory.
    pub instmem_size_phys: usize,
    /// Physical offset of the data memory.
    pub datamem_offs_phys: u32,
    /// Data memory that program data and input may use; the rest is stack.
    pub datamem_size_phys_without_stack: usize,
    /// Physical size of the data memory.
    pub datamem_size_phys: usize,
    /// Address at which the running program sees its data memory.
    pub datamem_addr_virt: u32,
    /// The bitmap is fetched over the off-chip DMA path.
    pub bitmap_via_dram_dma: bool,
    /// Address of the bitmap.
    pub bitmap_bram_addr: u32,
    /// Capacity of the bitmap in bytes; 0 where the element has none.
    pub bitmap_bram_size: u32,
}

impl PEMemConfig {
    /// The instruction memory lies below the data memory, every region lies
    /// within the 32-bit address range of the element, the usable data memory
    /// is part of the data memory, and the program can address the end of it.
    pub open spec fn wf(self) -> bool {
        &&& self.instmem_offs_phys + self.instmem_size_phys <= self.datamem_offs_phys
        &&& self.datamem_offs_phys + self.datamem_size_phys <= 0x1_0000_0000
        &&& self.datamem_size_phys_without_stack <= self.datamem_size_phys
        &&& self.datamem_addr_virt + self.datamem_size_phys_without_stack <= u32::MAX
        &&& self.bitmap_bram_addr + self.bitmap_bram_size <= 0x1_0000_0000
    }

    /// The element has no bitmap hardware at all.
    pub open spec fn bitmap_disabled(self) -> bool {
        self.bitmap_bram_size == 0
    }

    /// Bytes of off-chip memory that an element with this layout needs: the
    /// end of the data memory, or the end of the bitmap where that lies
    /// beyond it and the bitmap goes over the off-chip path.
    pub open spec fn dram_alloc_size(self) -> int {
        let data_end = self.datamem_offs_phys + self.datamem_size_phys;
        let bitmap_end = self.bitmap_bram_addr + self.bitmap_bram_size;
        if self.bitmap_via_dram_dma && bitmap_end > data_end {
            bitmap_end
        } else {
            data_end
        }
    }

    /// Off-chip memory: a 16 MiB section with 1 MiB of instruction memory and
    /// 8 MiB of data memory, 32 KiB of it stack.
    pub open spec fn spec_dram() -> Self {
        PEMemConfig {
            invalidate_caches: true,
            instmem_offs_phys: 0,
            instmem_size_phys: 0x10_0000,
            datamem_offs_phys: 0x80_0000,
            datamem_size_phys_without_stack: 0x7f_8000,
            datamem_size_phys: 0x80_0000,
            datamem_addr_virt: 0x4080_0000,
            bitmap_via_dram_dma: false,
            bitmap_bram_addr: 0x2_0000,
            bitmap_bram_size: 0x2000,
        }
    }

    /// High-bandwidth memory: as off-chip memory, reached through the
    /// element's local memory interface.
    pub open spec fn spec_hbm() -> Self {
        PEMemConfig { bitmap_bram_addr: 0x100_0000, ..Self::spec_dram() }
    }

    /// On-chip memory: 64 KiB each of instruction and data memory, 4 KiB of
    /// the latter stack.
    pub open spec fn spec_bram() -> Self {
        PEMemConfig {
            invalidate_caches: false,
            instmem_offs_phys: 0,
            instmem_size_phys: 0x1_0000,
            datamem_offs_phys: 0x1_0000,
            datamem_size_phys_without_stack: 0xf000,
            datamem_size_phys: 0x1_0000,
            datamem_addr_virt: 0x4080_0000,
            bitmap_via_dram_dma: false,
            bitmap_bram_addr: 0x2_0000,
            bitmap_bram_size: 0x2000,
        }
    }

    /// On-chip memory reached over the off-chip DMA path.
    pub open spec fn spec_bram_dma() -> Self {
        PEMemConfig { bitmap_via_dram_dma: true, ..Self::spec_bram() }
    }

    /// The baseline element without fuzzing registers: on-chip memory, no
    /// bitmap.
    pub open spec fn spec_bram_tapascoriscv() -> Self {
        PEMemConfig { datamem_addr_virt: 0x80_0000, bitmap_bram_size: 0, ..Self::spec_bram() }
    }

    /// The layout of an element backed by off-chip memory.
    pub fn dram() -> (r: Self)
        ensures
            r == Self::spec_dram(),
            r.wf(),
    {
        PEMemConfig {
            invalidate_caches: true,
            instmem_offs_phys: 0,
            instmem_size_phys: 0x10_0000,
            datamem_offs_phys: 0x80_0000,
            datamem_size_phys_without_stack: 0x7f_8000,
            datamem_size_phys: 0x80_0000,
            datamem_addr_virt: 0x4080_0000,
            bitmap_via_dram_dma: false,
            bitmap_bram_addr: 0x2_0000,
            bitmap_bram_size: 0x2000,
        }
    }

    /// The layout of an element backed by high-bandwidth memory.
    pub fn hbm() -> (r: Self)
        ensures
            r == Self::spec_hbm(),
            r.wf(),
    {
        let mut conf = Self::dram();
        conf.bitmap_bram_addr = 0x100_0000;
        conf
    }

    /// The layout of an element with on-chip memory.
    pub fn bram() -> (r: Self)
        ensures
            r == Self::spec_bram(),
            r.wf(),
    {
        PEMemConfig {
            invalidate_caches: false,
            instmem_offs_phys: 0,
            instmem_size_phys: 0x1_0000,
            datamem_offs_phys: 0x1_0000,
            datamem_size_phys_without_stack: 0xf000,
            datamem_size_phys: 0x1_0000,
            datamem_addr_virt: 0x4080_0000,
            bitmap_via_dram_dma: false,
            bitmap_bram_addr: 0x2_0000,
            bitmap_bram_size: 0x2000,
        }
    }

    /// The layout of an element with on-chip memory that is reached over the
    /// off-chip DMA path.
    pub fn bram_dma() -> (r: Self)
        ensures
            r == Self::spec_bram_dma(),
            r.wf(),
    {
        let mut conf = Self::bram();
        conf.bitmap_via_dram_dma = true;
        conf
    }

    /// The layout of the baseline element.
    pub fn bram_tapascoriscv() -> (r: Self)
        ensures
            r == Self::spec_bram_tapascoriscv(),
            r.wf(),
            r.bitmap_disabled(),
    {
        let mut conf = Self::bram();
        conf.datamem_addr_virt = 0x80_0000;
        conf.bitmap_bram_size = 0;
        conf
    }

    /// Checks the layout's well-formedness.
    pub fn is_valid(&self) -> (r: bool)
        ensures
            r == self.wf(),
    {
        let limit: u64 = 0x1_0000_0000;
        let inst_size: u64 = self.instmem_size_phys as u64;
        let data_size: u64 = self.datamem_size_phys as u64;
        let usable: u64 = self.datamem_size_phys_without_stack as u64;
        self.instmem_offs_phys <= self.datamem_offs_phys
            && inst_size <= (self.datamem_offs_phys - self.instmem_offs_phys) as u64
            && data_size <= limit - self.datamem_offs_phys as u64
            && usable <= data_size
            && usable <= (u32::MAX - self.datamem_addr_virt) as u64
            && self.bitmap_bram_size as u64 <= limit - self.bitmap_bram_addr as u64
    }

    /// Bytes of off-chip memory to allocate for an element with this layout.
    pub fn alloc_size(&self) -> (r: u64)
        requires
            self.wf(),
        ensures
            r == self.dram_alloc_size(),
    {
        let data_end: u64 = self.datamem_offs_phys as u64 + self.datamem_size_phys as u64;
        let bitmap_end: u64 = self.bitmap_bram_addr as u64 + self.bitmap_bram_size as u64;
        if self.bitmap_via_dram_dma && bitmap_end > data_end {
            bitmap_end
        } else {
            data_end
        }
    }
}

/// Rounds a length up to the next multiple of 16; `None` where that does not
/// fit the machine word.
pub fn round_up16(n: usize) -> (r: Option<usize>)
    ensures
        r matches Some(v) ==> v == align_up16(n as int),
        r is None <==> align_up16(n as int) > usize::MAX,
{
    if n > usize::MAX - 15 {
        None
    } else {
        Some((n + 15) / 16 * 16)
    }
}

/// Rounds a length down to a multiple of 16.
pub fn round_down16(n: usize) -> (r: usize)
    ensures
        r == align_down16(n as int),
        r <= n,
        n - r < 16,
{
    n / 16 * 16
}

/// Rounding up to a multiple of 16 adds less than 16 and gives a multiple of
/// 16; rounding down takes less than 16 away.
pub proof fn lemma_align16(n: int)
    requires
        n >= 0,
    ensures
        n <= align_up16(n) < n + 16,
        align_up16(n) % 16 == 0,
        n - 16 < align_down16(n) <= n,
        align_down16(n) % 16 == 0,
        n % 16 == 0 ==> align_up16(n) == n && align_down16(n) == n,
{
}

} // verus!
