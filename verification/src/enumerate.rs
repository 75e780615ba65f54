//! Which elements of the devices can be used: the hardware components that
//! the host recognises, and the descriptors made of what a scan of the
//! devices found.

use vstd::prelude::*;
use crate::error::{DeviceFailure, TapascoRunError};
use crate::memconf::PEMemConfig;
use crate::pedesc::{PEDesc, PeHandle};

verus! {

/// Identifier of the fuzzing element backed by off-chip memory.
pub const FUZZER_DRAM_PE: &'static str = "esa.informatik.tu-darmstadt.de:fuzzer:cva5_pe_fuzzer:1.0";

/// Identifier of the fuzzing element with on-chip memory.
pub const FUZZER_BRAM_PE: &'static str =
    "esa.informatik.tu-darmstadt.de:fuzzer:cva5_bram_pe_fuzzer:1.0";

/// Identifier of the fuzzing element backed by high-bandwidth memory.
pub const FUZZER_HBM_PE: &'static str =
    "esa.informatik.tu-darmstadt.de:fuzzer:cva5_hbm_pe_fuzzer:1.0";

/// Identifier of the baseline element.
pub const TAPASCORISCV_PE: &'static str = "esa.informatik.tu-darmstadt.de:tapasco:cva5_pe:1.0";

/// The kinds of element that the host can use, in the order in which a
/// device is asked for them.
#[derive(Clone, Copy, Debug, PartialEq, Eq, Structural)]
pub enum PeKind {
    Dram,
    Bram,
    Hbm,
    TapascoRiscv,
}

impl PeKind {
    /// The memory layout of elements of this kind.
    pub open spec fn spec_memconf(self) -> PEMemConfig {
        match self {
            PeKind::Dram => PEMemConfig::spec_dram(),
            PeKind::Bram => PEMemConfig::spec_bram(),
            PeKind::Hbm => PEMemConfig::spec_hbm(),
            PeKind::TapascoRiscv => PEMemConfig::spec_bram_tapascoriscv(),
        }
    }

    /// The identifier under which a device lists elements of this kind.
    pub fn identifier(self) -> (r: &'static str)
        ensures
            r@ == match self {
                PeKind::Dram => FUZZER_DRAM_PE@,
                PeKind::Bram => FUZZER_BRAM_PE@,
                PeKind::Hbm => FUZZER_HBM_PE@,
                PeKind::TapascoRiscv => TAPASCORISCV_PE@,
            },
    {
        match self {
            PeKind::Dram => FUZZER_DRAM_PE,
            PeKind::Bram => FUZZER_BRAM_PE,
            PeKind::Hbm => FUZZER_HBM_PE,
            PeKind::TapascoRiscv => TAPASCORISCV_PE,
        }
    }

    /// The memory layout of elements of this kind.
    pub fn memconf(self) -> (r: PEMemConfig)
        ensures
            r == self.spec_memconf(),
            r.wf(),
    {
        match self {
            PeKind::Dram => PEMemConfig::dram(),
            PeKind::Bram => PEMemConfig::bram(),
            PeKind::Hbm => PEMemConfig::hbm(),
            PeKind::TapascoRiscv => PEMemConfig::bram_tapascoriscv(),
        }
    }
}

/// An element that a scan found. `dram` is the off-chip memory allocated
/// for it; it counts for elements backed by off-chip memory only.
#[derive(Clone, Copy, Debug, PartialEq, Eq, Structural)]
pub struct FoundPe {
    pub pe: PeHandle,
    pub dram: u64,
}

/// What asking a device for the elements of one kind gave: the elements
/// acquired, and the failure that ended the scan, if one did.
#[derive(Clone, Debug, PartialEq, Eq)]
pub struct KindScan {
    pub found: Vec<FoundPe>,
    pub error: Option<DeviceFailure>,
}

/// What a device gave.
#[derive(Clone, Debug, PartialEq, Eq)]
pub enum DeviceScan {
    /// The device could not be taken into exclusive use, or has no memory.
    Unavailable(DeviceFailure),
    /// The device was asked for the elements of each kind.
    Scanned { dram: KindScan, bram: KindScan, hbm: KindScan, tapascoriscv: KindScan },
}

/// The descriptor of an element of the given kind.
pub open spec fn desc_of(kind: PeKind, found: FoundPe) -> PEDesc {
    match kind {
        PeKind::Dram => PEDesc::fresh(found.pe, kind.spec_memconf(), Some(found.dram)),
        PeKind::TapascoRiscv => PEDesc {
            is_regular_tapascoriscv: true,
            ..PEDesc::fresh(found.pe, kind.spec_memconf(), None)
        },
        _ => PEDesc::fresh(found.pe, kind.spec_memconf(), None),
    }
}

/// The descriptors of the elements that one scan found.
pub open spec fn descs_of_kind(kind: PeKind, scan: KindScan) -> Seq<PEDesc> {
    Seq::new(scan.found@.len(), |i: int| desc_of(kind, scan.found@[i]))
}

/// The descriptors of the elements of one device, kind by kind.
pub open spec fn descs_of_device(scan: DeviceScan) -> Seq<PEDesc> {
    match scan {
        DeviceScan::Unavailable(_) => Seq::empty(),
        DeviceScan::Scanned { dram, bram, hbm, tapascoriscv } => descs_of_kind(PeKind::Dram, dram)
            + descs_of_kind(PeKind::Bram, bram) + descs_of_kind(PeKind::Hbm, hbm) + descs_of_kind(
            PeKind::TapascoRiscv,
            tapascoriscv,
        ),
    }
}

/// The descriptors of the elements of the first `n` devices.
pub open spec fn descs_of(scans: Seq<DeviceScan>, n: int) -> Seq<PEDesc>
    decreases n,
{
    if n <= 0 {
        Seq::empty()
    } else {
        descs_of(scans, n - 1) + descs_of_device(scans[n - 1])
    }
}

/// The failure that a device is remembered for: that of the last kind asked
/// for, where the device could be asked for no kind without a failure.
pub open spec fn device_error(scan: DeviceScan) -> Option<DeviceFailure> {
    match scan {
        DeviceScan::Unavailable(_) => None,
        DeviceScan::Scanned { dram, bram, hbm, tapascoriscv } => if dram.error is Some
            && bram.error is Some && hbm.error is Some {
            tapascoriscv.error
        } else {
            None
        },
    }
}

/// The failure of the last of the first `n` devices that is remembered for
/// one.
pub open spec fn last_error(scans: Seq<DeviceScan>, n: int) -> Option<DeviceFailure>
    decreases n,
{
    if n <= 0 {
        None
    } else {
        match device_error(scans[n - 1]) {
            Some(e) => Some(e),
            None => last_error(scans, n - 1),
        }
    }
}

/// Index of the first of the devices from `from` on that is unavailable.
pub open spec fn first_unavailable(scans: Seq<DeviceScan>, from: int) -> Option<int>
    decreases scans.len() - from,
{
    if from < 0 || from >= scans.len() {
        None
    } else if scans[from] is Unavailable {
        Some(from)
    } else {
        first_unavailable(scans, from + 1)
    }
}

/// What a scan of the devices comes to: the failure of the first device
/// that is unavailable; else the descriptors of all elements found; and
/// where there is none, an error of its own with the last failure met.
pub open spec fn scan_result(scans: Seq<DeviceScan>) -> Result<Seq<PEDesc>, TapascoRunError> {
    match first_unavailable(scans, 0) {
        Some(i) => Err(TapascoRunError::TapascoDevice { source: scans[i]->Unavailable_0 }),
        None => if descs_of(scans, scans.len() as int).len() == 0 {
            Err(
                TapascoRunError::TapascoPENotFound {
                    last: last_error(scans, scans.len() as int),
                },
            )
        } else {
            Ok(descs_of(scans, scans.len() as int))
        },
    }
}

fn copy_failure(failure: &DeviceFailure) -> (r: DeviceFailure)
    ensures
        r == *failure,
{
    DeviceFailure { message: failure.message.clone() }
}

fn push_kind(pes: &mut Vec<PEDesc>, kind: PeKind, scan: &KindScan)
    ensures
        final(pes)@ == old(pes)@ + descs_of_kind(kind, *scan),
{
    let memconf = kind.memconf();
    let mut i: usize = 0;
    while i < scan.found.len()
        invariant
            i <= scan.found@.len(),
            memconf == kind.spec_memconf(),
            pes@ == old(pes)@ + descs_of_kind(kind, *scan).take(i as int),
        decreases scan.found@.len() - i,
    {
        let found = scan.found[i];
        let desc = match kind {
            PeKind::Dram => PEDesc::new(found.pe, memconf, Some(found.dram)),
            PeKind::TapascoRiscv => PEDesc::new_tapascoriscv(found.pe, memconf),
            _ => PEDesc::new(found.pe, memconf, None),
        };
        pes.push(desc);
        i = i + 1;
        assert(pes@ =~= old(pes)@ + descs_of_kind(kind, *scan).take(i as int));
    }
    assert(descs_of_kind(kind, *scan).take(i as int) =~= descs_of_kind(kind, *scan));
}

/// Makes the descriptors of all supported elements that a scan of the
/// devices found.
pub fn get_pes(scans: &Vec<DeviceScan>) -> (r: Result<Vec<PEDesc>, TapascoRunError>)
    ensures
        r matches Ok(pes) ==> scan_result(scans@) == Ok::<Seq<PEDesc>, TapascoRunError>(pes@),
        r matches Err(e) ==> scan_result(scans@) == Err::<Seq<PEDesc>, TapascoRunError>(e),
{
    let mut pes: Vec<PEDesc> = Vec::new();
    let mut last: Option<DeviceFailure> = None;
    let mut i: usize = 0;
    while i < scans.len()
        invariant
            i <= scans@.len(),
            first_unavailable(scans@, 0) == first_unavailable(scans@, i as int),
            pes@ == descs_of(scans@, i as int),
            last == last_error(scans@, i as int),
        decreases scans@.len() - i,
    {
        match &scans[i] {
            DeviceScan::Unavailable(failure) => {
                return Err(TapascoRunError::TapascoDevice { source: copy_failure(failure) });
            },
            DeviceScan::Scanned { dram, bram, hbm, tapascoriscv } => {
                push_kind(&mut pes, PeKind::Dram, dram);
                push_kind(&mut pes, PeKind::Bram, bram);
                push_kind(&mut pes, PeKind::Hbm, hbm);
                push_kind(&mut pes, PeKind::TapascoRiscv, tapascoriscv);
                if dram.error.is_some() && bram.error.is_some() && hbm.error.is_some() {
                    match &tapascoriscv.error {
                        Some(failure) => {
                            last = Some(copy_failure(failure));
                        },
                        None => {},
                    }
                }
                assert(pes@ =~= descs_of(scans@, i as int) + descs_of_device(scans@[i as int]));
            },
        }
        i = i + 1;
    }
    if pes.len() == 0 {
        return Err(TapascoRunError::TapascoPENotFound { last });
    }
    Ok(pes)
}

/// All the pools that the elements are split across: a single one.
pub fn create_dispatchers(pes: Vec<PEDesc>) -> (r: Result<
    Vec<crate::pool::TapascoDispatcher>,
    TapascoRunError,
>)
    requires
        forall|i: int| 0 <= i < pes@.len() ==> (#[trigger] pes@[i]).wf(),
    ensures
        r matches Ok(pools) ==> {
            &&& crate::pool::first_misaligned(pes@, 0) is None
            &&& pools@.len() == 1
            &&& pools@[0].wf()
            &&& pools@[0]@.idle == pes@
            &&& pools@[0]@.total == pes@.len()
        },
        r matches Err(e) ==> crate::pool::first_misaligned(pes@, 0) matches Some(i) && e
            == crate::pool::misaligned_error(pes@[i]),
{
    match crate::pool::TapascoDispatcher::new(pes) {
        Ok(pool) => {
            let mut pools = Vec::new();
            pools.push(pool);
            Ok(pools)
        },
        Err(e) => Err(e),
    }
}

} // verus!
