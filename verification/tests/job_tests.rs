use fuzzer_host::dispatch::{ArgValue, MemoryPath};
use fuzzer_host::duration::RunDuration;
use fuzzer_host::error::{BitmapLenError, DeviceFailure, TapascoRunError};
use fuzzer_host::job::{
    zero_bytes, DeviceAction, DeviceEvent, FatalError, Part, PhysicalJob, Step,
};
use fuzzer_host::memconf::PEMemConfig;
use fuzzer_host::pedesc::{PEDesc, PeHandle};

fn handle() -> PeHandle {
    PeHandle { id: 1, local_memory: true }
}

fn failure(text: &str) -> DeviceFailure {
    DeviceFailure { message: text.to_string() }
}

fn bram_job(bitmap_len: usize) -> PhysicalJob {
    let desc = PEDesc::new(handle(), PEMemConfig::bram(), None);
    match PhysicalJob::prepare(desc, 0, &[1, 2, 3], &[4, 5], 0, 500, &[6], bitmap_len) {
        Ok(job) => job,
        Err(_) => panic!("the run is refused"),
    }
}

fn perform(action: DeviceAction) -> Step {
    Step::Perform(action)
}

fn set32(index: usize, value: u32) -> Step {
    perform(DeviceAction::SetArg { index, value: ArgValue::Single32(value) })
}

/// Drives a run on on-chip memory up to the read of the status word.
fn run_to_status(job: &mut PhysicalJob) {
    assert_eq!(
        job.step(DeviceEvent::Begin),
        perform(DeviceAction::AllocateFixed { size: 0x2000, addr: 0x2_0000 })
    );
    assert_eq!(
        job.step(DeviceEvent::Address(0x2_0000)),
        perform(DeviceAction::CopyTo { path: MemoryPath::Local, part: Part::Image })
    );
    assert_eq!(
        job.step(DeviceEvent::Done),
        perform(DeviceAction::CopyTo { path: MemoryPath::Local, part: Part::Data })
    );
    assert!(job.desc().instmem_initialized);
    assert_eq!(
        job.step(DeviceEvent::Done),
        perform(DeviceAction::CopyTo { path: MemoryPath::Local, part: Part::Input })
    );
    assert_eq!(job.step(DeviceEvent::Done), set32(0, 0));
    assert_eq!(job.step(DeviceEvent::Done), set32(1, 1));
    assert_eq!(job.step(DeviceEvent::Done), set32(2, 0x4080_0000 + 61424));
    assert_eq!(job.step(DeviceEvent::Done), set32(3, 16));
    assert_eq!(
        job.step(DeviceEvent::Done),
        perform(DeviceAction::SetArg { index: 5, value: ArgValue::Single64(500) })
    );
    assert_eq!(job.step(DeviceEvent::Done), set32(10, 0));
    assert_eq!(job.step(DeviceEvent::Done), set32(11, 0));
    assert_eq!(job.step(DeviceEvent::Done), perform(DeviceAction::Fence));
    assert_eq!(job.step(DeviceEvent::Done), perform(DeviceAction::Start));
    assert_eq!(job.step(DeviceEvent::Done), perform(DeviceAction::WaitForCompletion));
    assert_eq!(job.step(DeviceEvent::Done), perform(DeviceAction::ReturnValue));
}

fn read_back(job: &mut PhysicalJob, status: u64, counter: u64, bitmap: Vec<u8>) -> Step {
    assert_eq!(
        job.step(DeviceEvent::Value64(status)),
        perform(DeviceAction::ReadArg64 { index: 7 })
    );
    assert_eq!(
        job.step(DeviceEvent::Value64(counter)),
        perform(DeviceAction::CopyFrom { path: MemoryPath::Local, addr: 0x2_0000, len: 16 })
    );
    job.step(DeviceEvent::Data(bitmap))
}

fn free_step() -> Step {
    perform(DeviceAction::Free { addr: 0x2_0000 })
}

#[test]
fn successful_run_on_on_chip_memory() {
    let mut job = bram_job(16);
    assert_eq!(job.payload(Part::Image).unwrap().data, vec![1, 2, 3]);
    assert_eq!(job.payload(Part::Data).unwrap().data.len(), 16);
    assert_eq!(job.payload(Part::Input).unwrap().addr, 0x1_0000 + 61424);
    run_to_status(&mut job);
    let bitmap: Vec<u8> = (1..=16).collect();
    assert_eq!(read_back(&mut job, 0, 0x0000_0002_0000_0001, bitmap.clone()), free_step());
    assert!(!job.is_finished());
    assert_eq!(job.step(DeviceEvent::Done), Step::Finished);
    assert!(job.is_finished());
    let (desc, result) = job.finish().ok().unwrap();
    assert!(desc.instmem_initialized);
    let run = result.unwrap();
    assert_eq!(run.status, 0);
    assert_eq!(run.bitmap, bitmap);
    assert_eq!(run.duration, Some(RunDuration { secs: 2, nanos: 1 }));
}

#[test]
fn timeout_keeps_status_bitmap_and_duration() {
    let mut job = bram_job(16);
    run_to_status(&mut job);
    assert_eq!(read_back(&mut job, 0x80, 5, vec![3; 16]), free_step());
    assert_eq!(job.step(DeviceEvent::Done), Step::Finished);
    let run = job.finish().ok().unwrap().1.unwrap();
    assert_eq!(run.status, 0x80);
    assert_eq!(run.bitmap, vec![3; 16]);
    assert_eq!(run.duration, Some(RunDuration { secs: 0, nanos: 5 }));
}

#[test]
fn crash_reads_the_fault_registers_and_reports_the_fault_cause() {
    let mut job = bram_job(16);
    run_to_status(&mut job);
    assert_eq!(
        read_back(&mut job, 0xffff_ffff_0000_0005, 9, vec![1; 16]),
        perform(DeviceAction::ReadArg64 { index: 4 })
    );
    assert_eq!(job.step(DeviceEvent::Value64(0x1234_0000_5678)), free_step());
    assert_eq!(job.step(DeviceEvent::Done), Step::Finished);
    let run = job.finish().ok().unwrap().1.unwrap();
    assert_eq!(run.status, 5);
    assert_eq!(fuzzer_host::status::cause_of(run.status), 2);
    assert_eq!(run.bitmap, vec![1; 16]);
}

#[test]
fn refused_bitmap_size_is_an_error_whatever_else_is_set() {
    for status in [0x40_u64, 0x41, 0xc0, 0x140] {
        let mut job = bram_job(16);
        run_to_status(&mut job);
        assert_eq!(read_back(&mut job, status, 9, vec![1; 16]), free_step());
        assert_eq!(job.step(DeviceEvent::Done), Step::Finished);
        assert_eq!(
            job.finish().ok().unwrap().1,
            Err(TapascoRunError::BitmapLen { reason: BitmapLenError::Rejected })
        );
    }
}

#[test]
fn reserved_status_bits_are_an_error() {
    let mut job = bram_job(16);
    run_to_status(&mut job);
    assert_eq!(read_back(&mut job, 0x101, 9, vec![1; 16]), free_step());
    assert_eq!(job.step(DeviceEvent::Done), Step::Finished);
    assert_eq!(
        job.finish().ok().unwrap().1,
        Err(TapascoRunError::UnexpectedStatus { status: 0x101 })
    );
}

#[test]
fn bitmap_of_another_length_is_an_error() {
    let mut job = bram_job(16);
    run_to_status(&mut job);
    assert_eq!(read_back(&mut job, 0, 9, vec![1; 15]), free_step());
    assert_eq!(job.step(DeviceEvent::Done), Step::Finished);
    assert_eq!(
        job.finish().ok().unwrap().1,
        Err(TapascoRunError::BitmapLen { reason: BitmapLenError::Changed })
    );
}

#[test]
fn failed_upload_releases_the_bitmap_region_before_the_run_ends() {
    let mut job = bram_job(16);
    job.step(DeviceEvent::Begin);
    job.step(DeviceEvent::Address(0x2_0000));
    assert_eq!(job.step(DeviceEvent::Failed(failure("dma"))), free_step());
    assert_eq!(job.step(DeviceEvent::Done), Step::Finished);
    let (desc, result) = job.finish().ok().unwrap();
    assert!(!desc.instmem_initialized);
    assert_eq!(result, Err(TapascoRunError::TapascoDMA { source: failure("dma") }));
}

#[test]
fn failed_allocation_ends_the_run_at_once() {
    let mut job = bram_job(16);
    job.step(DeviceEvent::Begin);
    assert_eq!(job.step(DeviceEvent::Failed(failure("full"))), Step::Finished);
    assert_eq!(
        job.finish().ok().unwrap().1,
        Err(TapascoRunError::TapascoAllocator { source: failure("full") })
    );
}

#[test]
fn failed_wait_is_an_element_error() {
    let mut job = bram_job(16);
    job.step(DeviceEvent::Begin);
    job.step(DeviceEvent::Address(0x2_0000));
    for _ in 0..11 {
        job.step(DeviceEvent::Done);
    }
    assert_eq!(job.step(DeviceEvent::Done), perform(DeviceAction::WaitForCompletion));
    assert_eq!(job.step(DeviceEvent::Failed(failure("wait"))), free_step());
    assert_eq!(job.step(DeviceEvent::Done), Step::Finished);
    assert_eq!(
        job.finish().ok().unwrap().1,
        Err(TapascoRunError::TapascoPE { source: failure("wait") })
    );
}

#[test]
fn failure_of_an_optional_register_is_ignored() {
    let mut job = bram_job(16);
    job.step(DeviceEvent::Begin);
    job.step(DeviceEvent::Address(0x2_0000));
    for _ in 0..8 {
        job.step(DeviceEvent::Done);
    }
    assert_eq!(job.step(DeviceEvent::Failed(failure("arg 10"))), set32(11, 0));
    assert_eq!(
        job.step(DeviceEvent::Failed(failure("arg 11"))),
        perform(DeviceAction::Fence)
    );
}

#[test]
fn failure_of_a_required_register_ends_the_run() {
    let mut job = bram_job(16);
    job.step(DeviceEvent::Begin);
    job.step(DeviceEvent::Address(0x2_0000));
    for _ in 0..3 {
        job.step(DeviceEvent::Done);
    }
    assert_eq!(job.step(DeviceEvent::Failed(failure("arg 0"))), free_step());
}

#[test]
fn failure_to_release_is_fatal() {
    let mut job = bram_job(16);
    job.step(DeviceEvent::Begin);
    job.step(DeviceEvent::Address(0x2_0000));
    assert_eq!(job.step(DeviceEvent::Failed(failure("dma"))), free_step());
    assert_eq!(
        job.step(DeviceEvent::Failed(failure("free"))),
        Step::Fatal(FatalError::FreeFailed(failure("free")))
    );
    assert_eq!(job.step(DeviceEvent::Done), Step::Fatal(FatalError::UnexpectedEvent));
    assert!(job.finish().is_err());
}

#[test]
fn event_of_the_wrong_kind_is_fatal() {
    let mut job = bram_job(16);
    assert_eq!(job.step(DeviceEvent::Done), Step::Fatal(FatalError::UnexpectedEvent));
    let mut other = bram_job(16);
    other.step(DeviceEvent::Begin);
    assert_eq!(other.step(DeviceEvent::Value32(1)), Step::Fatal(FatalError::UnexpectedEvent));
}

#[test]
fn unfinished_run_is_handed_back() {
    let mut job = bram_job(16);
    job.step(DeviceEvent::Begin);
    let job = job.finish().err().unwrap();
    assert!(!job.is_finished());
}

#[test]
fn run_on_off_chip_memory_merges_the_invalidation_flags() {
    let desc = PEDesc::new(handle(), PEMemConfig::dram(), Some(0x0200_0000));
    let mut job = match PhysicalJob::prepare(desc, 0, &[1], &[2], 0, 9, &[3], 8192) {
        Ok(job) => job,
        Err(_) => panic!("the run is refused"),
    };
    assert_eq!(
        job.step(DeviceEvent::Begin),
        perform(DeviceAction::AllocateFixed { size: 0x2000, addr: 0x2_0000 })
    );
    assert_eq!(
        job.step(DeviceEvent::Address(0x2_0000)),
        perform(DeviceAction::ReadArg32 { index: 9 })
    );
    assert_eq!(job.step(DeviceEvent::Value32(0x8)), set32(9, 0xf));
    assert_eq!(
        job.step(DeviceEvent::Done),
        perform(DeviceAction::CopyTo { path: MemoryPath::OffChip, part: Part::Image })
    );
    for _ in 0..3 {
        job.step(DeviceEvent::Done);
    }
    for _ in 0..8 {
        job.step(DeviceEvent::Done);
    }
    assert_eq!(job.step(DeviceEvent::Done), perform(DeviceAction::Start));
    assert_eq!(job.step(DeviceEvent::Done), perform(DeviceAction::WaitForCompletion));
    assert_eq!(job.step(DeviceEvent::Done), perform(DeviceAction::ReadArg32 { index: 9 }));
    assert_eq!(job.step(DeviceEvent::Value32(0x1)), set32(9, 0x5));
    assert_eq!(job.step(DeviceEvent::Done), perform(DeviceAction::ReturnValue));
}

#[test]
fn bitmap_over_the_off_chip_path_needs_no_region() {
    let desc = PEDesc::new(handle(), PEMemConfig::bram_dma(), Some(0x0100_0000));
    let mut job = match PhysicalJob::prepare(desc, 0, &[1], &[2], 0, 9, &[3], 32) {
        Ok(job) => job,
        Err(_) => panic!("the run is refused"),
    };
    assert_eq!(
        job.step(DeviceEvent::Begin),
        perform(DeviceAction::CopyTo { path: MemoryPath::OffChip, part: Part::Image })
    );
    for _ in 0..13 {
        job.step(DeviceEvent::Done);
    }
    assert_eq!(job.step(DeviceEvent::Done), perform(DeviceAction::ReturnValue));
    assert_eq!(
        job.step(DeviceEvent::Value64(0)),
        perform(DeviceAction::ReadArg64 { index: 7 })
    );
    assert_eq!(
        job.step(DeviceEvent::Value64(1)),
        perform(DeviceAction::CopyFrom {
            path: MemoryPath::OffChip,
            addr: 0x0100_0000 + 0x2_0000,
            len: 32
        })
    );
    assert_eq!(job.step(DeviceEvent::Data(vec![7; 32])), Step::Finished);
    assert_eq!(job.finish().ok().unwrap().1.unwrap().bitmap, vec![7; 32]);
}

#[test]
fn baseline_element_reports_an_all_zero_bitmap() {
    let desc = PEDesc::new_tapascoriscv(handle(), PEMemConfig::bram_tapascoriscv());
    let mut job = match PhysicalJob::prepare(desc, 0, &[1], &[2], 0, 9, &[3], 100) {
        Ok(job) => job,
        Err(_) => panic!("the run is refused"),
    };
    assert_eq!(
        job.step(DeviceEvent::Begin),
        perform(DeviceAction::CopyTo { path: MemoryPath::Local, part: Part::Image })
    );
    for _ in 0..3 {
        job.step(DeviceEvent::Done);
    }
    for _ in 0..3 {
        job.step(DeviceEvent::Done);
    }
    assert_eq!(job.step(DeviceEvent::Done), perform(DeviceAction::Fence));
    job.step(DeviceEvent::Done);
    job.step(DeviceEvent::Done);
    assert_eq!(job.step(DeviceEvent::Done), perform(DeviceAction::ReturnValue));
    assert_eq!(
        job.step(DeviceEvent::Value64(0)),
        perform(DeviceAction::ReadArg64 { index: 5 })
    );
    assert_eq!(job.step(DeviceEvent::Value64(0x3_0000_0000)), Step::Finished);
    let run = job.finish().ok().unwrap().1.unwrap();
    assert_eq!(run.bitmap, vec![0; 100]);
    assert_eq!(run.duration, Some(RunDuration { secs: 3, nanos: 0 }));
}

#[test]
fn bitmap_length_outside_the_capacity_is_refused() {
    for len in [0_usize, 3, 0x2001] {
        let desc = PEDesc::new(handle(), PEMemConfig::bram(), None);
        match PhysicalJob::prepare(desc, 0, &[1], &[2], 0, 9, &[3], len) {
            Ok(_) => panic!("the run is accepted"),
            Err((desc, e)) => {
                assert_eq!(desc, PEDesc::new(handle(), PEMemConfig::bram(), None));
                assert_eq!(
                    e,
                    TapascoRunError::BitmapLen {
                        reason: BitmapLenError::OutOfRange { len, max: 0x2000 }
                    }
                );
            }
        }
    }
    for len in [4_usize, 0x2000] {
        let desc = PEDesc::new(handle(), PEMemConfig::bram(), None);
        assert!(PhysicalJob::prepare(desc, 0, &[1], &[2], 0, 9, &[3], len).is_ok());
    }
    let baseline = PEDesc::new_tapascoriscv(handle(), PEMemConfig::bram_tapascoriscv());
    assert!(PhysicalJob::prepare(baseline, 0, &[1], &[2], 0, 9, &[3], 0).is_ok());
}

#[test]
fn zero_bytes_are_zero() {
    assert_eq!(zero_bytes(0), Vec::<u8>::new());
    assert_eq!(zero_bytes(3), vec![0, 0, 0]);
}
