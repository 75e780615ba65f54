use fuzzer_host::codec::{decode_u32, decode_u64, encode_u32, encode_u64, ByteOrder};
use fuzzer_host::duration::RunDuration;
use fuzzer_host::error::{BitmapLenError, TapascoRunError};
use fuzzer_host::job::FatalError;
use fuzzer_host::sim::{
    parse_response, stage_bitmap_len, stage_input, stage_timeout, teardown_request, SimAction,
    SimConfig, SimEvent, SimJob, SimPart, SimRequestType, SimResponse, SimStep,
};

fn config(segment_size: usize) -> SimConfig {
    SimConfig { order: ByteOrder::Little, segment_size, timeout_cycles: 0x0102_0304_0506_0708 }
}

#[test]
fn numbers_are_laid_out_in_the_chosen_order() {
    assert_eq!(encode_u32(ByteOrder::Little, 0x1122_3344), [0x44, 0x33, 0x22, 0x11]);
    assert_eq!(encode_u32(ByteOrder::Big, 0x1122_3344), [0x11, 0x22, 0x33, 0x44]);
    assert_eq!(
        encode_u64(ByteOrder::Little, 0x0102_0304_0506_0708),
        [8, 7, 6, 5, 4, 3, 2, 1]
    );
    assert_eq!(encode_u64(ByteOrder::Big, 0x0102_0304_0506_0708), [1, 2, 3, 4, 5, 6, 7, 8]);
    assert_eq!(encode_u32(ByteOrder::Little, 5), 5_u32.to_le_bytes());
    assert_eq!(encode_u64(ByteOrder::Big, u64::MAX - 1), (u64::MAX - 1).to_be_bytes());
}

#[test]
fn numbers_are_read_back_as_they_were_laid_out() {
    for order in [ByteOrder::Little, ByteOrder::Big] {
        for x in [0_u32, 1, 0xff, 0x100, 0xdead_beef, u32::MAX] {
            assert_eq!(decode_u32(order, &encode_u32(order, x)), x);
        }
        for x in [0_u64, 1, 0x1_0000_0000, 0xdead_beef_0bad_f00d, u64::MAX] {
            assert_eq!(decode_u64(order, &encode_u64(order, x)), x);
        }
    }
    assert_eq!(decode_u32(ByteOrder::Big, &[0, 0, 1, 2, 9, 9]), 0x102);
    assert_eq!(decode_u64(ByteOrder::Little, &[1, 0, 0, 0, 2, 0, 0, 0]), 0x2_0000_0001);
}

#[test]
fn request_codes() {
    assert_eq!(SimRequestType::SetInput.code(), 0);
    assert_eq!(SimRequestType::Start.code(), 1);
    assert_eq!(SimRequestType::CopyBitmap.code(), 2);
    assert_eq!(SimRequestType::Close.code(), 255);
}

#[test]
fn segment_size_is_checked() {
    assert!(config(24).is_valid());
    assert!(config(4096).is_valid());
    assert!(!config(23).is_valid());
    assert!(!config(0).is_valid());
}

#[test]
fn input_is_staged_behind_its_length() {
    assert_eq!(stage_input(&config(4096), &[9, 8, 7]), vec![3, 0, 0, 0, 9, 8, 7]);
    assert_eq!(stage_input(&config(4096), &[]), vec![0, 0, 0, 0]);
    let mut big = config(4096);
    big.order = ByteOrder::Big;
    assert_eq!(stage_input(&big, &[9, 8, 7]), vec![0, 0, 0, 3, 9, 8, 7]);
}

#[test]
fn input_longer_than_the_segment_is_truncated() {
    let input: Vec<u8> = (0..40).collect();
    let frame = stage_input(&config(32), &input);
    assert_eq!(frame.len(), 32);
    assert_eq!(&frame[..4], &[28, 0, 0, 0]);
    assert_eq!(&frame[4..], &input[..28]);
    let exact: Vec<u8> = (0..28).collect();
    let frame = stage_input(&config(32), &exact);
    assert_eq!(frame.len(), 32);
    assert_eq!(&frame[4..], &exact[..]);
    let long = vec![0x55_u8; 5000];
    let frame = stage_input(&config(4096), &long);
    assert_eq!(frame.len(), 4096);
    assert_eq!(&frame[..4], &4092_u32.to_le_bytes());
}

#[test]
fn start_frames() {
    assert_eq!(stage_bitmap_len(&config(4096), 0x2000), vec![0, 0x20, 0, 0]);
    assert_eq!(stage_timeout(&config(4096)), vec![8, 7, 6, 5, 4, 3, 2, 1]);
}

#[test]
fn results_are_read_from_the_start_of_the_segment() {
    let mut segment = vec![0_u8; 32];
    segment[0..4].copy_from_slice(&0x81_u32.to_le_bytes());
    segment[4..8].copy_from_slice(&0x4000_1234_u32.to_le_bytes());
    segment[8..12].copy_from_slice(&0xdead_0000_u32.to_le_bytes());
    segment[12..16].copy_from_slice(&[0xff; 4]);
    segment[16..24].copy_from_slice(&0x0000_0002_0000_0001_u64.to_le_bytes());
    assert_eq!(
        parse_response(ByteOrder::Little, &segment),
        SimResponse {
            status: 0x81,
            fault_epc: 0x4000_1234,
            fault_tval: 0xdead_0000,
            counter: 0x0000_0002_0000_0001
        }
    );
}

fn perform(action: SimAction) -> SimStep {
    SimStep::Perform(action)
}

fn response_bytes(status: u32, counter: u64) -> Vec<u8> {
    let mut segment = vec![0_u8; 24];
    segment[0..4].copy_from_slice(&status.to_le_bytes());
    segment[16..24].copy_from_slice(&counter.to_le_bytes());
    segment
}

fn run_to_response(job: &mut SimJob) {
    assert_eq!(
        job.step(SimEvent::Begin),
        perform(SimAction::WriteSegment { offset: 0, part: SimPart::Input })
    );
    assert_eq!(
        job.step(SimEvent::Done),
        perform(SimAction::SendRequest(SimRequestType::SetInput))
    );
    assert_eq!(job.step(SimEvent::Done), perform(SimAction::AwaitResponse));
    assert_eq!(
        job.step(SimEvent::Response(0)),
        perform(SimAction::WriteSegment { offset: 0, part: SimPart::BitmapLen })
    );
    assert_eq!(
        job.step(SimEvent::Done),
        perform(SimAction::WriteSegment { offset: 8, part: SimPart::Timeout })
    );
    assert_eq!(job.step(SimEvent::Done), perform(SimAction::SendRequest(SimRequestType::Start)));
    assert_eq!(job.step(SimEvent::Done), perform(SimAction::AwaitResponse));
    assert_eq!(
        job.step(SimEvent::Response(7)),
        perform(SimAction::ReadSegment { offset: 0, len: 24 })
    );
}

#[test]
fn simulated_run_exchanges_three_requests() {
    let mut job = SimJob::new(config(4096), &[1, 2, 3], 64);
    assert_eq!(job.payload(SimPart::Input), &vec![3, 0, 0, 0, 1, 2, 3]);
    assert_eq!(job.payload(SimPart::BitmapLen), &vec![64, 0, 0, 0]);
    assert_eq!(job.payload(SimPart::Timeout), &vec![8, 7, 6, 5, 4, 3, 2, 1]);
    run_to_response(&mut job);
    assert_eq!(
        job.step(SimEvent::Bytes(response_bytes(0x80, 0x0000_0002_0000_0001))),
        perform(SimAction::SendRequest(SimRequestType::CopyBitmap))
    );
    assert_eq!(job.response().status, 0x80);
    assert_eq!(job.step(SimEvent::Done), perform(SimAction::AwaitResponse));
    assert_eq!(
        job.step(SimEvent::Response(0)),
        perform(SimAction::ReadSegment { offset: 0, len: 64 })
    );
    match job.step(SimEvent::Bytes(vec![5; 64])) {
        SimStep::Finished(Ok(run)) => {
            assert_eq!(run.status, 0x80);
            assert_eq!(run.bitmap, vec![5; 64]);
            assert_eq!(run.duration, Some(RunDuration { secs: 2, nanos: 1 }));
        }
        _ => panic!("the run did not end well"),
    }
    assert_eq!(job.step(SimEvent::Done), SimStep::Fatal(FatalError::UnexpectedEvent));
}

#[test]
fn bitmap_length_is_checked_after_the_input_was_taken() {
    for len in [0_usize, 3, 4097] {
        let mut job = SimJob::new(config(4096), &[1], len);
        job.step(SimEvent::Begin);
        job.step(SimEvent::Done);
        job.step(SimEvent::Done);
        assert_eq!(
            job.step(SimEvent::Response(0)),
            SimStep::Finished(Err(TapascoRunError::BitmapLen {
                reason: BitmapLenError::OutOfRange { len, max: 4096 }
            }))
        );
    }
    let mut job = SimJob::new(config(4096), &[1], 4096);
    job.step(SimEvent::Begin);
    job.step(SimEvent::Done);
    job.step(SimEvent::Done);
    assert!(matches!(job.step(SimEvent::Response(0)), SimStep::Perform(_)));
}

#[test]
fn io_failure_ends_the_simulated_run() {
    let mut job = SimJob::new(config(4096), &[1], 16);
    job.step(SimEvent::Begin);
    job.step(SimEvent::Done);
    assert_eq!(
        job.step(SimEvent::Failed("broken pipe".to_string())),
        SimStep::Finished(Err(TapascoRunError::IO { message: "broken pipe".to_string() }))
    );
}

#[test]
fn no_request_is_sent_before_the_response_is_read() {
    let mut job = SimJob::new(config(4096), &[1], 16);
    job.step(SimEvent::Begin);
    job.step(SimEvent::Done);
    assert_eq!(job.step(SimEvent::Done), perform(SimAction::AwaitResponse));
    assert_eq!(job.step(SimEvent::Done), SimStep::Fatal(FatalError::UnexpectedEvent));
}

#[test]
fn short_or_long_reads_of_the_segment() {
    let mut job = SimJob::new(config(4096), &[1], 16);
    run_to_response(&mut job);
    assert_eq!(
        job.step(SimEvent::Bytes(vec![0; 23])),
        SimStep::Fatal(FatalError::UnexpectedEvent)
    );
    let mut job = SimJob::new(config(4096), &[1], 16);
    run_to_response(&mut job);
    job.step(SimEvent::Bytes(response_bytes(0, 0)));
    job.step(SimEvent::Done);
    job.step(SimEvent::Response(0));
    assert_eq!(
        job.step(SimEvent::Bytes(vec![0; 15])),
        SimStep::Finished(Err(TapascoRunError::BitmapLen { reason: BitmapLenError::Changed }))
    );
}

#[test]
fn close_is_sent_to_a_running_simulation_only() {
    assert_eq!(teardown_request(true), Some(SimRequestType::Close));
    assert_eq!(teardown_request(false), None);
}
