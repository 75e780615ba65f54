use fuzzer_host::codec::ByteOrder;
use fuzzer_host::duration::RunDuration;
use fuzzer_host::error::{DeviceFailure, TapascoRunError};
use fuzzer_host::host::TapascoHostRun;
use fuzzer_host::job::{DeviceEvent, Part, Step};
use fuzzer_host::memconf::PEMemConfig;
use fuzzer_host::pedesc::{PEDesc, PeHandle};
use fuzzer_host::pool::{Begin, TapascoDispatcher};
use fuzzer_host::runner::{
    check_stop, settle, PhysicalBegin, RunnerError, TapascoRunnerPhysical, TapascoRunnerSim,
};
use fuzzer_host::sim::SimConfig;

fn pool() -> TapascoDispatcher {
    let desc = PEDesc::new(PeHandle { id: 4, local_memory: true }, PEMemConfig::bram(), None);
    TapascoDispatcher::new(vec![desc]).ok().unwrap()
}

fn run() -> TapascoHostRun {
    TapascoHostRun {
        status: 0,
        bitmap: vec![1, 2, 3, 4],
        duration: Some(RunDuration { secs: 1, nanos: 2 }),
    }
}

fn image() -> Vec<u8> {
    let mut file = vec![0_u8; 0x80_0000 + 3];
    file[0] = 0x13;
    file[0x80_0000] = 0x51;
    file[0x80_0002] = 0x52;
    file
}

#[test]
fn stop_flag_gates() {
    assert_eq!(check_stop(false), Ok(()));
    assert_eq!(check_stop(true), Err(TapascoRunError::ShuttingDown));
    assert_eq!(settle(false, Ok(run())), Ok(run()));
    assert_eq!(settle(true, Ok(run())), Err(TapascoRunError::ShuttingDown));
    assert_eq!(
        settle(false, Err(TapascoRunError::InputTooLarge)),
        Err(TapascoRunError::InputTooLarge)
    );
    assert_eq!(
        settle(true, Err(TapascoRunError::InputTooLarge)),
        Err(TapascoRunError::ShuttingDown)
    );
    assert!(TapascoRunError::ShuttingDown.is_shutdown());
    assert!(!TapascoRunError::InputTooLarge.is_shutdown());
}

#[test]
fn runner_needs_a_pool() {
    assert!(matches!(
        TapascoRunnerPhysical::new(&image(), 0, 0, 10),
        Err(RunnerError::NoDispatchers)
    ));
    assert!(TapascoRunnerPhysical::new(&image(), 0, 1, 10).is_ok());
}

#[test]
fn run_after_a_stop_request_takes_no_element() {
    let runner = TapascoRunnerPhysical::new(&image(), 0, 1, 10).ok().unwrap();
    let mut pool = pool();
    assert!(matches!(
        runner.begin(true, &mut pool, &[1, 2], 16),
        PhysicalBegin::ShuttingDown
    ));
    assert_eq!(pool.idle_count(), 1);
    assert_eq!(pool.lent_count(), 0);
}

#[test]
fn stop_request_during_a_run_discards_its_result() {
    let runner = TapascoRunnerPhysical::new(&image(), 0, 1, 10).ok().unwrap();
    let mut pool = pool();
    let mut job = match runner.begin(false, &mut pool, &[1, 2], 16) {
        PhysicalBegin::Pool(Begin::Started(job)) => job,
        _ => panic!("no run was begun"),
    };
    assert_eq!(job.payload(Part::Data).unwrap().data[..3], [0x51, 0, 0x52]);
    job.step(DeviceEvent::Begin);
    job.step(DeviceEvent::Address(0x2_0000));
    for _ in 0..13 {
        job.step(DeviceEvent::Done);
    }
    job.step(DeviceEvent::Value64(0));
    job.step(DeviceEvent::Value64(77));
    job.step(DeviceEvent::Data(vec![9; 16]));
    assert_eq!(job.step(DeviceEvent::Done), Step::Finished);
    let result = runner.conclude(true, &mut pool, job).ok().unwrap();
    assert_eq!(result, Err(TapascoRunError::ShuttingDown));
    assert_eq!(pool.idle_count(), 1);
}

#[test]
fn finished_run_hands_out_its_result() {
    let runner = TapascoRunnerPhysical::new(&image(), 0, 1, 10).ok().unwrap();
    let mut pool = pool();
    let mut job = match runner.begin(false, &mut pool, &[1, 2], 16) {
        PhysicalBegin::Pool(Begin::Started(job)) => job,
        _ => panic!("no run was begun"),
    };
    assert!(matches!(
        runner.begin(false, &mut pool, &[1, 2], 16),
        PhysicalBegin::Pool(Begin::Busy)
    ));
    job.step(DeviceEvent::Begin);
    let job = runner.conclude(false, &mut pool, job).err().unwrap();
    let mut job = job;
    job.step(DeviceEvent::Failed(DeviceFailure { message: "x".to_string() }));
    let result = runner.conclude(false, &mut pool, job).ok().unwrap();
    assert_eq!(
        result,
        Err(TapascoRunError::TapascoAllocator {
            source: DeviceFailure { message: "x".to_string() }
        })
    );
    assert_eq!(pool.idle_count(), 1);
}

#[test]
fn simulated_runner_gates_on_the_stop_flag() {
    let config = SimConfig { order: ByteOrder::Little, segment_size: 4096, timeout_cycles: 5 };
    let runner = TapascoRunnerSim::new(config).ok().unwrap();
    assert!(matches!(runner.begin(true, &[1], 16), Err(TapascoRunError::ShuttingDown)));
    assert!(runner.begin(false, &[1], 16).is_ok());
    let small = SimConfig { order: ByteOrder::Little, segment_size: 8, timeout_cycles: 5 };
    assert!(matches!(TapascoRunnerSim::new(small), Err(RunnerError::BadSegmentSize)));
}

#[test]
fn run_without_a_stop_hands_on_status_bitmap_and_duration() {
    let runner = TapascoRunnerPhysical::new(&image(), 0, 1, 10).ok().unwrap();
    let mut pool = pool();
    let mut job = match runner.begin(false, &mut pool, &[1, 2], 16) {
        PhysicalBegin::Pool(Begin::Started(job)) => job,
        _ => panic!("no run was begun"),
    };
    assert_eq!(pool.lent_count(), 1);
    job.step(DeviceEvent::Begin);
    job.step(DeviceEvent::Address(0x2_0000));
    for _ in 0..13 {
        job.step(DeviceEvent::Done);
    }
    job.step(DeviceEvent::Value64(0x80));
    job.step(DeviceEvent::Value64(0x0000_0003_0000_0004));
    job.step(DeviceEvent::Data(vec![9; 16]));
    assert_eq!(job.step(DeviceEvent::Done), Step::Finished);
    let run = runner.conclude(false, &mut pool, job).ok().unwrap().unwrap();
    assert_eq!(run.status, 0x80);
    assert_eq!(run.bitmap, vec![9; 16]);
    assert_eq!(run.duration, Some(RunDuration { secs: 3, nanos: 4 }));
}
