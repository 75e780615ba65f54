use fuzzer_host::error::TapascoRunError;
use fuzzer_host::job::{DeviceEvent, Step};
use fuzzer_host::memconf::PEMemConfig;
use fuzzer_host::pedesc::{PEDesc, PeHandle};
use fuzzer_host::pool::{Begin, TapascoDispatcher};

fn desc(id: u64) -> PEDesc {
    PEDesc::new(PeHandle { id, local_memory: true }, PEMemConfig::bram_dma(), Some(0x0100_0000))
}

fn local(id: u64) -> PEDesc {
    PEDesc::new(PeHandle { id, local_memory: true }, PEMemConfig::bram(), None)
}

fn pool_of(n: u64) -> TapascoDispatcher {
    let mut pes = Vec::new();
    for id in 0..n {
        pes.push(local(id));
    }
    TapascoDispatcher::new(pes).ok().unwrap()
}

#[test]
fn request_beyond_the_pool_size_waits_for_a_return() {
    let mut pool = pool_of(3);
    let first = pool.acquire().unwrap();
    let second = pool.acquire().unwrap();
    let third = pool.acquire().unwrap();
    assert_eq!(pool.idle_count(), 0);
    assert_eq!(pool.lent_count(), 3);
    assert!(pool.acquire().is_none());
    assert_eq!(pool.release(second), Ok(()));
    let next = pool.acquire().unwrap();
    assert_eq!(next.pe.id, 1);
    assert!(pool.acquire().is_none());
    assert_eq!(first.pe.id, 2);
    assert_eq!(third.pe.id, 0);
}

#[test]
fn element_returned_last_is_handed_out_first() {
    let mut pool = pool_of(2);
    let a = pool.acquire().unwrap();
    let b = pool.acquire().unwrap();
    let (a_id, b_id) = (a.pe.id, b.pe.id);
    pool.release(a).unwrap();
    pool.release(b).unwrap();
    assert_eq!(pool.acquire().unwrap().pe.id, b_id);
    assert_eq!(pool.acquire().unwrap().pe.id, a_id);
}

#[test]
fn pool_takes_back_no_more_than_it_lent() {
    let mut pool = pool_of(1);
    assert_eq!(pool.release(local(9)), Err(local(9)));
    assert_eq!(pool.idle_count(), 1);
    assert_eq!(pool.lent_count(), 0);
}

#[test]
fn misaligned_allocation_is_refused() {
    let bad = PEDesc::new(
        PeHandle { id: 2, local_memory: true },
        PEMemConfig::dram(),
        Some(0x0100_0400),
    );
    let pes = vec![desc(1), bad, desc(3)];
    match TapascoDispatcher::new(pes) {
        Ok(_) => panic!("the pool is made"),
        Err(e) => assert_eq!(
            e,
            TapascoRunError::DRAMAllocationMisaligned {
                addr: 0x0100_0400,
                alignment_num: 0x100_0000
            }
        ),
    }
    let above = PEDesc::new(
        PeHandle { id: 2, local_memory: true },
        PEMemConfig::dram(),
        Some(0x1_0000_0000),
    );
    assert!(TapascoDispatcher::new(vec![above]).is_err());
    assert!(TapascoDispatcher::new(vec![desc(1), local(2)]).is_ok());
    assert!(TapascoDispatcher::new(Vec::new()).is_ok());
}

#[test]
fn run_holds_its_element_until_it_is_completed() {
    let mut pool = pool_of(1);
    let mut job = match pool.begin(0, &[1], &[2], 0, 10, &[3], 16) {
        Begin::Started(job) => job,
        _ => panic!("no run was begun"),
    };
    assert_eq!(pool.idle_count(), 0);
    assert!(matches!(pool.begin(0, &[1], &[2], 0, 10, &[3], 16), Begin::Busy));
    job.step(DeviceEvent::Begin);
    let job = pool.complete(job).err().unwrap();
    assert_eq!(pool.idle_count(), 0);
    let mut job = job;
    assert_eq!(
        job.step(DeviceEvent::Failed(fuzzer_host::error::DeviceFailure {
            message: "no".to_string()
        })),
        Step::Finished
    );
    let result = pool.complete(job).ok().unwrap();
    assert!(matches!(result, Err(TapascoRunError::TapascoAllocator { .. })));
    assert_eq!(pool.idle_count(), 1);
    assert_eq!(pool.lent_count(), 0);
}

#[test]
fn refused_run_leaves_its_element_idle() {
    let mut pool = pool_of(2);
    let too_long = vec![1_u8; 61_441];
    match pool.begin(0, &[1], &too_long, 0, 10, &[3], 16) {
        Begin::Refused(e) => assert_eq!(e, TapascoRunError::ProgramOrDataTooLarge),
        _ => panic!("the run was not refused"),
    }
    assert_eq!(pool.idle_count(), 2);
    assert_eq!(pool.acquire().unwrap().pe.id, 1);
}

#[test]
fn image_upload_is_remembered_across_runs() {
    let mut pool = pool_of(1);
    let mut job = match pool.begin(0, &[1], &[2], 0, 10, &[3], 16) {
        Begin::Started(job) => job,
        _ => panic!("no run was begun"),
    };
    job.step(DeviceEvent::Begin);
    job.step(DeviceEvent::Address(0x2_0000));
    job.step(DeviceEvent::Done);
    job.step(DeviceEvent::Failed(fuzzer_host::error::DeviceFailure {
        message: "dma".to_string(),
    }));
    assert_eq!(job.step(DeviceEvent::Done), Step::Finished);
    assert!(pool.complete(job).ok().unwrap().is_err());
    let job = match pool.begin(0, &[1], &[2], 0, 10, &[3], 16) {
        Begin::Started(job) => job,
        _ => panic!("no run was begun"),
    };
    assert!(job.desc().instmem_initialized);
    assert!(job.payload(fuzzer_host::job::Part::Image).is_none());
}

#[test]
fn pool_taken_apart_hands_out_its_idle_elements() {
    let mut pool = TapascoDispatcher::new(vec![desc(1), local(2), desc(3)]).ok().unwrap();
    let lent = pool.acquire().unwrap();
    assert_eq!(lent.pe.id, 3);
    let idle = pool.into_idle();
    assert_eq!(idle.len(), 2);
    let allocations: Vec<Option<u64>> =
        idle.into_iter().map(|desc| desc.into_allocation()).collect();
    assert_eq!(allocations, vec![Some(0x0100_0000), None]);
    assert_eq!(lent.into_allocation(), Some(0x0100_0000));
}
