use fuzzer_host::args::{
    pool_per_element, takes_own_pool, uses_affinity, validate_bitmap_size, validate_numiter,
    validate_numthreads, ArgError,
};
use fuzzer_host::enumerate::{
    create_dispatchers, get_pes, DeviceScan, FoundPe, KindScan, PeKind, FUZZER_BRAM_PE,
};
use fuzzer_host::error::{DeviceFailure, Subsystem, TapascoRunError, JobError};
use fuzzer_host::image::{after_read, bytes_to_read, split_image};
use fuzzer_host::launch::{
    format_decimal, format_fd, format_hex8, launch_environment, shmem_path,
};
use fuzzer_host::memconf::PEMemConfig;
use fuzzer_host::pedesc::{PEDesc, PeHandle};

fn failure(text: &str) -> DeviceFailure {
    DeviceFailure { message: text.to_string() }
}

fn found(id: u64) -> FoundPe {
    FoundPe { pe: PeHandle { id, local_memory: true }, dram: 0x0100_0000 * id }
}

fn none() -> KindScan {
    KindScan { found: Vec::new(), error: Some(failure("no such element")) }
}

#[test]
fn short_program_file_is_all_instruction_image() {
    let (inst, data) = split_image(&[1, 2, 3]);
    assert_eq!(inst, vec![1, 2, 3]);
    assert!(data.is_empty());
    let (inst, data) = split_image(&[]);
    assert!(inst.is_empty() && data.is_empty());
}

#[test]
fn program_file_is_split_at_the_instruction_capacity() {
    let mut file = vec![0_u8; 0x80_0000 + 2];
    file[0x7f_ffff] = 7;
    file[0x80_0000] = 8;
    file[0x80_0001] = 9;
    let (inst, data) = split_image(&file);
    assert_eq!(inst.len(), 0x80_0000);
    assert_eq!(inst[0x7f_ffff], 7);
    assert_eq!(data, vec![8, 9]);
}

#[test]
fn program_file_is_cut_behind_both_capacities() {
    let mut file = vec![1_u8; 0x100_0000 + 5];
    file[0xff_ffff] = 3;
    let (inst, data) = split_image(&file);
    assert_eq!(inst.len(), 0x80_0000);
    assert_eq!(data.len(), 0x80_0000);
    assert_eq!(data[0x7f_ffff], 3);
    assert_eq!(bytes_to_read(0x100_0005), 0x100_0000);
    assert_eq!(bytes_to_read(17), 17);
    assert_eq!(bytes_to_read(u64::MAX), 0x100_0000);
}

#[test]
fn file_that_ends_early_is_an_error() {
    assert_eq!(after_read(0, 10, 4), Ok(4));
    assert_eq!(after_read(4, 10, 6), Ok(10));
    assert_eq!(
        after_read(4, 10, 0),
        Err(TapascoRunError::IO { message: "File end before expected eof".to_string() })
    );
}

#[test]
fn elements_of_all_kinds_are_collected_in_order() {
    let scans = vec![DeviceScan::Scanned {
        dram: KindScan { found: vec![found(1)], error: None },
        bram: KindScan { found: vec![found(2), found(3)], error: None },
        hbm: none(),
        tapascoriscv: KindScan { found: vec![found(4)], error: None },
    }];
    let pes = get_pes(&scans).unwrap();
    assert_eq!(
        pes,
        vec![
            PEDesc::new(found(1).pe, PEMemConfig::dram(), Some(0x0100_0000)),
            PEDesc::new(found(2).pe, PEMemConfig::bram(), None),
            PEDesc::new(found(3).pe, PEMemConfig::bram(), None),
            PEDesc::new_tapascoriscv(found(4).pe, PEMemConfig::bram_tapascoriscv()),
        ]
    );
    let pools = create_dispatchers(pes).unwrap();
    assert_eq!(pools.len(), 1);
    assert_eq!(pools[0].idle_count(), 4);
}

#[test]
fn elements_acquired_before_a_failure_are_kept() {
    let scans = vec![DeviceScan::Scanned {
        dram: none(),
        bram: KindScan { found: vec![found(2)], error: Some(failure("busy")) },
        hbm: none(),
        tapascoriscv: none(),
    }];
    assert_eq!(get_pes(&scans).unwrap().len(), 1);
}

#[test]
fn no_element_at_all_is_an_error_with_the_last_failure() {
    let scans = vec![
        DeviceScan::Scanned {
            dram: none(),
            bram: none(),
            hbm: none(),
            tapascoriscv: KindScan { found: Vec::new(), error: Some(failure("first")) },
        },
        DeviceScan::Scanned {
            dram: none(),
            bram: KindScan { found: Vec::new(), error: None },
            hbm: none(),
            tapascoriscv: KindScan { found: Vec::new(), error: Some(failure("second")) },
        },
    ];
    assert_eq!(
        get_pes(&scans),
        Err(TapascoRunError::TapascoPENotFound { last: Some(failure("first")) })
    );
    assert_eq!(get_pes(&Vec::new()), Err(TapascoRunError::TapascoPENotFound { last: None }));
}

#[test]
fn unavailable_device_ends_the_scan() {
    let scans = vec![
        DeviceScan::Scanned {
            dram: none(),
            bram: KindScan { found: vec![found(2)], error: None },
            hbm: none(),
            tapascoriscv: none(),
        },
        DeviceScan::Unavailable(failure("locked")),
    ];
    assert_eq!(
        get_pes(&scans),
        Err(TapascoRunError::TapascoDevice { source: failure("locked") })
    );
}

#[test]
fn kinds_name_their_component_and_layout() {
    assert_eq!(PeKind::Bram.identifier(), FUZZER_BRAM_PE);
    assert_eq!(
        PeKind::Dram.identifier(),
        "esa.informatik.tu-darmstadt.de:fuzzer:cva5_pe_fuzzer:1.0"
    );
    assert_eq!(
        PeKind::Hbm.identifier(),
        "esa.informatik.tu-darmstadt.de:fuzzer:cva5_hbm_pe_fuzzer:1.0"
    );
    assert_eq!(
        PeKind::TapascoRiscv.identifier(),
        "esa.informatik.tu-darmstadt.de:tapasco:cva5_pe:1.0"
    );
    assert_eq!(PeKind::Hbm.memconf(), PEMemConfig::hbm());
    assert_eq!(PeKind::TapascoRiscv.memconf(), PEMemConfig::bram_tapascoriscv());
}

#[test]
fn device_failures_are_wrapped_with_their_subsystem() {
    let f = failure("x");
    assert_eq!(
        TapascoRunError::from_device(Subsystem::Allocator, f.clone()),
        TapascoRunError::TapascoAllocator { source: f.clone() }
    );
    assert_eq!(
        TapascoRunError::from_device(Subsystem::Dma, f.clone()),
        TapascoRunError::TapascoDMA { source: f.clone() }
    );
    assert_eq!(
        TapascoRunError::from_device(Subsystem::Tlkm, f.clone()),
        TapascoRunError::TapascoTLKM { source: f.clone() }
    );
    assert_eq!(
        TapascoRunError::from_device(Subsystem::Device, f.clone()),
        TapascoRunError::TapascoDevice { source: f.clone() }
    );
    assert_eq!(
        TapascoRunError::from_device(Subsystem::Pe, f.clone()),
        TapascoRunError::TapascoPE { source: f.clone() }
    );
    assert_eq!(
        TapascoRunError::from_device(Subsystem::Job, f.clone()),
        TapascoRunError::TapascoJob { source: JobError::Other { failure: f } }
    );
}

#[test]
fn numbers_of_the_environment() {
    assert_eq!(format_hex8(0), "00000000");
    assert_eq!(format_hex8(0x4080_0abc), "40800abc");
    assert_eq!(format_hex8(u32::MAX), "ffffffff");
    assert_eq!(format_decimal(0), "0");
    assert_eq!(format_decimal(4096), "4096");
    assert_eq!(format_decimal(u64::MAX), "18446744073709551615");
    assert_eq!(format_fd(7), "7");
    assert_eq!(format_fd(-1), "-1");
    assert_eq!(format_fd(i32::MIN), "-2147483648");
    assert_eq!(shmem_path(1234, 5), "/libafl_1234_5");
}

#[test]
fn environment_of_the_simulation() {
    let env = launch_environment(
        "prog.bin".to_string(),
        0x1000,
        "/libafl_1_0".to_string(),
        4096,
        5,
        8,
        -1,
    );
    assert_eq!(env.target, "prog.bin");
    assert_eq!(env.ignore_min, "00001000");
    assert_eq!(env.shmem, "/libafl_1_0");
    assert_eq!(env.shmem_size, "4096");
    assert_eq!(env.req_pipe, "5");
    assert_eq!(env.resp_pipe, "8");
    assert_eq!(env.stdout, "-1");
}

#[test]
fn bitmap_size_is_a_power_of_two_of_at_most_8192() {
    for n in [1_usize, 2, 4, 64, 4096, 8192] {
        assert_eq!(validate_bitmap_size(n), Ok(()));
    }
    for n in [0_usize, 3, 6, 100, 8191] {
        assert_eq!(validate_bitmap_size(n), Err(ArgError::BitmapSizeNotPowerOfTwo));
    }
    for n in [8193_usize, 16384, usize::MAX] {
        assert_eq!(validate_bitmap_size(n), Err(ArgError::BitmapSizeTooLarge));
    }
}

#[test]
fn thread_and_iteration_counts() {
    assert_eq!(validate_numiter(0), Err(ArgError::NoIterations));
    assert_eq!(validate_numiter(3), Ok(3));
    assert_eq!(validate_numthreads(0), Err(ArgError::NoThreads));
    assert_eq!(validate_numthreads(1), Ok(()));
    assert_eq!(validate_numthreads(1024), Ok(()));
    assert_eq!(validate_numthreads(1025), Err(ArgError::TooManyThreads));
    assert!(uses_affinity(4, 4));
    assert!(!uses_affinity(5, 4));
    assert!(pool_per_element(4, 4));
    assert!(!pool_per_element(3, 4));
    assert!(!takes_own_pool(2, 4, 0));
    assert!(!takes_own_pool(2, 4, 1));
    assert!(takes_own_pool(2, 4, 2));
    assert!(takes_own_pool(1, 4, 3));
}
