use can_bootloader::can::{protocol_filter_banks, Fifo};
use can_bootloader::mpu::{external_flash_rasr, mpu_ctrl_enabled, EXTERNAL_FLASH_REGION_SIZE_CODE};
use can_bootloader::octo_spi::{
    block_erase, enable_octal_dtr_mode_plan, erase_plan, memory_mapped_plan, page_program,
    read_status_octal, status_satisfies, write_enable_octal, write_plan, AddressSize, OspiStep,
    OspiWidth, Payload, StatusCondition,
};

#[test]
fn rasr_for_a_256_mib_executable_region() {
    let r = external_flash_rasr(EXTERNAL_FLASH_REGION_SIZE_CODE);
    assert_eq!(r, (0b011 << 24) | (1 << 17) | (27 << 1) | 1);
    assert_eq!(r, 0x0302_0037);
}

#[test]
fn ctrl_enable_keeps_other_bits() {
    assert_eq!(mpu_ctrl_enabled(0), 5);
    assert_eq!(mpu_ctrl_enabled(2), 7);
    assert_eq!(mpu_ctrl_enabled(0x100), 0x105);
}

#[test]
fn filter_banks_list_the_six_messages() {
    let banks = protocol_filter_banks(false);
    assert_eq!(banks.iter().map(|b| b.bank).collect::<Vec<_>>(), vec![0, 1, 2]);
    assert!(banks.iter().all(|b| b.fifo == Fifo::Fifo0));
    let ids: Vec<u16> = banks.iter().flat_map(|b| [b.first_id, b.second_id]).collect();
    assert_eq!(ids, vec![0x303, 0x304, 0x305, 0x306, 0x307, 0x308]);
    let banks2 = protocol_filter_banks(true);
    assert_eq!(banks2.iter().map(|b| b.bank).collect::<Vec<_>>(), vec![14, 15, 16]);
    assert!(banks2.iter().all(|b| b.fifo == Fifo::Fifo1));
}

#[test]
fn status_bits() {
    assert!(status_satisfies(StatusCondition::WriteEnabled, 0x02));
    assert!(status_satisfies(StatusCondition::WriteEnabled, 0x43));
    assert!(!status_satisfies(StatusCondition::WriteEnabled, 0x01));
    assert!(status_satisfies(StatusCondition::MemoryReady, 0x02));
    assert!(!status_satisfies(StatusCondition::MemoryReady, 0x03));
}

#[test]
fn erase_transfer() {
    let t = block_erase(0x8000);
    assert_eq!(t.instruction, Some(0x52AD));
    assert_eq!(t.iwidth, OspiWidth::Octo);
    assert_eq!(t.isize, AddressSize::Bits16);
    assert!(t.idtr && t.addtr);
    assert_eq!(t.address, Some(0x8000));
    assert_eq!(t.adsize, AddressSize::Bits32);
    assert_eq!(t.dwidth, OspiWidth::Off);
    assert_eq!(t.dummy_cycles, 0);
}

#[test]
fn plans() {
    let p = erase_plan(0x10000, 20);
    assert_eq!(p.len(), 4);
    assert_eq!(p[0], OspiStep::Command(write_enable_octal()));
    assert_eq!(
        p[1],
        OspiStep::Poll { read: read_status_octal(20), status_len: 2, until: StatusCondition::WriteEnabled }
    );
    assert_eq!(p[2], OspiStep::Command(block_erase(0x10000)));
    assert_eq!(
        p[3],
        OspiStep::Poll { read: read_status_octal(20), status_len: 2, until: StatusCondition::MemoryReady }
    );
    let w = write_plan(0x100, 20);
    assert_eq!(w[2], OspiStep::Write(page_program(0x100), Payload::Buffer));
    assert_eq!(read_status_octal(20).dummy_cycles, 20);
    let d = enable_octal_dtr_mode_plan();
    assert_eq!(d.len(), 4);
    assert_eq!(d[3], OspiStep::Wait(40));
    match d[2] {
        OspiStep::Write(t, Payload::Byte(2)) => assert_eq!(t.instruction, Some(0x72)),
        _ => panic!("expected the configuration write"),
    }
    let m = memory_mapped_plan(20);
    assert_eq!(m.len(), 2);
    match m[0] {
        OspiStep::MemoryMapped { read, write } => {
            assert_eq!(read.instruction, Some(0xEE11));
            assert_eq!(write.instruction, None);
        }
        _ => panic!("expected memory-mapped mode"),
    }
}

use can_bootloader::octo_spi::{ExecOutcome, ExecRequest, PlanRun};

#[test]
fn plan_run_polls_until_ready_then_finishes() {
    let mut run = PlanRun::new(erase_plan(0x8000, 20));
    assert_eq!(run.request(), ExecRequest::Perform(OspiStep::Command(write_enable_octal())));
    run.record(ExecOutcome::Done);
    assert_eq!(run.request(), ExecRequest::ReadStatus { read: read_status_octal(20), status_len: 2 });
    run.record(ExecOutcome::Status(0x00));
    assert_eq!(run.request(), ExecRequest::Pause(1));
    run.record(ExecOutcome::Done);
    assert_eq!(run.request(), ExecRequest::ReadStatus { read: read_status_octal(20), status_len: 2 });
    run.record(ExecOutcome::Status(0x02));
    assert_eq!(run.request(), ExecRequest::Perform(OspiStep::Command(block_erase(0x8000))));
    run.record(ExecOutcome::Done);
    run.record(ExecOutcome::Status(0x01));
    assert_eq!(run.request(), ExecRequest::Pause(1));
    run.record(ExecOutcome::Done);
    run.record(ExecOutcome::Status(0x00));
    assert_eq!(run.request(), ExecRequest::Finished(true));
}

#[test]
fn plan_run_stops_at_first_failure() {
    let mut run = PlanRun::new(write_plan(0x100, 20));
    run.record(ExecOutcome::Done);
    run.record(ExecOutcome::Failed);
    assert_eq!(run.request(), ExecRequest::Finished(false));
    run.record(ExecOutcome::Done);
    run.record(ExecOutcome::Status(0x02));
    assert_eq!(run.request(), ExecRequest::Finished(false));
    assert_eq!(run.index, 1);
}
