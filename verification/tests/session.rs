use can_bootloader::can::{
    AckMessage, BeginCanFlashingMessage, BeginFlashInfoMessage, FlashDataMessage,
    FlashFinishMessage, RevertSectorMessage,
};
use can_bootloader::fdcan;
use can_bootloader::frame::CanFrame;
use can_bootloader::session::{Action, Bus, FlashSession, FlashTarget, Phase};

const BOARD: u64 = 0xB0A2_D1D0_0000_0042;
const BOOTLOADER: u32 = 0x8000;
const FLASH: u32 = 0x10_0000;

fn is_ack(a: &Action) -> bool {
    matches!(a, Action::SendAck)
}

fn can_session_receiving() -> FlashSession {
    let mut s = FlashSession::new(
        BOARD,
        Bus::Can,
        FlashTarget::Internal { bootloader_size: BOOTLOADER, flash_size: FLASH },
    );
    let acts = s.on_frame(&BeginCanFlashingMessage { board_id: BOARD }.to_frame());
    assert_eq!(acts.len(), 1);
    let acts = s.on_frame(&BeginFlashInfoMessage { app_len: 1000 }.to_frame());
    assert_eq!(acts.len(), 2);
    let acts = s.on_erase_done(true);
    assert_eq!(acts.len(), 1);
    assert_eq!(s.phase, Phase::Receiving);
    s
}

fn data(index: u8, fill: u8) -> CanFrame {
    FlashDataMessage { index, data: [fill; 7] }.to_frame()
}

#[test]
fn request_for_another_board_is_ignored() {
    let mut s = FlashSession::new(
        BOARD,
        Bus::Can,
        FlashTarget::Internal { bootloader_size: BOOTLOADER, flash_size: FLASH },
    );
    assert!(s.on_frame(&BeginCanFlashingMessage { board_id: BOARD + 1 }.to_frame()).is_empty());
    assert!(s.on_frame(&AckMessage.to_frame()).is_empty());
    assert!(s.on_frame(&BeginFlashInfoMessage { app_len: 10 }.to_frame()).is_empty());
    assert_eq!(s.phase, Phase::AwaitBegin);
    let acts = s.on_frame(&BeginCanFlashingMessage { board_id: BOARD }.to_frame());
    assert_eq!(acts.len(), 1);
    assert!(is_ack(&acts[0]));
    assert_eq!(s.phase, Phase::AwaitInfo);
}

#[test]
fn no_request_in_time_ends_the_session() {
    let mut s = FlashSession::new(
        BOARD,
        Bus::Can,
        FlashTarget::Internal { bootloader_size: BOOTLOADER, flash_size: FLASH },
    );
    assert!(s.on_timeout().is_empty());
    assert_eq!(s.phase, Phase::TimedOut);
    assert!(s.is_done());
    assert!(s.on_frame(&BeginCanFlashingMessage { board_id: BOARD }.to_frame()).is_empty());
    assert_eq!(s.phase, Phase::TimedOut);
}

#[test]
fn flash_info_starts_the_erase() {
    let mut s = FlashSession::new(
        BOARD,
        Bus::Can,
        FlashTarget::Internal { bootloader_size: BOOTLOADER, flash_size: FLASH },
    );
    s.on_frame(&BeginCanFlashingMessage { board_id: BOARD }.to_frame());
    let acts = s.on_frame(&BeginFlashInfoMessage { app_len: 0x9000 }.to_frame());
    assert_eq!(acts.len(), 2);
    assert!(is_ack(&acts[0]));
    assert!(matches!(acts[1], Action::EraseRange { from: 0x8000, to: 0x18000 }));
    assert_eq!(s.phase, Phase::Erasing);
    assert!(s.on_timeout().is_empty());
    assert_eq!(s.phase, Phase::Erasing);
}

#[test]
fn failed_erase_falls_back_to_whole_flash() {
    let mut s = FlashSession::new(
        BOARD,
        Bus::Can,
        FlashTarget::Internal { bootloader_size: BOOTLOADER, flash_size: FLASH },
    );
    s.on_frame(&BeginCanFlashingMessage { board_id: BOARD }.to_frame());
    s.on_frame(&BeginFlashInfoMessage { app_len: 10 }.to_frame());
    let acts = s.on_erase_done(false);
    assert_eq!(acts.len(), 1);
    assert!(matches!(acts[0], Action::EraseRange { from: 0x8000, to: 0x10_0000 }));
    assert_eq!(s.phase, Phase::ErasingAll);
    let acts = s.on_erase_done(true);
    assert_eq!(acts.len(), 1);
    assert!(is_ack(&acts[0]));
    assert_eq!(s.phase, Phase::Receiving);
    assert_eq!(s.current_offset, 0);
}

#[test]
fn full_sector_is_written_after_bootloader() {
    let mut s = can_session_receiving();
    for k in 0..31u8 {
        assert!(s.on_frame(&data(k * 7, k + 1)).is_empty());
    }
    let acts = s.on_frame(&data(31 * 7, 32));
    assert_eq!(acts.len(), 3);
    assert!(is_ack(&acts[0]));
    assert!(is_ack(&acts[2]));
    match &acts[1] {
        Action::WriteFlash { address, data } => {
            assert_eq!(*address, BOOTLOADER);
            assert_eq!(data.len(), 224);
            for k in 0..32usize {
                assert_eq!(&data[k * 7..k * 7 + 7], &[(k + 1) as u8; 7]);
            }
        }
        _ => panic!("expected a flash write"),
    }
    assert_eq!(s.current_offset, 224);
    assert_eq!(s.sector.offset, 224);
    assert_eq!(s.received, 0);
}

#[test]
fn sectors_are_written_one_after_another() {
    let mut s = can_session_receiving();
    let mut addresses = Vec::new();
    for _ in 0..3 {
        for k in 0..32u8 {
            for a in s.on_frame(&data(k * 7, 0xAA)) {
                if let Action::WriteFlash { address, .. } = a {
                    addresses.push(address);
                }
            }
        }
    }
    assert_eq!(addresses, vec![BOOTLOADER, BOOTLOADER + 224, BOOTLOADER + 448]);
}

#[test]
fn revert_discards_the_partial_sector() {
    let mut s = can_session_receiving();
    for k in 0..32u8 {
        s.on_frame(&data(k * 7, 1));
    }
    for k in 0..5u8 {
        s.on_frame(&data(k * 7, 2));
    }
    assert_eq!(s.received, 5);
    let acts = s.on_frame(&RevertSectorMessage.to_frame());
    assert_eq!(acts.len(), 1);
    assert!(is_ack(&acts[0]));
    assert_eq!(s.received, 0);
    assert_eq!(s.current_offset, 224);
    assert_eq!(s.sector.offset, 224);
    assert!(s.sector.data.iter().all(|b| *b == 0));
}

#[test]
fn finish_ends_the_session() {
    let mut s = can_session_receiving();
    s.on_frame(&data(0, 3));
    let acts = s.on_frame(&FlashFinishMessage.to_frame());
    assert_eq!(acts.len(), 1);
    assert!(is_ack(&acts[0]));
    assert_eq!(s.phase, Phase::Finished);
    assert!(s.is_done());
    assert!(s.on_frame(&data(7, 3)).is_empty());
}

#[test]
fn out_of_sector_data_is_not_accepted() {
    let s = can_session_receiving();
    assert!(s.accepts_frame(&data(217, 0)));
    assert!(!s.accepts_frame(&data(218, 0)));
    assert!(!s.accepts_frame(&CanFrame { id: data(0, 0).id, data: vec![0; 3] }));
    assert!(s.accepts_frame(&AckMessage.to_frame()));
}

#[test]
fn overflowing_erase_range_is_not_accepted() {
    let mut s = FlashSession::new(
        BOARD,
        Bus::Can,
        FlashTarget::Internal { bootloader_size: BOOTLOADER, flash_size: FLASH },
    );
    s.on_frame(&BeginCanFlashingMessage { board_id: BOARD }.to_frame());
    assert!(s.accepts_frame(&BeginFlashInfoMessage { app_len: 1000 }.to_frame()));
    assert!(!s.accepts_frame(&BeginFlashInfoMessage { app_len: u32::MAX }.to_frame()));
    assert!(s.accepts_frame(&AckMessage.to_frame()));
}

#[test]
fn fdcan_external_flash_session() {
    let mut s = FlashSession::new(BOARD, Bus::FdCan, FlashTarget::External { erase_size: 0x8000 });
    s.on_frame(&BeginCanFlashingMessage { board_id: BOARD }.to_frame());
    let info = fdcan::BeginFlashInfoMessage { app_len: 0x10001, sector_size: 2 };
    let acts = s.on_frame(&info.to_frame());
    assert_eq!(acts.len(), 5);
    assert!(is_ack(&acts[0]));
    assert!(matches!(acts[1], Action::EraseBlock { address: 0 }));
    assert!(matches!(acts[2], Action::EraseBlock { address: 0x8000 }));
    assert!(matches!(acts[3], Action::EraseBlock { address: 0x10000 }));
    assert!(is_ack(&acts[4]));
    assert_eq!(s.phase, Phase::Receiving);
    assert_eq!(s.messages_per_sector, 2);
    assert_eq!(s.sector_bytes, 14);
    assert!(s.on_frame(&data(7, 5)).is_empty());
    let acts = s.on_frame(&data(0, 4));
    assert_eq!(acts.len(), 3);
    match &acts[1] {
        Action::WriteFlash { address, data } => {
            assert_eq!(*address, 0);
            assert_eq!(data, &vec![4, 4, 4, 4, 4, 4, 4, 5, 5, 5, 5, 5, 5, 5]);
        }
        _ => panic!("expected a flash write"),
    }
    let acts = s.on_frame(&data(0, 6));
    assert!(acts.is_empty());
    let acts = s.on_frame(&data(7, 6));
    match &acts[1] {
        Action::WriteFlash { address, .. } => assert_eq!(*address, 14),
        _ => panic!("expected a flash write"),
    }
}

#[test]
fn fdcan_sector_larger_than_buffer_is_not_accepted_when_full() {
    let mut s = FlashSession::new(
        BOARD,
        Bus::FdCan,
        FlashTarget::Internal { bootloader_size: BOOTLOADER, flash_size: FLASH },
    );
    s.on_frame(&BeginCanFlashingMessage { board_id: BOARD }.to_frame());
    s.on_frame(&fdcan::BeginFlashInfoMessage { app_len: 100, sector_size: 33 }.to_frame());
    s.on_erase_done(true);
    for k in 0..32u8 {
        assert!(s.accepts_frame(&data(k * 7, 0)));
        s.on_frame(&data(k * 7, 0));
    }
    assert!(!s.accepts_frame(&data(0, 0)));
}

#[test]
fn erase_comes_before_any_write() {
    let mut s = FlashSession::new(
        BOARD,
        Bus::Can,
        FlashTarget::Internal { bootloader_size: BOOTLOADER, flash_size: FLASH },
    );
    let mut all = Vec::new();
    all.extend(s.on_frame(&BeginCanFlashingMessage { board_id: BOARD }.to_frame()));
    all.extend(s.on_frame(&BeginFlashInfoMessage { app_len: 300 }.to_frame()));
    all.extend(s.on_erase_done(true));
    for k in 0..32u8 {
        all.extend(s.on_frame(&data(k * 7, 1)));
    }
    all.extend(s.on_frame(&FlashFinishMessage.to_frame()));
    let erase = all
        .iter()
        .position(|a| matches!(a, Action::EraseRange { from: 0x8000, to: 0x10000 }))
        .unwrap();
    let write = all.iter().position(|a| matches!(a, Action::WriteFlash { .. })).unwrap();
    assert!(erase < write);
    assert!(is_ack(all.last().unwrap()));
    assert_eq!(s.phase, Phase::Finished);
}

fn run_all(s: &mut FlashSession, frames: &[CanFrame]) -> Vec<Action> {
    let mut all = Vec::new();
    for f in frames {
        all.extend(s.on_frame(f));
        if s.phase == Phase::Erasing {
            all.extend(s.on_erase_done(true));
        }
    }
    all
}

#[test]
fn nothing_happens_before_the_request_and_bootloader_is_spared() {
    let mut s = FlashSession::new(
        BOARD,
        Bus::Can,
        FlashTarget::Internal { bootloader_size: BOOTLOADER, flash_size: FLASH },
    );
    let mut frames = vec![
        BeginFlashInfoMessage { app_len: 50 }.to_frame(),
        data(0, 1),
        FlashFinishMessage.to_frame(),
    ];
    assert!(run_all(&mut s, &frames).is_empty());
    frames = vec![
        BeginCanFlashingMessage { board_id: BOARD }.to_frame(),
        BeginFlashInfoMessage { app_len: 50 }.to_frame(),
    ];
    let mut all = run_all(&mut s, &frames);
    assert!(is_ack(&all[0]));
    for k in 0..64u8 {
        all.extend(s.on_frame(&data((k % 32) * 7, k)));
    }
    for a in &all {
        match a {
            Action::EraseRange { from, .. } => assert!(*from >= BOOTLOADER),
            Action::WriteFlash { address, .. } => assert!(*address >= BOOTLOADER),
            Action::EraseBlock { .. } => panic!("no block erase on internal flash"),
            Action::SendAck => {}
        }
    }
}

#[test]
fn acknowledgements_are_counted_per_sector() {
    let mut s = can_session_receiving();
    let mut all = Vec::new();
    for k in 0..32u8 {
        all.extend(s.on_frame(&data(k * 7, 1)));
    }
    for k in 0..3u8 {
        all.extend(s.on_frame(&data(k * 7, 1)));
    }
    all.extend(s.on_frame(&RevertSectorMessage.to_frame()));
    all.extend(s.on_frame(&AckMessage.to_frame()));
    all.extend(s.on_frame(&FlashFinishMessage.to_frame()));
    let acks = all.iter().filter(|a| is_ack(a)).count();
    let writes = all.iter().filter(|a| matches!(a, Action::WriteFlash { .. })).count();
    assert_eq!(writes, 1);
    assert_eq!(acks, 2 * writes + 1 + 1);
    for (i, a) in all.iter().enumerate() {
        if matches!(a, Action::WriteFlash { .. }) {
            assert!(is_ack(&all[i - 1]) && is_ack(&all[i + 1]));
        }
    }
}

#[test]
fn ignored_frames_change_nothing() {
    let mut s = can_session_receiving();
    s.on_frame(&data(0, 9));
    let before = (s.received, s.current_offset, s.sector.data);
    for f in [AckMessage.to_frame(), BeginCanFlashingMessage { board_id: BOARD }.to_frame(),
              BeginFlashInfoMessage { app_len: 3 }.to_frame()] {
        assert!(s.accepts_frame(&f));
        assert!(s.on_frame(&f).is_empty());
    }
    assert_eq!((s.received, s.current_offset, s.sector.data), before);
}
