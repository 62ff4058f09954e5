use can_bootloader::can::{
    AckMessage, BeginCanFlashingMessage, BeginFlashInfoMessage, FlashDataMessage,
    FlashFinishMessage, RevertSectorMessage,
};
use can_bootloader::fdcan;
use can_bootloader::frame::{CanFrame, CanId};

fn frame(id: u16, data: &[u8]) -> CanFrame {
    CanFrame { id: CanId::Standard(id), data: data.to_vec() }
}

#[test]
fn begin_can_flashing_encodes_board_id_in_memory_order() {
    let f = BeginCanFlashingMessage { board_id: 0x0102_0304_0506_0708 }.to_frame();
    assert_eq!(f.id, CanId::Standard(0x303));
    assert_eq!(f.data, 0x0102_0304_0506_0708u64.to_ne_bytes().to_vec());
    assert_eq!(
        BeginCanFlashingMessage::try_from_frame(&f),
        Some(BeginCanFlashingMessage { board_id: 0x0102_0304_0506_0708 })
    );
}

#[test]
fn begin_can_flashing_ignores_other_ids() {
    assert_eq!(BeginCanFlashingMessage::try_from_frame(&frame(0x304, &[])), None);
    assert_eq!(
        BeginCanFlashingMessage::try_from_frame(&CanFrame {
            id: CanId::Extended(0x303),
            data: vec![0; 8]
        }),
        None
    );
}

#[test]
fn ack_frame_is_empty() {
    let f = AckMessage.to_frame();
    assert_eq!(f.id, CanId::Standard(0x304));
    assert!(f.data.is_empty());
    assert_eq!(AckMessage::try_from_frame(&f), Some(AckMessage));
    assert_eq!(AckMessage::try_from_frame(&frame(0x304, &[1, 2, 3])), Some(AckMessage));
    assert_eq!(AckMessage::try_from_frame(&frame(0x305, &[])), None);
}

#[test]
fn flash_data_layout_is_index_then_bytes() {
    let m = FlashDataMessage { index: 14, data: [1, 2, 3, 4, 5, 6, 7] };
    let f = m.to_frame();
    assert_eq!(f.id, CanId::Standard(0x305));
    assert_eq!(f.data, vec![14, 1, 2, 3, 4, 5, 6, 7]);
    assert_eq!(FlashDataMessage::try_from_frame(&f), Some(m));
    assert_eq!(FlashDataMessage::try_from_frame(&frame(0x306, &[0; 4])), None);
}

#[test]
fn flash_info_encodes_app_len() {
    let f = BeginFlashInfoMessage { app_len: 0x1234_5678 }.to_frame();
    assert_eq!(f.id, CanId::Standard(0x306));
    assert_eq!(f.data, 0x1234_5678u32.to_ne_bytes().to_vec());
    assert_eq!(
        BeginFlashInfoMessage::try_from_frame(&f),
        Some(BeginFlashInfoMessage { app_len: 0x1234_5678 })
    );
}

#[test]
fn fdcan_flash_info_is_packed() {
    let m = fdcan::BeginFlashInfoMessage { app_len: 70_000, sector_size: 32 };
    let f = m.to_frame();
    assert_eq!(f.id, CanId::Standard(0x306));
    let mut expected = 70_000u32.to_ne_bytes().to_vec();
    expected.push(32);
    assert_eq!(f.data, expected);
    assert_eq!(fdcan::BeginFlashInfoMessage::try_from_frame(&f), Some(m));
    assert_eq!(fdcan::BeginFlashInfoMessage::try_from_frame(&frame(0x307, &[])), None);
}

#[test]
fn finish_and_revert_frames() {
    let f = FlashFinishMessage.to_frame();
    assert_eq!(f.id, CanId::Standard(0x307));
    assert!(f.data.is_empty());
    assert_eq!(FlashFinishMessage::try_from_frame(&f), Some(FlashFinishMessage));
    assert_eq!(RevertSectorMessage::try_from_frame(&f), None);
    let r = RevertSectorMessage.to_frame();
    assert_eq!(r.id, CanId::Standard(0x308));
    assert!(r.data.is_empty());
    assert_eq!(RevertSectorMessage::try_from_frame(&r), Some(RevertSectorMessage));
    assert_eq!(FlashFinishMessage::try_from_frame(&r), None);
}

#[test]
fn each_message_frame_decodes_as_its_own_kind_only() {
    let frames = vec![
        BeginCanFlashingMessage { board_id: 7 }.to_frame(),
        AckMessage.to_frame(),
        FlashDataMessage { index: 0, data: [0; 7] }.to_frame(),
        BeginFlashInfoMessage { app_len: 9 }.to_frame(),
        FlashFinishMessage.to_frame(),
        RevertSectorMessage.to_frame(),
    ];
    for (i, f) in frames.iter().enumerate() {
        let kinds = [
            f.id == CanId::Standard(0x303) && BeginCanFlashingMessage::try_from_frame(f).is_some(),
            AckMessage::try_from_frame(f).is_some(),
            f.id == CanId::Standard(0x305) && FlashDataMessage::try_from_frame(f).is_some(),
            f.id == CanId::Standard(0x306) && BeginFlashInfoMessage::try_from_frame(f).is_some(),
            FlashFinishMessage::try_from_frame(f).is_some(),
            RevertSectorMessage::try_from_frame(f).is_some(),
        ];
        for (k, hit) in kinds.iter().enumerate() {
            assert_eq!(*hit, k == i);
        }
    }
}

#[test]
fn can_ids_are_checked_against_their_width() {
    assert_eq!(CanId::standard(0x7FF), Some(CanId::Standard(0x7FF)));
    assert_eq!(CanId::standard(0x800), None);
    assert_eq!(CanId::extended(0x1FFF_FFFF), Some(CanId::Extended(0x1FFF_FFFF)));
    assert_eq!(CanId::extended(0x2000_0000), None);
}

#[test]
fn frames_carry_at_most_eight_bytes() {
    let f = CanFrame::new_data(CanId::Standard(1), &[1, 2, 3, 4, 5, 6, 7, 8]).unwrap();
    assert_eq!(f.data, vec![1, 2, 3, 4, 5, 6, 7, 8]);
    assert!(CanFrame::new_data(CanId::Standard(1), &[0; 9]).is_none());
    assert!(CanFrame::new_data(CanId::Standard(1), &[]).unwrap().data.is_empty());
}

#[test]
fn integers_travel_little_endian_on_this_host() {
    if 1u16.to_ne_bytes()[0] == 1 {
        let f = BeginCanFlashingMessage { board_id: 0x1122_3344_5566_7788 }.to_frame();
        assert_eq!(f.data, vec![0x88, 0x77, 0x66, 0x55, 0x44, 0x33, 0x22, 0x11]);
        let g = BeginFlashInfoMessage { app_len: 0x0A0B_0C0D }.to_frame();
        assert_eq!(g.data, vec![0x0D, 0x0C, 0x0B, 0x0A]);
    }
}
