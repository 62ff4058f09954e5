use can_bootloader::erase::{
    app_erase_range, app_erase_range_fits_exec, erase_block_addresses, erase_blocks_fit_exec,
};
use can_bootloader::sector::FlashSectorToWrite;

#[test]
fn empty_sector_is_zeroed_without_offset() {
    let s = FlashSectorToWrite::empty();
    assert_eq!(s.offset, u32::MAX);
    assert_eq!(s.data.len(), 224);
    assert!(s.data.iter().all(|b| *b == 0));
}

#[test]
fn chunks_land_at_their_index() {
    let mut s = FlashSectorToWrite::empty();
    s.write_chunk(7, &[1, 2, 3, 4, 5, 6, 7]);
    s.write_chunk(217, &[9; 7]);
    assert_eq!(&s.data[0..7], &[0; 7]);
    assert_eq!(&s.data[7..14], &[1, 2, 3, 4, 5, 6, 7]);
    assert_eq!(&s.data[14..217], &[0; 203][..]);
    assert_eq!(&s.data[217..224], &[9; 7]);
    s.write_chunk(9, &[8; 7]);
    assert_eq!(&s.data[7..18], &[1, 2, 8, 8, 8, 8, 8, 8, 8, 0, 0]);
    assert_eq!(s.prefix(9), vec![0, 0, 0, 0, 0, 0, 0, 1, 2]);
    assert!(s.prefix(0).is_empty());
}

#[test]
fn erase_range_rounds_up_to_bootloader_size() {
    assert_eq!(app_erase_range(0x8000, 1000), (0x8000, 0x10000));
    assert_eq!(app_erase_range(0x8000, 0x8000), (0x8000, 0x10000));
    assert_eq!(app_erase_range(0x8000, 0x8001), (0x8000, 0x18000));
    assert_eq!(app_erase_range(0x8000, 0), (0x8000, 0x8000));
}

#[test]
fn erase_range_rejects_overflow_and_zero_size() {
    assert!(app_erase_range_fits_exec(0x8000, 1000));
    assert!(!app_erase_range_fits_exec(0, 1000));
    assert!(!app_erase_range_fits_exec(0x8000, u32::MAX));
    assert!(!app_erase_range_fits_exec(0x8000_0000, 0x7FFF_FFFF));
    assert!(app_erase_range_fits_exec(0x8000_0000, 0));
}

#[test]
fn erase_blocks_cover_the_application() {
    assert_eq!(erase_block_addresses(100, 32), vec![0, 32, 64, 96]);
    assert_eq!(erase_block_addresses(64, 32), vec![0, 32]);
    assert_eq!(erase_block_addresses(0, 32), Vec::<u32>::new());
    assert_eq!(erase_block_addresses(0, 0), Vec::<u32>::new());
    assert!(erase_blocks_fit_exec(100, 32));
    assert!(!erase_blocks_fit_exec(1, 0));
    assert!(erase_blocks_fit_exec(0, 0));
    assert!(!erase_blocks_fit_exec(u32::MAX, 0x8000));
}
