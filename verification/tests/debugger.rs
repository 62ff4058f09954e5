use can_bootloader::debugger::{DebuggerAction, DebuggerPhase, DebuggerSession};

fn sent(a: &DebuggerAction) -> Vec<u8> {
    match a {
        DebuggerAction::Send(b) => b.clone(),
        _ => panic!("expected bytes to send"),
    }
}

#[test]
fn start_command_is_answered_with_sizes() {
    let mut s = DebuggerSession::new(0x8000, 256);
    let acts = s.on_command(Some(0xD));
    assert_eq!(acts.len(), 3);
    assert_eq!(sent(&acts[0]), vec![0xDD]);
    assert_eq!(sent(&acts[1]), vec![0x00, 0x80, 0, 0]);
    assert_eq!(sent(&acts[2]), vec![0x00, 0x01, 0, 0]);
    assert_eq!(s.phase, DebuggerPhase::AwaitAppLen);
}

#[test]
fn other_byte_or_timeout_declines() {
    let mut s = DebuggerSession::new(0x8000, 256);
    assert!(s.on_command(Some(0xE)).is_empty());
    assert_eq!(s.phase, DebuggerPhase::Declined);
    let mut t = DebuggerSession::new(0x8000, 256);
    assert!(t.on_command(None).is_empty());
    assert_eq!(t.phase, DebuggerPhase::Declined);
    assert!(t.on_page(Some(&[0u8; 256][..])).is_empty());
}

#[test]
fn app_len_erases_then_pages_are_written_in_order() {
    let mut s = DebuggerSession::new(0x8000, 4);
    s.on_command(Some(0xD));
    let len = 0x8001u32.to_le_bytes();
    assert!(s.accepts_app_len(&len));
    let acts = s.on_app_len(&len);
    assert_eq!(acts.len(), 3);
    assert!(matches!(acts[0], DebuggerAction::EraseBlock { address: 0 }));
    assert!(matches!(acts[1], DebuggerAction::EraseBlock { address: 0x8000 }));
    assert_eq!(sent(&acts[2]), vec![0xA]);
    assert_eq!(s.phase, DebuggerPhase::Writing);
    for k in 0..3u32 {
        let page = [k as u8; 4];
        assert!(s.accepts_page(Some(&page[..])));
        let acts = s.on_page(Some(&page[..]));
        assert_eq!(acts.len(), 2);
        match &acts[0] {
            DebuggerAction::WriteFlash { address, data } => {
                assert_eq!(*address, 4 * k);
                assert_eq!(data, &page.to_vec());
            }
            _ => panic!("expected a flash write"),
        }
        assert_eq!(sent(&acts[1]), vec![0xB]);
    }
    assert!(!s.accepts_page(Some(&[0u8; 3][..])));
    let acts = s.on_page(None);
    assert_eq!(acts.len(), 1);
    assert_eq!(sent(&acts[0]), vec![0xC]);
    assert_eq!(s.phase, DebuggerPhase::Done);
}

#[test]
fn zero_erase_size_with_data_is_not_accepted() {
    let mut s = DebuggerSession::new(0, 4);
    s.on_command(Some(0xD));
    assert!(!s.accepts_app_len(&[1, 0, 0, 0]));
    assert!(s.accepts_app_len(&[0, 0, 0, 0]));
}
