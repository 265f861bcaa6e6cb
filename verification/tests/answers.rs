use ale_rs::error::{error_from_message, error_from_text, AleError, NO_MESSAGE};
use ale_rs::outcome::{
    action_buffer, bool_argument, construction, flag_from, keep_written, pixel_count,
    rom_name, rom_name_buffer, succeeded, Screen, ROM_NAME_CAPACITY,
};
use ale_rs::text::{contains_nul, position_of_nul};

#[test]
fn status_codes_and_flags() {
    assert!(succeeded(0));
    assert!(!succeeded(1));
    assert!(!succeeded(-1));
    assert!(flag_from(1));
    assert!(flag_from(-7));
    assert!(!flag_from(0));
    assert_eq!(bool_argument(true), 1);
    assert_eq!(bool_argument(false), 0);
}

#[test]
fn construction_reports_a_missing_instance() {
    assert_eq!(construction(true).err(), Some(AleError::ConstructionFailed));
    let session = construction(false).unwrap();
    assert!(!session.is_rom_loaded());
}

#[test]
fn rom_name_stops_at_the_first_nul() {
    let mut buffer = rom_name_buffer();
    assert_eq!(buffer.len(), ROM_NAME_CAPACITY);
    assert!(buffer.iter().all(|b| *b == 0));
    buffer[..6].copy_from_slice(b"tetris");
    assert_eq!(rom_name(&buffer), "tetris");
    assert_eq!(rom_name(b"pong\0xyz\0"), "pong");
    assert_eq!(rom_name(b"\0pong"), "");
}

#[test]
fn rom_name_without_a_nul_is_empty() {
    assert_eq!(rom_name(b"no terminator"), "");
    assert_eq!(rom_name(b""), "");
}

#[test]
fn rom_name_replaces_invalid_utf8() {
    assert_eq!(rom_name(b"ab\xffcd\0"), "ab\u{FFFD}cd");
    assert_eq!(rom_name("caf\u{e9}\0".as_bytes()), "caf\u{e9}");
}

#[test]
fn failures_carry_ales_text_or_a_generic_one() {
    assert_eq!(error_from_message(b""), AleError::Ale(NO_MESSAGE.to_string()));
    assert_eq!(
        error_from_message(b""),
        AleError::Ale("ALE reported a failure with no message".to_string())
    );
    assert_eq!(
        error_from_message(b"ROM file not found"),
        AleError::Ale("ROM file not found".to_string())
    );
    assert_eq!(error_from_message(b"\xff"), AleError::Ale("\u{FFFD}".to_string()));
    assert_eq!(error_from_text(String::new()), AleError::Ale(NO_MESSAGE.to_string()));
    assert_eq!(error_from_text("x".to_string()), AleError::Ale("x".to_string()));
}

#[test]
fn minimal_action_set_keeps_what_was_written() {
    let buffer = action_buffer(4);
    assert_eq!(buffer, vec![0, 0, 0, 0]);
    let mut actions = vec![0, 1, 3, 4];
    keep_written(&mut actions, 2);
    assert_eq!(actions, vec![0, 1]);
    let mut actions = vec![0, 1, 3, 4];
    keep_written(&mut actions, 9);
    assert_eq!(actions, vec![0, 1, 3, 4]);
    let mut actions = vec![5];
    keep_written(&mut actions, 0);
    assert!(actions.is_empty());
}

#[test]
fn screens_cover_height_times_width() {
    assert_eq!(pixel_count(210, 160), 33600);
    assert_eq!(pixel_count(0, 160), 0);
    let pixels = vec![7u8; 6];
    let screen = Screen { pixels: &pixels, height: 2, width: 3 };
    assert_eq!(screen.pixels.len(), pixel_count(screen.height, screen.width));
}

#[test]
fn nul_search() {
    assert!(contains_nul("a\0b"));
    assert!(!contains_nul("ab"));
    assert_eq!(position_of_nul(b"ab\0c\0"), Some(2));
    assert_eq!(position_of_nul(b"abc"), None);
}
