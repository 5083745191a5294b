use chai_framework::escape::{clear_all, enter_alt_screen, exit_alt_screen, hide_cursor, show_cursor};
use chai_framework::input::{is_allowed_byte, is_valid_input};
use chai_framework::keys::{missing_key_message, unreadable_key_message};

#[test]
fn control_sequences_are_exact() {
    assert_eq!(enter_alt_screen(), b"\x1b[?1049h".to_vec());
    assert_eq!(exit_alt_screen(), b"\x1b[?1049l".to_vec());
    assert_eq!(hide_cursor(), b"\x1b[?25l".to_vec());
    assert_eq!(show_cursor(), b"\x1b[?25h".to_vec());
    assert_eq!(clear_all(), b"\x1b[2J".to_vec());
}

#[test]
fn allowed_bytes_are_exactly_the_listed_ones() {
    for b in 0u8..=255 {
        let expected = b == b'\n' || b == b'\r' || b == 0x1b || (0x20..=0x7e).contains(&b);
        assert_eq!(is_allowed_byte(b), expected, "byte {:#x}", b);
    }
}

#[test]
fn printable_text_and_escapes_are_valid_input() {
    assert!(is_valid_input(b"q"));
    assert!(is_valid_input(b"hello world ~"));
    assert!(is_valid_input(b"\r\n"));
    assert!(is_valid_input(b"\x1b[A"));
    assert!(is_valid_input(b""));
}

#[test]
fn other_bytes_make_input_invalid() {
    assert!(!is_valid_input(b"\x03"));
    assert!(!is_valid_input(b"\t"));
    assert!(!is_valid_input(b"abc\x7f"));
    assert!(!is_valid_input(b"\x1f"));
    assert!(!is_valid_input(&[0x61, 0x80, 0x62]));
    assert!(!is_valid_input("é".as_bytes()));
}

#[test]
fn host_key_messages() {
    assert_eq!(
        missing_key_message("/.ssh/id_ed25519"),
        "Host key not found at /.ssh/id_ed25519. Please generate host keys first."
    );
    assert_eq!(
        unreadable_key_message("bad format"),
        "Failed to read host key: bad format"
    );
}
