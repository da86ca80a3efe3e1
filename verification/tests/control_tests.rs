use hub::control::{is_shutdown_command, shutdown_command};

#[test]
fn shutdown_word_is_recognised() {
    assert_eq!(shutdown_command(), "shutdown");
    assert!(is_shutdown_command(b"shutdown"));
    assert!(is_shutdown_command(shutdown_command().as_bytes()));
    assert!(is_shutdown_command(b"  shutdown\r\n"));
    assert!(is_shutdown_command(b"\tshutdown "));
    assert!(is_shutdown_command(b"\x0b\x0cshutdown"));
}

#[test]
fn unicode_white_space_is_trimmed() {
    assert!(is_shutdown_command(b"\xc2\xa0shutdown"));
    assert!(is_shutdown_command("\u{2003}shutdown\u{3000}\u{85}".as_bytes()));
    assert!(is_shutdown_command("\u{1680}\u{2028}\u{2029}shutdown\u{202f}\u{205f}".as_bytes()));
    assert!(!is_shutdown_command("\u{200b}shutdown".as_bytes()));
    assert!(!is_shutdown_command("\u{180e}shutdown".as_bytes()));
}

#[test]
fn anything_else_is_not_a_shutdown() {
    assert!(!is_shutdown_command(b""));
    assert!(!is_shutdown_command(b"   "));
    assert!(!is_shutdown_command(b"Shutdown"));
    assert!(!is_shutdown_command(b"SHUTDOWN"));
    assert!(!is_shutdown_command(b"shutdown now"));
    assert!(!is_shutdown_command(b"please shutdown"));
    assert!(!is_shutdown_command(b"shut down"));
    assert!(!is_shutdown_command(b"shutdow"));
    assert!(!is_shutdown_command(b"shutdowns"));
    assert!(!is_shutdown_command(b"shutdown\0"));
}

#[test]
fn bytes_that_are_no_text_are_not_a_shutdown() {
    assert!(!is_shutdown_command(b"shutdown\xff"));
    assert!(!is_shutdown_command(b"\xffshutdown"));
    assert!(!is_shutdown_command(b" shutdown \xc3"));
}
