use porcupine::Error;

#[test]
fn error_without_message() {
    let error = Error::new("SetEvent", 5, None);
    assert_eq!(error.function(), "SetEvent");
    assert_eq!(error.code(), 5);
    assert_eq!(error.message(), None);
    assert_eq!(error.describe(), "SetEvent failed (error code: 5)");
}

#[test]
fn error_with_message() {
    let error = Error::new("CreateEventA", 1450, Some(String::from("Insufficient resources.")));
    assert_eq!(error.message(), Some("Insufficient resources."));
    assert_eq!(
        error.describe(),
        "CreateEventA failed: Insufficient resources. (error code: 1450)"
    );
}

#[test]
fn error_code_extremes_are_written_in_decimal() {
    assert_eq!(Error::new("A", 0, None).describe(), "A failed (error code: 0)");
    assert_eq!(
        Error::new("B", u32::MAX, None).describe(),
        "B failed (error code: 4294967295)"
    );
}

#[test]
fn system_message_loses_its_line_break() {
    let mut buffer = [0u8; 64];
    let text = b"Access is denied.\r\n";
    buffer[..text.len()].copy_from_slice(text);
    let error = Error::from_system_message("DuplicateHandle", 5, &buffer, text.len() as u32);
    assert_eq!(error.function(), "DuplicateHandle");
    assert_eq!(error.code(), 5);
    assert_eq!(error.message(), Some("Access is denied."));
}

#[test]
fn no_system_message_gives_none() {
    let buffer = [0u8; 16];
    let error = Error::from_system_message("CloseHandle", 6, &buffer, 0);
    assert_eq!(error.message(), None);
}

#[test]
fn short_system_message_gives_empty_text() {
    let buffer = [b'x'; 4];
    let error = Error::from_system_message("CloseHandle", 6, &buffer, 1);
    assert_eq!(error.message(), Some(""));
}

#[test]
fn invalid_system_message_bytes_are_replaced() {
    let buffer = [b'f', 0xff, b'o', b'\r', b'\n'];
    let error = Error::from_system_message("SetEvent", 87, &buffer, 5);
    assert_eq!(error.message(), Some("f\u{FFFD}o"));
}
