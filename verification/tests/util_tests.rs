use vpi::flags::flags;
use vpi::sys::VPIStatus_VPI_SUCCESS;
use vpi::util::{c_str_len, c_str_text, check, VpiSysError};
use vpi::VpiError;

#[test]
fn success_status_checks_ok() {
    let r = check(VPIStatus_VPI_SUCCESS, |s| VpiSysError::from_status_text(s, None, b"\0"));
    assert!(r.is_ok());
}

#[test]
fn failing_status_carries_its_description() {
    let r = check(3, |s| VpiSysError::from_status_text(s, Some(b"VPI_ERROR_INVALID_ARGUMENT"), b"bad width\0junk"));
    match r {
        Err(VpiError::Sys(e)) => {
            assert_eq!(e.status(), 3);
            assert_eq!(e.name(), "VPI_ERROR_INVALID_ARGUMENT");
            assert_eq!(e.message(), "bad width");
        }
        _ => panic!("expected a status error"),
    }
}

#[test]
fn status_without_name_is_unknown() {
    let e = VpiSysError::from_status_text(9, None, b"\0");
    assert_eq!(e.name(), "Unknown");
    assert_eq!(e.message(), "");
}

#[test]
fn message_without_nul_takes_the_whole_buffer() {
    let e = VpiSysError::from_status_text(1, None, b"abc");
    assert_eq!(e.message(), "abc");
}

#[test]
fn invalid_utf8_is_replaced() {
    let e = VpiSysError::from_status_text(1, Some(&[0x66, 0xff, 0x67]), &[0x61, 0xc3, 0x00]);
    assert_eq!(e.name(), "f\u{fffd}g");
    assert_eq!(e.message(), "a\u{fffd}");
}

#[test]
fn c_string_length_stops_at_first_nul() {
    assert_eq!(c_str_len(b"ab\0cd\0"), 2);
    assert_eq!(c_str_len(b"\0"), 0);
    assert_eq!(c_str_len(b""), 0);
    assert_eq!(c_str_len(b"xyz"), 3);
    assert_eq!(c_str_text(b"hello\0world"), "hello");
}

#[test]
fn sys_error_converts_into_library_error() {
    let e: VpiError = VpiSysError::from_status_text(4, None, b"\0").into();
    assert!(matches!(e, VpiError::Sys(_)));
}

#[test]
fn flags_are_combined_by_or() {
    assert_eq!(flags(&[]), 0);
    assert_eq!(flags(&[1 << 2, 1 << 5, 1 << 2]), 0b100100);
    assert_eq!(flags(&[u64::MAX, 0]), u64::MAX);
}
