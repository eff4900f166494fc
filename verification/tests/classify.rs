use serial_errors::error::ErrorKind;
use serial_errors::posix::{from_raw_os_error, last_os_error};

#[test]
fn no_device_codes_classify_as_no_device() {
    // EBUSY, EISDIR, ELOOP, ENOTDIR, ENOENT, ENODEV, ENXIO, EACCES
    let codes: [i32; 8] = [16, 21, 40, 20, 2, 19, 6, 13];
    for code in codes {
        let e = from_raw_os_error(code);
        assert_eq!(e.kind, ErrorKind::NoDevice);
        assert!(!e.message.is_empty());
    }
}

#[test]
fn invalid_input_codes_classify_as_invalid_input() {
    // EINVAL, ENAMETOOLONG
    let e = from_raw_os_error(22);
    assert_eq!(e.kind, ErrorKind::InvalidInput);
    let e = from_raw_os_error(36);
    assert_eq!(e.kind, ErrorKind::InvalidInput);
}

#[test]
fn interrupted_classifies_as_io_interrupted() {
    let e = from_raw_os_error(4);
    assert_eq!(e.kind, ErrorKind::IoInterrupted);
}

#[test]
fn would_block_classifies_as_io_would_block() {
    let e = from_raw_os_error(11);
    assert_eq!(e.kind, ErrorKind::IoWouldBlock);
}

#[test]
fn out_of_memory_classifies_as_io_other() {
    // ENOMEM is in none of the named sets.
    let e = from_raw_os_error(12);
    assert_eq!(e.kind, ErrorKind::IoOther);
    assert!(!e.message.is_empty());
}

#[test]
fn unused_code_classifies_as_io_other() {
    let e = from_raw_os_error(9999);
    assert_eq!(e.kind, ErrorKind::IoOther);
    assert!(!e.message.is_empty());
}

#[test]
fn zero_code_classifies_as_io_other() {
    let e = from_raw_os_error(0);
    assert_eq!(e.kind, ErrorKind::IoOther);
    assert!(!e.message.is_empty());
}

#[test]
fn message_is_the_platform_text_for_the_code() {
    assert_eq!(from_raw_os_error(2).message, "No such file or directory");
    assert_eq!(from_raw_os_error(16).message, "Device or resource busy");
    assert_eq!(from_raw_os_error(4).message, "Interrupted system call");
    assert_eq!(from_raw_os_error(9999).message, "Unknown errno");
}

#[test]
fn classifying_twice_yields_value_equal_results() {
    let a = from_raw_os_error(16);
    let b = from_raw_os_error(16);
    assert_eq!(a, b);
    let a = from_raw_os_error(9999);
    let b = from_raw_os_error(9999);
    assert_eq!(a, b);
}

#[test]
fn last_os_error_classifies_the_recorded_code() {
    nix::errno::Errno::ENOENT.set();
    let e = last_os_error();
    assert_eq!(e.kind, ErrorKind::NoDevice);
    assert_eq!(e, from_raw_os_error(2));

    nix::errno::Errno::EINVAL.set();
    let e = last_os_error();
    assert_eq!(e.kind, ErrorKind::InvalidInput);
    assert!(!e.message.is_empty());
}
