use nonblock_udp::nonblock::{map_non_block, settle};
use std::io::{Error, ErrorKind};

#[test]
fn completed_operation_yields_value() {
    let r = map_non_block::<usize>(Ok(12));
    assert_eq!(r.unwrap(), Some(12));
}

#[test]
fn zero_length_transfer_is_a_value() {
    let r = map_non_block::<usize>(Ok(0));
    assert_eq!(r.unwrap(), Some(0));
}

#[test]
fn would_block_yields_no_result() {
    let r = map_non_block::<usize>(Err(Error::new(ErrorKind::WouldBlock, "busy")));
    assert_eq!(r.unwrap(), None);
}

#[test]
fn would_block_from_os_code_yields_no_result() {
    let would_block = Error::from(ErrorKind::WouldBlock);
    let r = map_non_block::<(usize, u8)>(Err(would_block));
    assert!(matches!(r, Ok(None)));
}

#[test]
fn interrupted_is_a_hard_error() {
    let r = map_non_block::<usize>(Err(Error::new(ErrorKind::Interrupted, "signal")));
    assert_eq!(r.unwrap_err().kind(), ErrorKind::Interrupted);
}

#[test]
fn other_error_is_passed_on() {
    let r = map_non_block::<usize>(Err(Error::new(ErrorKind::PermissionDenied, "denied")));
    let e = r.unwrap_err();
    assert_eq!(e.kind(), ErrorKind::PermissionDenied);
    assert_eq!(e.to_string(), "denied");
}

#[test]
fn repeated_receives_without_data_stay_not_ready() {
    for _ in 0..5 {
        let r = map_non_block::<(usize, u16)>(Err(Error::from(ErrorKind::WouldBlock)));
        assert!(matches!(r, Ok(None)));
    }
}

#[test]
fn zero_length_send_on_full_buffer_is_not_ready() {
    let r = map_non_block::<usize>(Err(Error::from(ErrorKind::WouldBlock)));
    assert!(r.is_ok());
    assert_eq!(r.unwrap(), None);
}

#[test]
fn settle_with_would_block() {
    let r = settle::<usize>(Err(Error::from(ErrorKind::TimedOut)), true);
    assert_eq!(r.unwrap(), None);
}

#[test]
fn settle_with_hard_error() {
    let r = settle::<usize>(Err(Error::from(ErrorKind::TimedOut)), false);
    assert_eq!(r.unwrap_err().kind(), ErrorKind::TimedOut);
}

#[test]
fn settle_with_value_ignores_flag() {
    assert_eq!(settle::<usize>(Ok(5), true).unwrap(), Some(5));
    assert_eq!(settle::<usize>(Ok(5), false).unwrap(), Some(5));
}

#[test]
fn would_block_wrapped_in_custom_error_is_not_ready() {
    let e = Error::new(ErrorKind::WouldBlock, std::io::Error::from(ErrorKind::Other));
    assert!(matches!(map_non_block::<usize>(Err(e)), Ok(None)));
}
