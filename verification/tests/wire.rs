//! The form of messages on the wire.

use vhost_user::bytes::{u32_from_le, u32_to_le, u64_from_le, u64_to_le};
use vhost_user::error::Error;
use vhost_user::message::{
    FrontendReq, MsgBody, MsgHeader, VhostUserMsgHeader, VhostUserU64, ADD_MEM_REG, GET_FEATURES,
    MAX_MSG_SIZE, REM_MEM_REG, SET_MEM_TABLE, SET_VRING_CALL, SET_VRING_ERR, SET_VRING_KICK,
    VHOST_USER_VRING_NOFD_MASK,
};

type Header = VhostUserMsgHeader<FrontendReq>;

#[test]
fn integers_are_little_endian() {
    assert_eq!(u32_to_le(0x0102_0304), [4, 3, 2, 1]);
    assert_eq!(u32_from_le(&[4, 3, 2, 1]), 0x0102_0304);
    assert_eq!(u64_to_le(0x0102_0304_0506_0708), [8, 7, 6, 5, 4, 3, 2, 1]);
    assert_eq!(u64_from_le(&[8, 7, 6, 5, 4, 3, 2, 1]), 0x0102_0304_0506_0708);
    for value in [0, 1, 0xff, 0x100, u64::MAX] {
        assert_eq!(u64_to_le(value), value.to_le_bytes());
        assert_eq!(u64_from_le(&u64_to_le(value)), value);
    }
}

#[test]
fn headers_have_three_fields() {
    let hdr = Header::new(SET_VRING_KICK, 0, 8);
    let bytes = hdr.as_slice();
    assert_eq!(bytes, [12, 0, 0, 0, 1, 0, 0, 0, 8, 0, 0, 0]);
    assert_eq!(Header::header_size(), bytes.len());
    assert_eq!(Header::max_size(), MAX_MSG_SIZE);
    let read = Header::from_slice(&bytes);
    assert_eq!((read.request, read.flags, read.size), (12, 1, 8));
    assert!(read.is_valid());
}

#[test]
fn headers_know_their_flags() {
    let mut hdr = Header::new(GET_FEATURES, 0xffff_ffff, 0);
    assert_eq!(hdr.flags, 0xd);
    assert!(hdr.is_reply() && hdr.is_need_reply());
    hdr.set_reply(false);
    assert_eq!(hdr.flags, 0x9);
    hdr.set_need_reply(false);
    assert_eq!(hdr.flags, 0x1);
    hdr.set_reply(true);
    hdr.set_need_reply(true);
    assert_eq!(hdr.flags, 0xd);
    hdr.set_size(3);
    assert_eq!(hdr.get_size(), 3);
}

#[test]
fn headers_are_checked() {
    let valid = |request, flags, size| {
        let mut hdr = Header::new(request, 0, size);
        hdr.flags = flags;
        hdr.is_valid()
    };
    assert!(valid(1, 1, 0));
    assert!(!valid(0, 1, 0));
    assert!(valid(44, 1, 0));
    assert!(!valid(45, 1, 0));
    assert!(!valid(1, 2, 0));
    assert!(!valid(1, 0x11, 0));
    assert!(valid(1, 0xd, MAX_MSG_SIZE as u32));
    assert!(!valid(1, 1, MAX_MSG_SIZE as u32 + 1));
}

#[test]
fn requests_imply_their_records() {
    let records = |request, payload: &[u8]| Header::new(request, 0, 0).win32_handle_trailer(payload);
    assert!(matches!(records(SET_MEM_TABLE, &[3, 0, 0, 0]), Ok(3)));
    assert!(matches!(records(SET_MEM_TABLE, &[3, 0, 0]), Err(Error::InvalidMessage)));
    for request in [SET_VRING_KICK, SET_VRING_CALL, SET_VRING_ERR] {
        assert!(matches!(records(request, &VhostUserU64::new(1).as_slice()), Ok(1)));
        let none = VhostUserU64::new(1 | VHOST_USER_VRING_NOFD_MASK).as_slice();
        assert!(matches!(records(request, &none), Ok(0)));
        assert!(matches!(records(request, &[0; 7]), Err(Error::InvalidMessage)));
    }
    assert!(matches!(records(ADD_MEM_REG, &[]), Ok(1)));
    assert!(matches!(records(REM_MEM_REG, &[]), Ok(0)));
    assert!(matches!(records(GET_FEATURES, &[]), Ok(0)));
}

#[test]
fn answers_have_no_records() {
    let mut hdr = Header::new(SET_VRING_KICK, 0, 0);
    hdr.set_reply(true);
    assert!(matches!(hdr.win32_handle_trailer(&[]), Ok(0)));
}

#[test]
fn bodies_are_numbers() {
    let body = VhostUserU64::new(0x105);
    assert_eq!(body.as_slice(), [5, 1, 0, 0, 0, 0, 0, 0]);
    assert_eq!(VhostUserU64::size(), 8);
    assert_eq!(VhostUserU64::from_bytes(&body.as_slice()), body);
    assert!(body.is_valid_body());
}
