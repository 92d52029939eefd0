//! Message headers and bodies.

use std::marker::PhantomData;

use vstd::prelude::*;
use vstd::slice::slice_subrange;

use crate::bytes;
use crate::error::Error;

verus! {

/// Upper bound of the descriptors that one message may carry.
pub const MAX_ATTACHED_FD_ENTRIES: usize = 32;

/// Upper bound of the payload of a message.
pub const MAX_MSG_SIZE: usize = 0x1000;

/// Set in the body of a vring message that passes no object.
pub const VHOST_USER_VRING_NOFD_MASK: u64 = 0x100;

/// The header that starts every message.
pub trait MsgHeader: Copy {
    /// Number of bytes of a header on the wire.
    spec fn wire_size() -> nat;

    /// The largest payload that a message with such a header may have.
    spec fn max_msg_size() -> nat;

    /// The header as it is on the wire.
    spec fn wire(self) -> Seq<u8>;

    /// The header that bytes of the wire spell.
    spec fn of_wire(bytes: Seq<u8>) -> Self;

    /// The header is one that the protocol knows.
    spec fn valid(self) -> bool;

    /// The number of payload bytes that the header announces.
    spec fn payload_size(self) -> u32;

    /// The same header with another payload size.
    spec fn with_payload_size(self, size: u32) -> Self;

    /// The number of handle records at the end of `payload`, or `None` where the payload does not
    /// say.
    spec fn handle_records(self, payload: Seq<u8>) -> Option<usize>;

    /// A header has a fixed size, reading undoes writing, and the payload size is a field of its
    /// own.
    proof fn lemma_header(self, size: u32)
        ensures
            self.wire().len() == Self::wire_size(),
            Self::of_wire(self.wire()) == self,
            self.with_payload_size(size).payload_size() == size,
            self.with_payload_size(size).with_payload_size(self.payload_size()) == self,
            self.with_payload_size(self.payload_size()) == self,
    ;

    /// A header is not empty, and together with the largest payload it has a length that a
    /// machine can count.
    proof fn lemma_sizes()
        ensures
            0 < Self::wire_size(),
            Self::wire_size() + Self::max_msg_size() <= 0x7fff_ffff,
    ;

    fn header_size() -> (size: usize)
        ensures
            size == Self::wire_size(),
    ;

    fn max_size() -> (size: usize)
        ensures
            size == Self::max_msg_size(),
    ;

    fn as_slice(&self) -> (bytes: Vec<u8>)
        ensures
            bytes@ == self.wire(),
    ;

    fn from_slice(bytes: &[u8]) -> (header: Self)
        requires
            bytes@.len() == Self::wire_size(),
        ensures
            header == Self::of_wire(bytes@),
    ;

    fn is_valid(&self) -> (valid: bool)
        ensures
            valid == self.valid(),
    ;

    fn get_size(&self) -> (size: u32)
        ensures
            size == self.payload_size(),
    ;

    fn set_size(&mut self, size: u32)
        ensures
            *final(self) == old(self).with_payload_size(size),
    ;

    fn win32_handle_trailer(&self, payload: &[u8]) -> (count: Result<usize, Error>)
        ensures
            match self.handle_records(payload@) {
                Some(n) => count == Ok::<usize, Error>(n),
                None => count == Err::<usize, Error>(Error::InvalidMessage),
            },
    ;
}

/// The requests that one direction of a connection carries.
pub trait Req: Copy {
    /// The code is one of a request.
    spec fn known(code: u32) -> bool;

    /// The number of handle records at the end of the payload of a request.
    spec fn request_records(code: u32, payload: Seq<u8>) -> Option<usize>;

    fn is_known(code: u32) -> (known: bool)
        ensures
            known == Self::known(code),
    ;

    fn win32_handle_trailer(code: u32, payload: &[u8]) -> (count: Result<usize, Error>)
        ensures
            match Self::request_records(code, payload@) {
                Some(n) => count == Ok::<usize, Error>(n),
                None => count == Err::<usize, Error>(Error::InvalidMessage),
            },
    ;
}

/// The requests that a frontend sends.
#[derive(Clone, Copy, Debug)]
pub struct FrontendReq {}

/// Ask for the features of the device.
pub const GET_FEATURES: u32 = 1;

/// Set the memory table: one object for every region.
pub const SET_MEM_TABLE: u32 = 5;

/// Set the event that the frontend raises when a vring has new buffers.
pub const SET_VRING_KICK: u32 = 12;

/// Set the event that the backend raises when it has used buffers of a vring.
pub const SET_VRING_CALL: u32 = 13;

/// Set the event that the backend raises when a vring fails.
pub const SET_VRING_ERR: u32 = 14;

/// Add a region to the memory table.
pub const ADD_MEM_REG: u32 = 37;

/// Remove a region from the memory table.
pub const REM_MEM_REG: u32 = 38;

/// The highest code of a request.
pub const MAX_REQUEST: u32 = 44;

/// The number of regions that the body of a memory table announces.
pub open spec fn region_count(payload: Seq<u8>) -> nat {
    bytes::le_value(payload.subrange(0, 4))
}

/// The body of a vring message says that no object comes with it.
pub open spec fn no_object(payload: Seq<u8>) -> bool {
    (bytes::le_value(payload.subrange(0, 8)) as u64) & VHOST_USER_VRING_NOFD_MASK != 0
}

impl Req for FrontendReq {
    open spec fn known(code: u32) -> bool {
        1 <= code <= MAX_REQUEST
    }

    open spec fn request_records(code: u32, payload: Seq<u8>) -> Option<usize> {
        if code == SET_MEM_TABLE {
            if payload.len() < 4 {
                None
            } else {
                Some(region_count(payload) as usize)
            }
        } else if code == SET_VRING_KICK || code == SET_VRING_CALL || code == SET_VRING_ERR {
            if payload.len() < 8 {
                None
            } else if no_object(payload) {
                Some(0)
            } else {
                Some(1)
            }
        } else if code == ADD_MEM_REG {
            Some(1)
        } else {
            Some(0)
        }
    }

    fn is_known(code: u32) -> (known: bool) {
        1 <= code && code <= MAX_REQUEST
    }

    fn win32_handle_trailer(code: u32, payload: &[u8]) -> (count: Result<usize, Error>) {
        if code == SET_MEM_TABLE {
            if payload.len() < 4 {
                return Err(Error::InvalidMessage);
            }
            Ok(bytes::u32_from_le(slice_subrange(payload, 0, 4)) as usize)
        } else if code == SET_VRING_KICK || code == SET_VRING_CALL || code == SET_VRING_ERR {
            if payload.len() < 8 {
                return Err(Error::InvalidMessage);
            }
            let value: u64 = bytes::u64_from_le(slice_subrange(payload, 0, 8));
            if value & VHOST_USER_VRING_NOFD_MASK != 0 {
                Ok(0)
            } else {
                Ok(1)
            }
        } else if code == ADD_MEM_REG {
            Ok(1)
        } else {
            Ok(0)
        }
    }
}

/// The bits of `flags` that hold the version of the protocol.
pub const FLAG_VERSION: u32 = 0x3;

/// Set in `flags` where the message answers a request.
pub const FLAG_REPLY: u32 = 0x4;

/// Set in `flags` where the sender wants an answer.
pub const FLAG_NEED_REPLY: u32 = 0x8;

/// The bits of `flags` that must be clear.
pub const FLAG_RESERVED: u32 = 0xffff_fff0;

/// The common header of vhost-user messages: the request, flags, and the size of the payload.
pub struct VhostUserMsgHeader<R: Req> {
    pub request: u32,
    pub flags: u32,
    pub size: u32,
    pub requests: PhantomData<R>,
}

impl<R: Req> Clone for VhostUserMsgHeader<R> {
    fn clone(&self) -> (header: Self)
        ensures
            header == *self,
    {
        *self
    }
}

impl<R: Req> Copy for VhostUserMsgHeader<R> {

}

impl<R: Req> VhostUserMsgHeader<R> {
    /// A header of protocol version 1. Of `flags` only the two flag bits are kept.
    pub fn new(request: u32, flags: u32, size: u32) -> (header: Self)
        ensures
            header.request == request,
            header.flags == (flags & (FLAG_REPLY | FLAG_NEED_REPLY)) | 1,
            header.size == size,
    {
        VhostUserMsgHeader {
            request,
            flags: (flags & (FLAG_REPLY | FLAG_NEED_REPLY)) | 1,
            size,
            requests: PhantomData,
        }
    }

    /// The message answers a request.
    pub fn is_reply(&self) -> (reply: bool)
        ensures
            reply == (self.flags & FLAG_REPLY != 0),
    {
        self.flags & FLAG_REPLY != 0
    }

    /// Marks the message as an answer, or as none.
    pub fn set_reply(&mut self, is_reply: bool)
        ensures
            final(self).request == old(self).request,
            final(self).size == old(self).size,
            final(self).flags == if is_reply {
                old(self).flags | FLAG_REPLY
            } else {
                old(self).flags & !FLAG_REPLY
            },
    {
        if is_reply {
            self.flags = self.flags | FLAG_REPLY;
        } else {
            self.flags = self.flags & !FLAG_REPLY;
        }
    }

    /// The sender wants an answer.
    pub fn is_need_reply(&self) -> (need_reply: bool)
        ensures
            need_reply == (self.flags & FLAG_NEED_REPLY != 0),
    {
        self.flags & FLAG_NEED_REPLY != 0
    }

    /// Asks for an answer, or for none.
    pub fn set_need_reply(&mut self, need_reply: bool)
        ensures
            final(self).request == old(self).request,
            final(self).size == old(self).size,
            final(self).flags == if need_reply {
                old(self).flags | FLAG_NEED_REPLY
            } else {
                old(self).flags & !FLAG_NEED_REPLY
            },
    {
        if need_reply {
            self.flags = self.flags | FLAG_NEED_REPLY;
        } else {
            self.flags = self.flags & !FLAG_NEED_REPLY;
        }
    }
}

impl<R: Req> MsgHeader for VhostUserMsgHeader<R> {
    open spec fn wire_size() -> nat {
        12
    }

    open spec fn max_msg_size() -> nat {
        MAX_MSG_SIZE as nat
    }

    open spec fn wire(self) -> Seq<u8> {
        bytes::le_bytes(self.request as nat, 4) + bytes::le_bytes(self.flags as nat, 4)
            + bytes::le_bytes(self.size as nat, 4)
    }

    open spec fn of_wire(bytes: Seq<u8>) -> Self {
        VhostUserMsgHeader {
            request: bytes::le_value(bytes.subrange(0, 4)) as u32,
            flags: bytes::le_value(bytes.subrange(4, 8)) as u32,
            size: bytes::le_value(bytes.subrange(8, 12)) as u32,
            requests: PhantomData,
        }
    }

    open spec fn valid(self) -> bool {
        &&& R::known(self.request)
        &&& self.size <= MAX_MSG_SIZE
        &&& self.flags & FLAG_VERSION == 1
        &&& self.flags & FLAG_RESERVED == 0
    }

    open spec fn payload_size(self) -> u32 {
        self.size
    }

    open spec fn with_payload_size(self, size: u32) -> Self {
        VhostUserMsgHeader { size, ..self }
    }

    /// An answer echoes the code of its request, but not the objects.
    open spec fn handle_records(self, payload: Seq<u8>) -> Option<usize> {
        if self.flags & FLAG_REPLY != 0 {
            Some(0)
        } else {
            R::request_records(self.request, payload)
        }
    }

    proof fn lemma_header(self, size: u32) {
        bytes::lemma_byte_ranges();
        bytes::lemma_le_value_of_bytes(self.request as nat, 4);
        bytes::lemma_le_value_of_bytes(self.flags as nat, 4);
        bytes::lemma_le_value_of_bytes(self.size as nat, 4);
        let wire = self.wire();
        assert(wire.subrange(0, 4) =~= bytes::le_bytes(self.request as nat, 4));
        assert(wire.subrange(4, 8) =~= bytes::le_bytes(self.flags as nat, 4));
        assert(wire.subrange(8, 12) =~= bytes::le_bytes(self.size as nat, 4));
    }

    proof fn lemma_sizes() {
    }

    fn header_size() -> (size: usize) {
        12
    }

    fn max_size() -> (size: usize) {
        MAX_MSG_SIZE
    }

    fn as_slice(&self) -> (bytes: Vec<u8>) {
        let mut bytes = bytes::u32_to_le(self.request);
        let mut flags = bytes::u32_to_le(self.flags);
        let mut size = bytes::u32_to_le(self.size);
        bytes.append(&mut flags);
        bytes.append(&mut size);
        bytes
    }

    fn from_slice(bytes: &[u8]) -> (header: Self) {
        VhostUserMsgHeader {
            request: bytes::u32_from_le(slice_subrange(bytes, 0, 4)),
            flags: bytes::u32_from_le(slice_subrange(bytes, 4, 8)),
            size: bytes::u32_from_le(slice_subrange(bytes, 8, 12)),
            requests: PhantomData,
        }
    }

    fn is_valid(&self) -> (valid: bool) {
        R::is_known(self.request) && self.size as usize <= MAX_MSG_SIZE && self.flags & FLAG_VERSION
            == 1 && self.flags & FLAG_RESERVED == 0
    }

    fn get_size(&self) -> (size: u32) {
        self.size
    }

    fn set_size(&mut self, size: u32) {
        self.size = size;
    }

    fn win32_handle_trailer(&self, payload: &[u8]) -> (count: Result<usize, Error>) {
        if self.flags & FLAG_REPLY != 0 {
            Ok(0)
        } else {
            R::win32_handle_trailer(self.request, payload)
        }
    }
}

/// An answer passes no objects, whatever the request that it answers passed.
pub proof fn law_answers_pass_no_objects<R: Req>(hdr: VhostUserMsgHeader<R>, payload: Seq<u8>)
    requires
        hdr.flags & FLAG_REPLY != 0,
    ensures
        hdr.handle_records(payload) == Some(0usize),
{
}

/// The number of handle records of a frontend's request does not depend on the records: what the
/// body says of it is the same with a trailer behind it.
pub proof fn law_record_count_ignores_the_trailer(code: u32, body: Seq<u8>, trailer: Seq<u8>)
    requires
        FrontendReq::request_records(code, body) is Some,
    ensures
        FrontendReq::request_records(code, body + trailer) == FrontendReq::request_records(
            code,
            body,
        ),
{
    if body.len() >= 4 {
        assert((body + trailer).subrange(0, 4) =~= body.subrange(0, 4));
    }
    if body.len() >= 8 {
        assert((body + trailer).subrange(0, 8) =~= body.subrange(0, 8));
    }
}

/// A body of fixed size.
pub trait MsgBody: Sized {
    /// Number of bytes of the body on the wire.
    spec fn body_size() -> nat;

    /// The body that bytes of the wire spell.
    spec fn of_body(bytes: Seq<u8>) -> Self;

    /// The body is one that the protocol allows.
    spec fn valid_body(self) -> bool;

    fn size() -> (size: usize)
        ensures
            size == Self::body_size(),
            size <= 0x7fff_ffff,
    ;

    fn from_bytes(bytes: &[u8]) -> (body: Self)
        requires
            bytes@.len() == Self::body_size(),
        ensures
            body == Self::of_body(bytes@),
    ;

    fn is_valid_body(&self) -> (valid: bool)
        ensures
            valid == self.valid_body(),
    ;
}

/// A body of one 64-bit number.
#[derive(Clone, Copy, Debug, PartialEq, Eq, Structural)]
pub struct VhostUserU64 {
    pub value: u64,
}

impl VhostUserU64 {
    pub fn new(value: u64) -> (body: Self)
        ensures
            body.value == value,
    {
        VhostUserU64 { value }
    }

    /// The body as it is on the wire.
    pub fn as_slice(&self) -> (bytes: Vec<u8>)
        ensures
            bytes@ == bytes::le_bytes(self.value as nat, 8),
    {
        bytes::u64_to_le(self.value)
    }
}

impl MsgBody for VhostUserU64 {
    open spec fn body_size() -> nat {
        8
    }

    open spec fn of_body(bytes: Seq<u8>) -> Self {
        VhostUserU64 { value: bytes::le_value(bytes) as u64 }
    }

    open spec fn valid_body(self) -> bool {
        true
    }

    fn size() -> (size: usize) {
        8
    }

    fn from_bytes(bytes: &[u8]) -> (body: Self) {
        VhostUserU64 { value: bytes::u64_from_le(bytes) }
    }

    fn is_valid_body(&self) -> (valid: bool) {
        true
    }
}

/// Where the fields of a header lie on the wire: the request in the first four bytes, the flags in
/// the next four, and the size of the payload in the last four.
pub proof fn law_header_fields_have_their_place<R: Req>(hdr: VhostUserMsgHeader<R>, read: Seq<u8>)
    requires
        read.len() == 12,
    ensures
        hdr.wire().len() == 12,
        bytes::le_value(hdr.wire().subrange(0, 4)) == hdr.request,
        bytes::le_value(hdr.wire().subrange(4, 8)) == hdr.flags,
        bytes::le_value(hdr.wire().subrange(8, 12)) == hdr.size,
        VhostUserMsgHeader::<R>::of_wire(read).wire() == read,
{
    bytes::lemma_byte_ranges();
    bytes::lemma_le_value_of_bytes(hdr.request as nat, 4);
    bytes::lemma_le_value_of_bytes(hdr.flags as nat, 4);
    bytes::lemma_le_value_of_bytes(hdr.size as nat, 4);
    let wire = hdr.wire();
    assert(wire.subrange(0, 4) =~= bytes::le_bytes(hdr.request as nat, 4));
    assert(wire.subrange(4, 8) =~= bytes::le_bytes(hdr.flags as nat, 4));
    assert(wire.subrange(8, 12) =~= bytes::le_bytes(hdr.size as nat, 4));
    bytes::lemma_le_bytes_of_value(read.subrange(0, 4));
    bytes::lemma_le_bytes_of_value(read.subrange(4, 8));
    bytes::lemma_le_bytes_of_value(read.subrange(8, 12));
    assert(VhostUserMsgHeader::<R>::of_wire(read).wire() =~= read);
}

/// A header is valid exactly where its request is known, its payload is no larger than a message
/// may be, its version is 1, and no reserved flag is set.
pub proof fn law_valid_headers<R: Req>(hdr: VhostUserMsgHeader<R>)
    ensures
        hdr.valid() <==> R::known(hdr.request) && hdr.size <= 0x1000 && hdr.flags & 0x3 == 1
            && hdr.flags & 0xffff_fff0 == 0,
        hdr.payload_size() == hdr.size,
{
}

/// The payload size is a field of its own: setting it changes nothing else of a header, and does
/// not change whether the rest of the header is valid.
pub proof fn law_payload_size_is_a_field_of_its_own<R: Req>(hdr: VhostUserMsgHeader<R>, size: u32)
    requires
        hdr.valid(),
    ensures
        hdr.with_payload_size(size).request == hdr.request,
        hdr.with_payload_size(size).flags == hdr.flags,
        hdr.with_payload_size(size).size == size,
        hdr.with_payload_size(size).valid() <==> size <= 0x1000,
{
}

/// The requests of a frontend, and the objects that each passes: a memory table as many as it has
/// regions, a vring event one unless its body says that it passes none, an added region one, and
/// everything else none. Where the body is too short to say, nothing is known.
pub proof fn law_requests_imply_their_objects(code: u32, payload: Seq<u8>)
    ensures
        FrontendReq::known(code) <==> 1 <= code <= 44,
        code == 5 && payload.len() >= 4 ==> FrontendReq::request_records(code, payload) == Some(
            bytes::le_value(payload.subrange(0, 4)) as usize,
        ),
        code == 5 && payload.len() < 4 ==> FrontendReq::request_records(code, payload) is None,
        (code == 12 || code == 13 || code == 14) && payload.len() >= 8
            ==> FrontendReq::request_records(code, payload) == Some(
            if (bytes::le_value(payload.subrange(0, 8)) as u64) & 0x100 != 0 {
                0usize
            } else {
                1usize
            },
        ),
        (code == 12 || code == 13 || code == 14) && payload.len() < 8
            ==> FrontendReq::request_records(code, payload) is None,
        code == 37 ==> FrontendReq::request_records(code, payload) == Some(1usize),
        code != 5 && code != 12 && code != 13 && code != 14 && code != 37
            ==> FrontendReq::request_records(code, payload) == Some(0usize),
{
}

/// A message that is no answer passes the objects of its request.
pub proof fn law_requests_pass_their_objects<R: Req>(
    hdr: VhostUserMsgHeader<R>,
    payload: Seq<u8>,
)
    requires
        hdr.flags & 0x4 == 0,
    ensures
        hdr.handle_records(payload) == R::request_records(hdr.request, payload),
{
}

/// The limits of the protocol.
pub proof fn law_limits()
    ensures
        MAX_ATTACHED_FD_ENTRIES == 32,
        MAX_MSG_SIZE == 0x1000,
        VHOST_USER_VRING_NOFD_MASK == 0x100,
{
}

/// A header that is made for a known request and a payload that a message may have is valid, and no
/// other is. It keeps what it was asked to say of answers.
pub proof fn law_new_headers<R: Req>(
    request: u32,
    flags: u32,
    size: u32,
    hdr: VhostUserMsgHeader<R>,
    reply: bool,
    need_reply: bool,
)
    requires
        call_ensures(VhostUserMsgHeader::<R>::new, (request, flags, size), hdr),
        call_ensures(VhostUserMsgHeader::<R>::is_reply, (&hdr,), reply),
        call_ensures(VhostUserMsgHeader::<R>::is_need_reply, (&hdr,), need_reply),
    ensures
        hdr.request == request,
        hdr.size == size,
        hdr.valid() <==> R::known(request) && size <= 0x1000,
        reply <==> flags & 0x4 != 0,
        need_reply <==> flags & 0x8 != 0,
{
    assert(((flags & (0x4u32 | 0x8u32)) | 1) & 0x3 == 1 && ((flags & (0x4u32 | 0x8u32)) | 1)
        & 0xffff_fff0 == 0 && ((flags & (0x4u32 | 0x8u32)) | 1) & 0x4 == flags & 0x4 && ((flags & (
    0x4u32 | 0x8u32)) | 1) & 0x8 == flags & 0x8) by (bit_vector);
}

/// A body of one number is eight bytes, least significant byte first, and comes back from them.
pub proof fn law_numbers_come_back(body: &VhostUserU64, wire: Vec<u8>)
    requires
        call_ensures(VhostUserU64::as_slice, (body,), wire),
    ensures
        wire@.len() == 8,
        wire@.len() == VhostUserU64::body_size(),
        bytes::le_value(wire@) == body.value,
        VhostUserU64::of_body(wire@) == *body,
        VhostUserU64::of_body(wire@).valid_body(),
{
    bytes::lemma_byte_ranges();
    bytes::lemma_le_value_of_bytes(body.value as nat, 8);
}

/// What a header says of answers is what was set last, and setting it changes nothing else that the
/// header says.
pub proof fn law_answer_flags_are_their_own<R: Req>()
    ensures
        forall|hdr: &mut VhostUserMsgHeader<R>, is_reply: bool| #[trigger]
            call_ensures(VhostUserMsgHeader::<R>::set_reply, (hdr, is_reply), ()) ==> {
                &&& final(hdr).flags & 0x4 != 0 <==> is_reply
                &&& final(hdr).flags & 0xffff_fffb == hdr.flags & 0xffff_fffb
                &&& final(hdr).request == hdr.request
                &&& final(hdr).size == hdr.size
            },
        forall|hdr: &mut VhostUserMsgHeader<R>, need_reply: bool| #[trigger]
            call_ensures(VhostUserMsgHeader::<R>::set_need_reply, (hdr, need_reply), ()) ==> {
                &&& final(hdr).flags & 0x8 != 0 <==> need_reply
                &&& final(hdr).flags & 0xffff_fff7 == hdr.flags & 0xffff_fff7
                &&& final(hdr).request == hdr.request
                &&& final(hdr).size == hdr.size
            },
{
    assert(forall|flags: u32| (#[trigger] (flags | 0x4)) & 0x4 != 0 && (flags | 0x4) & 0xffff_fffb
        == flags & 0xffff_fffb) by (bit_vector);
    assert(forall|flags: u32| (#[trigger] (flags & !0x4u32)) & 0x4 == 0 && (flags & !0x4u32)
        & 0xffff_fffb == flags & 0xffff_fffb) by (bit_vector);
    assert(forall|flags: u32| (#[trigger] (flags | 0x8)) & 0x8 != 0 && (flags | 0x8) & 0xffff_fff7
        == flags & 0xffff_fff7) by (bit_vector);
    assert(forall|flags: u32| (#[trigger] (flags & !0x8u32)) & 0x8 == 0 && (flags & !0x8u32)
        & 0xffff_fff7 == flags & 0xffff_fff7) by (bit_vector);
}

} // verus!
