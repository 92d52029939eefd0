//! Endpoints over sockets that pass nothing but bytes, and the handle records in them.

use std::collections::VecDeque;

use vhost_user::connection;
use vhost_user::connection::sending::{SendStep, Sending};
use vhost_user::connection::windows::{
    Endpoint, Incoming, Outgoing, ReadOutcome, SendFailure, Want,
};
use vhost_user::connection::RawDescriptor;
use vhost_user::error::{Error, ErrorKind, IoError};
use vhost_user::message::{
    FrontendReq, MsgHeader, VhostUserMsgHeader, VhostUserU64, ADD_MEM_REG, GET_FEATURES, REM_MEM_REG,
    SET_MEM_TABLE, SET_VRING_KICK, VHOST_USER_VRING_NOFD_MASK,
};
use vhost_user::win32::{
    close_in_peer, duplicate_into_peer, take_handles, DuplicateStep, TakeStep,
    VHOST_USER_WIN32_HANDLE_RECORD_SIZE,
};

type Header = VhostUserMsgHeader<FrontendReq>;
/// The handle to the backend process, which is this one.
type Process = u8;
type End = Endpoint<Header, Process>;
/// What is sent, whichever way objects are passed.
type Messages = connection::Endpoint<Header>;

/// The error number of an operation on a dead handle.
const ERROR_INVALID_HANDLE: i32 = 6;

/// The kernel objects of a process, and its handles on them.
struct Kernel {
    /// Whether each object is signaled.
    objects: Vec<bool>,
    /// The live handles, each with its object.
    handles: Vec<(usize, usize)>,
    next: usize,
}

impl Kernel {
    fn new() -> Self {
        Kernel { objects: Vec::new(), handles: Vec::new(), next: 0x40 }
    }

    fn open(&mut self, object: usize) -> usize {
        self.next += 4;
        self.handles.push((self.next, object));
        self.next
    }

    fn event(&mut self) -> usize {
        self.objects.push(false);
        self.open(self.objects.len() - 1)
    }

    fn section(&mut self) -> usize {
        self.event()
    }

    fn object(&self, handle: usize) -> Option<usize> {
        self.handles.iter().find(|(h, _)| *h == handle).map(|(_, object)| *object)
    }

    fn is_live(&self, handle: usize) -> bool {
        self.object(handle).is_some()
    }

    fn duplicate(&mut self, handle: usize) -> Result<usize, IoError> {
        match self.object(handle) {
            Some(object) => Ok(self.open(object)),
            None => Err(IoError::Os(ERROR_INVALID_HANDLE)),
        }
    }

    fn close(&mut self, handle: usize) {
        self.handles.retain(|(h, _)| *h != handle);
    }

    fn set_event(&mut self, handle: usize) {
        let object = self.object(handle).unwrap();
        self.objects[object] = true;
    }

    fn is_signaled(&self, handle: usize) -> bool {
        self.objects[self.object(handle).unwrap()]
    }

    /// What the frontend puts on the wire for an object.
    fn record(&mut self, handle: usize) -> Vec<u8> {
        (self.duplicate(handle).unwrap() as u64).to_le_bytes().to_vec()
    }

    fn take(&mut self, step: TakeStep) -> Result<usize, IoError> {
        match step {
            TakeStep::Adopt(handle) if self.is_live(handle) => Ok(handle),
            TakeStep::Adopt(_) => Err(IoError::Os(ERROR_INVALID_HANDLE)),
            TakeStep::Refuse => Err(IoError::Os(0)),
            TakeStep::Pull(handle) => {
                let pulled = self.duplicate(handle);
                self.close(handle);
                pulled
            }
            TakeStep::Done => unreachable!(),
        }
    }

    fn take_all(
        &mut self,
        peer: bool,
        payload: &[u8],
        count: usize,
    ) -> Result<(Vec<u8>, Vec<usize>), Error> {
        let mut taking = take_handles(peer, payload, count)?;
        loop {
            match taking.next() {
                TakeStep::Done => return Ok(taking.finish()),
                step => {
                    let outcome = self.take(step);
                    taking.on_taken(outcome)?;
                }
            }
        }
    }

    fn duplicate_all(&mut self, handles: &[RawDescriptor]) -> Result<Vec<u8>, Error> {
        let mut duplicating = duplicate_into_peer(handles);
        while let Some(handle) = duplicating.next() {
            let outcome = self.duplicate(handle as usize);
            if let DuplicateStep::Failed(close, error) = duplicating.on_duplicated(outcome) {
                for handle in close {
                    self.close(handle);
                }
                return Err(error);
            }
        }
        Ok(duplicating.trailer())
    }
}

/// A byte stream that gives at most `step` bytes at once.
struct Stream {
    bytes: VecDeque<u8>,
    step: usize,
    failures: VecDeque<(ErrorKind, IoError)>,
}

impl Stream {
    fn new() -> Self {
        Stream { bytes: VecDeque::new(), step: usize::MAX, failures: VecDeque::new() }
    }

    fn write(&mut self, bytes: &[u8]) {
        self.bytes.extend(bytes);
    }

    fn read(&mut self, len: usize) -> ReadOutcome {
        if let Some((kind, error)) = self.failures.pop_front() {
            return ReadOutcome::Failed(kind, error);
        }
        let n = len.min(self.step).min(self.bytes.len());
        ReadOutcome::Read(self.bytes.drain(..n).collect())
    }
}

fn send(
    end: &End,
    iovs: &[&[u8]],
    fds: Option<&[RawDescriptor]>,
    stream: &mut Stream,
    kernel: &mut Kernel,
) -> Result<usize, Error> {
    let mut outgoing: Outgoing<Header> = end.send_iovec(iovs, fds)?;
    let unwind = |failure: SendFailure, kernel: &mut Kernel| {
        for handle in failure.close {
            kernel.close(handle);
        }
        failure.error
    };
    while let Some(handle) = outgoing.next() {
        let outcome = kernel.duplicate(handle as usize);
        if let Err(failure) = outgoing.on_duplicated(outcome) {
            return Err(unwind(failure, kernel));
        }
    }
    let outcome = match stream.failures.pop_front() {
        Some(failure) => Err(failure),
        None => {
            stream.write(&outgoing.message());
            Ok(())
        }
    };
    outgoing.on_written(outcome).map_err(|failure| unwind(failure, kernel))
}

/// Sends a whole message.
fn send_whole(
    end: &End,
    mut sending: Sending,
    stream: &mut Stream,
    kernel: &mut Kernel,
) -> Result<(), Error> {
    loop {
        let outcome = match sending.next() {
            Some(message) => send(end, &message.iovs, message.fds, stream, kernel),
            None => return sending.finish(sending.bytes_sent()),
        };
        match sending.on_sent(outcome) {
            SendStep::Continue => {}
            SendStep::Done(sent) => return sending.finish(sent),
            SendStep::Failed(error) => return Err(error),
        }
    }
}

fn receive(end: &mut End, stream: &mut Stream, kernel: &mut Kernel) -> Incoming<Header, usize> {
    let mut incoming = end.start_recv();
    loop {
        match incoming.next() {
            Want::Read(len) => incoming.on_read(stream.read(len)),
            Want::Take(step) => incoming.on_taken(kernel.take(step)),
            Want::Over => return incoming,
        }
    }
}

fn recv_header(
    end: &mut End,
    stream: &mut Stream,
    kernel: &mut Kernel,
) -> Result<(Header, Option<Vec<usize>>), Error> {
    let incoming = receive(end, stream, kernel);
    end.recv_header(incoming)
}

/// Write one message, trailer included, and read it back through an endpoint.
fn round_trip(
    kernel: &mut Kernel,
    code: u32,
    body: &[u8],
    trailer: &[u8],
) -> (Header, Option<Vec<usize>>, End) {
    let mut stream = Stream::new();
    let hdr = Header::new(code, 0, (body.len() + trailer.len()) as u32);
    stream.write(&hdr.as_slice());
    stream.write(body);
    stream.write(trailer);
    let mut end = End::from_stream();
    let (hdr, files) = recv_header(&mut end, &mut stream, kernel).ok().unwrap();
    (hdr, files, end)
}

/// A memory region: guest address, size, user address, offset.
fn region(guest: u64, size: u64, user: u64, offset: u64) -> Vec<u8> {
    [guest, size, user, offset].iter().flat_map(|v| v.to_le_bytes()).collect()
}

/// The body of a request for a single memory region.
fn single_region(guest: u64, size: u64, user: u64, offset: u64) -> Vec<u8> {
    let mut body = vec![0; 8];
    body.extend(region(guest, size, user, offset));
    body
}

/// The fixed part of the body of a memory table.
fn memory(regions: u32) -> Vec<u8> {
    let mut body = regions.to_le_bytes().to_vec();
    body.extend([0; 4]);
    body
}

/// The two ends of a connection, the frontend's with a handle to the backend process.
fn endpoint_pair() -> (End, End) {
    let mut frontend = End::from_stream();
    frontend.set_peer_process(1);
    assert_eq!(*frontend.peer_process(), Some(1));
    (frontend, End::from_stream())
}

#[test]
fn vring_kick_adopts_an_event() {
    let mut kernel = Kernel::new();
    let event = kernel.event();
    let body = VhostUserU64::new(0);
    let record = kernel.record(event);
    let (hdr, files, mut end) =
        round_trip(&mut kernel, SET_VRING_KICK, &body.as_slice(), &record);

    // The trailer is hidden from callers: what they see is the message a POSIX peer would have
    // sent, with the object delivered alongside it.
    assert_eq!(hdr.get_size(), 8);
    assert_eq!(files.unwrap().len(), 1);

    let (bytes, buf) = end.recv_data(8).unwrap();
    assert_eq!(bytes, 8);
    assert_eq!(buf, body.as_slice());
}

#[test]
fn add_mem_reg_adopts_a_section() {
    let mut kernel = Kernel::new();
    let section = kernel.section();
    let body = single_region(0, 0x1000, 0, 0);
    let record = kernel.record(section);
    let (hdr, files, _) = round_trip(&mut kernel, ADD_MEM_REG, &body, &record);

    assert_eq!(hdr.get_size(), 40);
    assert_eq!(files.unwrap().len(), 1);
}

#[test]
fn rem_mem_reg_has_no_trailer() {
    let body = single_region(0, 0x1000, 0, 0);
    let (hdr, files, _) = round_trip(&mut Kernel::new(), REM_MEM_REG, &body, &[]);

    assert_eq!(hdr.get_size(), 40);
    assert!(files.is_none());
}

#[test]
fn vring_kick_without_object() {
    let body = VhostUserU64::new(VHOST_USER_VRING_NOFD_MASK);
    let (hdr, files, _) =
        round_trip(&mut Kernel::new(), SET_VRING_KICK, &body.as_slice(), &[]);

    assert_eq!(hdr.get_size(), 8);
    assert!(files.is_none());
}

#[test]
fn mem_table_adopts_one_section_per_region() {
    // Both regions come from the same section at different offsets, which is what a single
    // shared guest RAM block looks like on the wire: one duplicate per region.
    let mut kernel = Kernel::new();
    let section = kernel.section();
    let regions = [region(0, 0x800, 0, 0), region(0x800, 0x800, 0, 0x800)];

    let mut body = memory(regions.len() as u32);
    let mut trailer = Vec::new();
    for region in &regions {
        body.extend_from_slice(region);
        trailer.extend(kernel.record(section));
    }

    let (hdr, files, _) = round_trip(&mut kernel, SET_MEM_TABLE, &body, &trailer);

    assert_eq!(hdr.get_size() as usize, body.len());
    assert_eq!(files.unwrap().len(), regions.len());
}

#[test]
fn an_unusable_handle_is_reported() {
    let record = 0xdead_beef_u64.to_le_bytes();
    let body = VhostUserU64::new(0).as_slice();
    let mut stream = Stream::new();
    let hdr = Header::new(SET_VRING_KICK, 0, (body.len() + record.len()) as u32);
    stream.write(&hdr.as_slice());
    stream.write(&body);
    stream.write(&record);

    let mut end = End::from_stream();
    assert!(matches!(
        recv_header(&mut end, &mut stream, &mut Kernel::new()),
        Err(Error::Win32InvalidHandle(_))
    ));
}

#[test]
fn attaching_descriptors_needs_a_peer_process() {
    let end = End::from_stream();
    let hdr = Header::new(SET_VRING_KICK, 0, 0);

    let sending = Messages::send_header(&hdr, Some(&[0]));
    assert!(matches!(
        send_whole(&end, sending, &mut Stream::new(), &mut Kernel::new()),
        Err(Error::InvalidOperation(_))
    ));
}

#[test]
fn attaching_descriptors_needs_a_header() {
    let (frontend, _) = endpoint_pair();
    assert!(matches!(
        frontend.send_iovec(&[b"short"], Some(&[0])),
        Err(Error::InvalidParam)
    ));
    // Without descriptors anything may be sent.
    assert_eq!(
        send(&frontend, &[b"sh", b"ort"], Some(&[]), &mut Stream::new(), &mut Kernel::new()).ok(),
        Some(5)
    );
}

#[test]
fn frontend_hands_an_event_over_inside_the_message() {
    let mut kernel = Kernel::new();
    let mut stream = Stream::new();
    let (frontend, mut backend) = endpoint_pair();
    let event = kernel.event();
    let body = VhostUserU64::new(0).as_slice();
    let hdr = Header::new(SET_VRING_KICK, 0, 8);
    let sending = Messages::send_message(&hdr, &body, Some(&[event as RawDescriptor]));
    let sending = sending.ok().unwrap();
    // The trailer is not counted, and is on the wire nevertheless.
    assert_eq!(sending.total(), 20);
    send_whole(&frontend, sending, &mut stream, &mut kernel).unwrap();
    assert_eq!(stream.bytes.len(), 28);

    // The backend sees the POSIX-shaped message with the object alongside — the endpoint
    // grew `size` for the trailer on the way out and the receiver stripped it again.
    let (rhdr, files) = recv_header(&mut backend, &mut stream, &mut kernel).ok().unwrap();
    assert_eq!(rhdr.get_size(), 8);
    let files = files.unwrap();
    assert_eq!(files.len(), 1);

    // The received object is the sent one, held through an independent handle.
    assert!(!kernel.is_signaled(files[0]));
    kernel.set_event(event);
    assert!(kernel.is_signaled(files[0]));
}

#[test]
fn frontend_hands_a_section_over_per_region() {
    let mut kernel = Kernel::new();
    let mut stream = Stream::new();
    let (frontend, mut backend) = endpoint_pair();
    let section = kernel.section() as RawDescriptor;
    let regions = [region(0, 0x800, 0, 0), region(0x800, 0x800, 0, 0x800)];
    let body = memory(regions.len() as u32);
    let payload = regions.concat();
    let hdr = Header::new(SET_MEM_TABLE, 0, (body.len() + payload.len()) as u32);
    let sending =
        Messages::send_message_with_payload(&hdr, &body, &payload, Some(&[section, section]));
    send_whole(&frontend, sending.ok().unwrap(), &mut stream, &mut kernel).unwrap();

    let (rhdr, files) = recv_header(&mut backend, &mut stream, &mut kernel).ok().unwrap();
    assert_eq!(rhdr.get_size() as usize, body.len() + payload.len());
    assert_eq!(files.unwrap().len(), regions.len());
}

// An answer echoes the request code, so an answer to SET_VRING_KICK must not be read as carrying
// the record only the request has.
#[test]
fn frontend_reads_a_reply_ack_without_expecting_a_trailer() {
    let mut kernel = Kernel::new();
    let mut stream = Stream::new();
    let (mut frontend, backend) = endpoint_pair();
    let mut hdr = Header::new(SET_VRING_KICK, 0, 8);
    hdr.set_reply(true);
    let ack = VhostUserU64::new(0).as_slice();
    let sending = Messages::send_message(&hdr, &ack, None).ok().unwrap();
    send_whole(&backend, sending, &mut stream, &mut kernel).unwrap();

    let incoming = receive(&mut frontend, &mut stream, &mut kernel);
    let (rhdr, body, files) = frontend.recv_body::<VhostUserU64, _>(incoming).ok().unwrap();
    assert!(rhdr.is_reply());
    assert_eq!(body.value, 0);
    assert!(files.is_none());
}

#[test]
fn a_message_with_objects_survives_any_split() {
    for step in 1..40 {
        let mut kernel = Kernel::new();
        let mut stream = Stream::new();
        stream.step = step;
        let (frontend, mut backend) = endpoint_pair();
        let first = kernel.event();
        let second = kernel.event();
        let hdr = Header::new(SET_MEM_TABLE, 0, 10);
        let mut body = memory(2);
        body.extend(b"ab");
        send(
            &frontend,
            &[&hdr.as_slice(), &body],
            Some(&[first as RawDescriptor, second as RawDescriptor]),
            &mut stream,
            &mut kernel,
        )
        .unwrap();

        stream.failures.push_back((ErrorKind::Interrupted, IoError::Os(4)));
        let (rhdr, files) = recv_header(&mut backend, &mut stream, &mut kernel).ok().unwrap();
        assert_eq!((rhdr.request, rhdr.flags, rhdr.size), (hdr.request, hdr.flags, hdr.size));
        let files = files.unwrap();
        assert_eq!(kernel.object(files[0]), kernel.object(first));
        assert_eq!(kernel.object(files[1]), kernel.object(second));
        assert_eq!(backend.recv_data(10).ok(), Some((10, body)));
    }
}

#[test]
fn a_failed_write_takes_the_handles_back() {
    for kind in [ErrorKind::BrokenPipe, ErrorKind::ConnectionAborted, ErrorKind::Other] {
        let mut kernel = Kernel::new();
        let mut stream = Stream::new();
        let (frontend, _) = endpoint_pair();
        let event = kernel.event();
        let live = kernel.handles.clone();
        stream.failures.push_back((kind, IoError::Os(32)));
        let hdr = Header::new(SET_VRING_KICK, 0, 0);
        let result = send(
            &frontend,
            &[&hdr.as_slice()],
            Some(&[event as RawDescriptor, event as RawDescriptor]),
            &mut stream,
            &mut kernel,
        );
        if kind == ErrorKind::BrokenPipe {
            assert!(matches!(result, Err(Error::SocketBroken(IoError::Os(32)))));
        } else {
            assert!(matches!(result, Err(Error::SocketError(IoError::Os(32)))));
        }
        assert_eq!(kernel.handles, live);
        assert!(stream.bytes.is_empty());
    }
}

#[test]
fn a_broken_socket_is_reported_without_objects_too() {
    let mut stream = Stream::new();
    let (frontend, _) = endpoint_pair();
    stream.failures.push_back((ErrorKind::BrokenPipe, IoError::Os(109)));
    assert!(matches!(
        send(&frontend, &[b"data"], None, &mut stream, &mut Kernel::new()),
        Err(Error::SocketBroken(IoError::Os(109)))
    ));
}

#[test]
fn a_failed_duplication_sends_nothing() {
    let mut kernel = Kernel::new();
    let mut stream = Stream::new();
    let (frontend, _) = endpoint_pair();
    let event = kernel.event();
    let live = kernel.handles.clone();
    let hdr = Header::new(SET_VRING_KICK, 0, 0);
    assert!(matches!(
        send(
            &frontend,
            &[&hdr.as_slice()],
            Some(&[event as RawDescriptor, 0xdead_beef]),
            &mut stream,
            &mut kernel,
        ),
        Err(Error::Win32HandleTransfer(IoError::Os(ERROR_INVALID_HANDLE)))
    ));
    assert_eq!(kernel.handles, live);
    assert!(stream.bytes.is_empty());
}

#[test]
fn bad_messages_are_refused() {
    let receive_bytes = |bytes: &[u8]| {
        let mut stream = Stream::new();
        stream.write(bytes);
        recv_header(&mut End::from_stream(), &mut stream, &mut Kernel::new())
    };
    assert!(matches!(receive_bytes(&[]), Err(Error::Disconnected)));
    assert!(matches!(receive_bytes(&[1]), Err(Error::PartialMessage)));
    let invalid = Header::new(0, 0, 0).as_slice();
    assert!(matches!(receive_bytes(&invalid), Err(Error::InvalidMessage)));
    let short = Header::new(GET_FEATURES, 0, 4).as_slice();
    assert!(matches!(receive_bytes(&short), Err(Error::PartialMessage)));
    let mut no_room = Header::new(ADD_MEM_REG, 0, 4).as_slice();
    no_room.extend([0; 4]);
    assert!(matches!(receive_bytes(&no_room), Err(Error::InvalidMessage)));
    let no_body = Header::new(SET_VRING_KICK, 0, 0).as_slice();
    assert!(matches!(receive_bytes(&no_body), Err(Error::InvalidMessage)));
    let empty = Header::new(GET_FEATURES, 0, 0).as_slice();
    assert!(matches!(receive_bytes(&empty), Ok((hdr, None)) if hdr.get_size() == 0));
}

#[test]
fn a_failed_read_is_reported() {
    let mut stream = Stream::new();
    stream.failures.push_back((ErrorKind::Interrupted, IoError::Os(4)));
    stream.failures.push_back((ErrorKind::Other, IoError::Os(5)));
    assert!(matches!(
        recv_header(&mut End::from_stream(), &mut stream, &mut Kernel::new()),
        Err(Error::SocketError(IoError::Os(5)))
    ));
}

#[test]
fn payloads_are_handed_out_once() {
    let mut kernel = Kernel::new();
    let mut stream = Stream::new();
    let mut end = End::from_stream();
    let hdr = Header::new(GET_FEATURES, 0, 3);
    let message = [hdr.as_slice(), b"abc".to_vec()].concat();

    stream.write(&message);
    recv_header(&mut end, &mut stream, &mut kernel).ok().unwrap();
    assert_eq!(end.recv_data(2).ok(), Some((2, b"ab".to_vec())));
    assert_eq!(end.recv_data(2).ok(), Some((1, vec![b'c', 0])));
    assert_eq!(end.recv_data(2).ok(), Some((0, vec![0, 0])));

    stream.write(&message);
    let incoming = receive(&mut end, &mut stream, &mut kernel);
    let (n, buf, files) = end.recv_into_buf(5, incoming).ok().unwrap();
    assert_eq!((n, buf, files), (3, b"abc\0\0".to_vec(), None));

    let mut buf = *b"....";
    stream.write(&message);
    let incoming = receive(&mut end, &mut stream, &mut kernel);
    let (rhdr, n, _) = end.recv_body_into_buf(incoming, &mut buf).ok().unwrap();
    assert_eq!((rhdr.get_size(), n), (3, 3));
    assert_eq!(&buf, b"abc.");
    assert_eq!(end.recv_data(1).ok(), Some((0, vec![0])));
}

#[test]
fn payloads_have_to_fit() {
    let mut kernel = Kernel::new();
    let mut stream = Stream::new();
    let mut end = End::from_stream();
    let hdr = Header::new(GET_FEATURES, 0, 9);
    let message = [hdr.as_slice(), VhostUserU64::new(2).as_slice(), vec![7]].concat();

    stream.write(&message);
    let incoming = receive(&mut end, &mut stream, &mut kernel);
    assert!(matches!(end.recv_into_buf(8, incoming), Err(Error::OversizedMsg)));
    // It is still there.
    assert_eq!(end.recv_data(9).ok().unwrap().0, 9);

    stream.write(&message);
    let incoming = receive(&mut end, &mut stream, &mut kernel);
    assert!(matches!(
        end.recv_body_into_buf(incoming, &mut [0; 8]),
        Err(Error::OversizedMsg)
    ));

    stream.write(&message);
    let incoming = receive(&mut end, &mut stream, &mut kernel);
    assert!(matches!(
        end.recv_payload_into_buf::<VhostUserU64, _>(incoming, &mut []),
        Err(Error::OversizedMsg)
    ));

    // A body alone must be all there is.
    stream.write(&message);
    let incoming = receive(&mut end, &mut stream, &mut kernel);
    assert!(matches!(
        end.recv_body::<VhostUserU64, _>(incoming),
        Err(Error::InvalidMessage)
    ));

    let mut buf = [0; 2];
    stream.write(&message);
    let incoming = receive(&mut end, &mut stream, &mut kernel);
    let (_, body, n, _) =
        end.recv_payload_into_buf::<VhostUserU64, _>(incoming, &mut buf).ok().unwrap();
    assert_eq!((body.value, n, buf), (2, 1, [7, 0]));

    let short = [Header::new(GET_FEATURES, 0, 3).as_slice(), vec![0; 3]].concat();
    stream.write(&short);
    let incoming = receive(&mut end, &mut stream, &mut kernel);
    assert!(matches!(
        end.recv_body::<VhostUserU64, _>(incoming),
        Err(Error::PartialMessage)
    ));
    assert_eq!(end.recv_data(1).ok(), Some((0, vec![0])));
}

#[test]
fn a_record_is_a_handle_value() {
    let mut kernel = Kernel::new();
    let created = kernel.event();
    let mut payload = b"base payload".to_vec();
    payload.extend_from_slice(&kernel.record(created));

    let (base, objects) = kernel.take_all(false, &payload, 1).unwrap();
    assert_eq!(base, b"base payload");
    assert_eq!(objects.len(), 1);

    // The adopted object is the created one: signaling the original shows up through it.
    assert!(!kernel.is_signaled(objects[0]));
    kernel.set_event(created);
    assert!(kernel.is_signaled(objects[0]));
}

#[test]
fn a_record_that_is_not_a_handle_is_refused() {
    // The frontend cannot produce this; a peer that does is speaking something else.
    let payload = 0xdead_beef_u64.to_le_bytes();
    assert!(matches!(
        Kernel::new().take_all(false, &payload, 1),
        Err(Error::Win32InvalidHandle(_))
    ));
}

#[test]
fn a_null_handle_is_refused() {
    let payload = 0u64.to_le_bytes();
    assert!(matches!(
        Kernel::new().take_all(false, &payload, 1),
        Err(Error::Win32InvalidHandle(_))
    ));
    let taking = take_handles::<usize>(false, &payload, 1).ok().unwrap();
    assert!(matches!(taking.next(), TakeStep::Refuse));
}

#[test]
fn a_payload_shorter_than_its_trailer_is_refused() {
    let payload = [0u8; VHOST_USER_WIN32_HANDLE_RECORD_SIZE - 1];
    assert!(matches!(
        take_handles::<usize>(false, &payload, 1),
        Err(Error::InvalidMessage)
    ));
    assert!(matches!(
        take_handles::<usize>(false, &payload, usize::MAX),
        Err(Error::InvalidMessage)
    ));
}

#[test]
fn a_trailer_splits_records_in_order() {
    let mut kernel = Kernel::new();
    let first = kernel.event();
    let second = kernel.event();

    let mut payload = Vec::new();
    payload.extend_from_slice(&kernel.record(first));
    payload.extend_from_slice(&kernel.record(second));

    let (base, objects) = kernel.take_all(false, &payload, 2).unwrap();
    assert!(base.is_empty());
    assert_eq!(objects.len(), 2);

    // Signal only the first object: order is observable, not assumed.
    kernel.set_event(first);
    assert!(kernel.is_signaled(objects[0]));
    assert!(!kernel.is_signaled(objects[1]));
}

#[test]
fn adopting_takes_ownership() {
    let mut kernel = Kernel::new();
    let created = kernel.event();
    let payload = kernel.record(created);

    let (_, objects) = kernel.take_all(false, &payload, 1).unwrap();
    let adopted = objects[0];

    // Closing the adopted handle closes the duplicate, and only the duplicate: the frontend keeps
    // its own handle, as a POSIX sender keeps its descriptor.
    kernel.close(adopted);
    assert!(!kernel.is_live(adopted));
    assert!(kernel.is_live(created));
}

#[test]
fn duplicating_into_the_peer_makes_live_records() {
    let mut kernel = Kernel::new();
    let created = kernel.event();

    let trailer = kernel.duplicate_all(&[created as RawDescriptor]).unwrap();
    assert_eq!(trailer.len(), VHOST_USER_WIN32_HANDLE_RECORD_SIZE);

    // The record is a live handle in the peer (this process), distinct from the original,
    // and reaches the same object.
    let (_, objects) = kernel.take_all(false, &trailer, 1).unwrap();
    assert_ne!(objects[0], created);
    kernel.set_event(created);
    assert!(kernel.is_signaled(objects[0]));
}

#[test]
fn duplicating_a_bad_handle_is_reported() {
    let mut kernel = Kernel::new();
    let first = kernel.event();
    let live = kernel.handles.clone();

    // The second handle is junk, so the whole transfer fails, and the duplicate of `first` is
    // closed again. The original stays ours, as always.
    let bad = 0xdead_beef as RawDescriptor;
    assert!(matches!(
        kernel.duplicate_all(&[first as RawDescriptor, bad]),
        Err(Error::Win32HandleTransfer(_))
    ));
    assert!(kernel.is_live(first));
    assert_eq!(kernel.handles, live);
}

#[test]
fn closing_in_the_peer_closes_exactly_the_records() {
    let mut kernel = Kernel::new();
    let created = kernel.event();
    let trailer = kernel.duplicate_all(&[created as RawDescriptor]).unwrap();
    let mut record = [0; 8];
    record.copy_from_slice(&trailer[..8]);
    let duplicate = u64::from_le_bytes(record) as usize;

    assert!(kernel.is_live(duplicate));

    let close = close_in_peer(&trailer);
    assert_eq!(close, [duplicate]);
    for handle in close {
        kernel.close(handle);
    }

    assert!(!kernel.is_live(duplicate));
    assert!(kernel.is_live(created));
    // Less than a record names nothing.
    assert_eq!(close_in_peer(&[1, 2, 3]), Vec::<usize>::new());
}

#[test]
fn pulling_takes_the_object() {
    let mut kernel = Kernel::new();
    let created = kernel.event();
    // The record names a second handle to the object — the one the backend gives away.
    let payload = kernel.record(created);

    let (_, objects) = kernel.take_all(true, &payload, 1).unwrap();

    // The pulled handle reaches the object: signaling our own handle shows up through it.
    assert!(!kernel.is_signaled(objects[0]));
    kernel.set_event(created);
    assert!(kernel.is_signaled(objects[0]));
}

#[test]
fn pulling_a_dead_record_is_refused() {
    let payload = 0xdead_beef_u64.to_le_bytes();
    assert!(matches!(
        Kernel::new().take_all(true, &payload, 1),
        Err(Error::Win32InvalidHandle(_))
    ));
}
