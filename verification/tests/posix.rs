//! Endpoints and listeners over sockets that pass descriptors beside the bytes.

use std::collections::VecDeque;

use vhost_user::connection::sending::{SendStep, Sending};
use vhost_user::connection::unix::{Received, Receiving, RecvStep};
use vhost_user::connection::{
    get_sub_iovs_offset, AcceptOutcome, AcceptStep, Endpoint, Listener, RawDescriptor,
};
use vhost_user::error::{ErrnoCodes, Error, ErrorKind, IoError};
use vhost_user::message::{
    FrontendReq, MsgHeader, VhostUserMsgHeader, VhostUserU64, GET_FEATURES, MAX_ATTACHED_FD_ENTRIES,
    MAX_MSG_SIZE,
};

type Header = VhostUserMsgHeader<FrontendReq>;
type End = Endpoint<Header>;

/// A stream socket that passes descriptors: they come with the first byte that they were sent
/// with, and a receiver does not read past bytes that came with descriptors.
struct Socket {
    packets: VecDeque<(Vec<u8>, Vec<RawDescriptor>)>,
    /// At most this many bytes are taken from a sender, and given to a receiver, at once.
    step: usize,
    /// Errors that the next operations fail with.
    failures: VecDeque<i32>,
}

impl Socket {
    fn new() -> Self {
        Socket { packets: VecDeque::new(), step: usize::MAX, failures: VecDeque::new() }
    }

    fn send(&mut self, iovs: &[&[u8]], fds: Option<&[RawDescriptor]>) -> Result<usize, i32> {
        if let Some(errno) = self.failures.pop_front() {
            return Err(errno);
        }
        let mut data = iovs.concat();
        data.truncate(self.step);
        let sent = data.len();
        self.packets.push_back((data, fds.unwrap_or_default().to_vec()));
        Ok(sent)
    }

    /// Receives at most `len` bytes, and as many descriptors as fit in `fd_array`.
    fn recv(&mut self, len: usize, fd_array: &mut [RawDescriptor]) -> Result<(Vec<u8>, usize), i32> {
        if let Some(errno) = self.failures.pop_front() {
            return Err(errno);
        }
        let len = len.min(self.step);
        let mut data = Vec::new();
        let mut fds = Vec::new();
        while data.len() < len && fds.is_empty() {
            let Some((bytes, with)) = self.packets.front_mut() else { break };
            let n = bytes.len().min(len - data.len());
            data.extend(bytes.drain(..n));
            fds.append(with);
            if bytes.is_empty() {
                self.packets.pop_front();
            }
        }
        if !fds.is_empty() && fd_array.is_empty() {
            return Err(libc::ENOBUFS);
        }
        let n = fds.len().min(fd_array.len());
        fd_array[..n].copy_from_slice(&fds[..n]);
        Ok((data, n))
    }
}

fn send_all(sending: &mut Sending, socket: &mut Socket) -> Result<usize, Error> {
    loop {
        let outcome = match sending.next() {
            None => return Ok(sending.bytes_sent()),
            Some(send) => End::send_iovec(socket.send(&send.iovs, send.fds)),
        };
        match sending.on_sent(outcome) {
            SendStep::Continue => {}
            SendStep::Done(sent) => return Ok(sent),
            SendStep::Failed(error) => return Err(error),
        }
    }
}

fn send_message(mut sending: Sending, socket: &mut Socket) -> Result<(), Error> {
    let sent = send_all(&mut sending, socket)?;
    sending.finish(sent)
}

fn send_slice(data: &[u8], fds: Option<&[RawDescriptor]>, socket: &mut Socket) -> Result<usize, Error> {
    let send = End::send_slice(data, fds);
    End::send_iovec(socket.send(&send.iovs, send.fds))
}

fn recv_once(len: usize, socket: &mut Socket) -> Result<(Vec<u8>, Option<Vec<RawDescriptor>>), Error> {
    let mut fd_array = vec![0; MAX_ATTACHED_FD_ENTRIES];
    let outcome = socket.recv(len, &mut fd_array);
    End::recv_into_iovec(outcome, &fd_array)
}

fn receive(mut receiving: Receiving<RawDescriptor>, socket: &mut Socket) -> Received<RawDescriptor> {
    while let Some(lens) = receiving.next() {
        let outcome = recv_once(lens.iter().sum(), socket);
        match receiving.on_received(outcome) {
            RecvStep::Continue => {}
            RecvStep::Done => break,
        }
    }
    receiving.into_received()
}

fn recv_into_buf(
    len: usize,
    socket: &mut Socket,
) -> Result<(usize, Vec<u8>, Option<Vec<RawDescriptor>>), Error> {
    End::recv_into_buf(len, recv_once(len, socket))
}

fn recv_data(len: usize, socket: &mut Socket) -> Result<(usize, Vec<u8>), Error> {
    let outcome = End::recv_into_iovec(socket.recv(len, &mut []), &[]);
    End::recv_data(len, outcome.map(|(bytes, _)| bytes))
}

fn recv_header(socket: &mut Socket) -> Result<(Header, Option<Vec<RawDescriptor>>), Error> {
    End::recv_header(receive(End::start_recv_header(), socket))
}

fn same(a: &Header, b: &Header) -> bool {
    a.request == b.request && a.flags == b.flags && a.size == b.size
}

#[test]
fn sub_iovs_offsets() {
    assert_eq!(get_sub_iovs_offset(&[4, 4, 5], 6), (1, 2));
    assert_eq!(get_sub_iovs_offset(&[4, 4, 5], 0), (0, 0));
    assert_eq!(get_sub_iovs_offset(&[4, 4, 5], 4), (1, 0));
    assert_eq!(get_sub_iovs_offset(&[4, 0, 5], 4), (2, 0));
    assert_eq!(get_sub_iovs_offset(&[4, 4, 5], 13), (3, 0));
    assert_eq!(get_sub_iovs_offset(&[4, 4, 5], 20), (3, 7));
    assert_eq!(get_sub_iovs_offset(&[], 3), (0, 3));
}

#[test]
fn create_listener() {
    let listener = Listener::new("/tmp/socket", Ok(())).ok().unwrap();
    assert_eq!(*listener.path_to_remove(), Some("/tmp/socket"));
}

#[test]
fn create_listener_from_raw_fd() {
    let listener = Listener::<&str>::from_socket();
    assert_eq!(*listener.path_to_remove(), None);
}

#[test]
fn a_listener_that_cannot_bind_is_reported() {
    assert!(matches!(
        Listener::new("/tmp/socket", Err(IoError::Os(13))),
        Err(Error::SocketError(IoError::Os(13)))
    ));
}

#[test]
fn accept_connection() {
    Listener::<&str>::set_nonblocking(Ok(())).unwrap();

    // accept on a fd without incoming connection
    let error = IoError::Os(libc::EAGAIN);
    let step = Listener::<&str>::accept::<u8>(AcceptOutcome::Failed(ErrorKind::WouldBlock, error));
    assert!(matches!(step, AcceptStep::Done(Ok(None))));
}

#[test]
fn accept_outcomes() {
    let error = IoError::Os(1);
    let accept =
        |kind| Listener::<&str>::accept::<u8>(AcceptOutcome::Failed(kind, error.clone()));
    assert!(matches!(
        Listener::<&str>::accept(AcceptOutcome::Accepted(7u8)),
        AcceptStep::Done(Ok(Some(7)))
    ));
    assert!(matches!(accept(ErrorKind::ConnectionAborted), AcceptStep::Done(Ok(None))));
    assert!(matches!(accept(ErrorKind::Interrupted), AcceptStep::Retry));
    assert!(matches!(
        accept(ErrorKind::BrokenPipe),
        AcceptStep::Done(Err(Error::SocketError(IoError::Os(1))))
    ));
    assert!(matches!(
        Listener::<&str>::set_nonblocking(Err(error.clone())),
        Err(Error::SocketError(IoError::Os(1)))
    ));
}

#[test]
fn connecting_is_judged() {
    assert_eq!(End::connect(Ok(5u8)).ok(), Some(5));
    assert!(matches!(
        End::connect::<u8>(Err(IoError::Os(2))),
        Err(Error::SocketConnect(IoError::Os(2)))
    ));
}

#[test]
fn send_data() {
    let mut socket = Socket::new();

    let buf1 = [0x1, 0x2, 0x3, 0x4];
    let mut len = send_slice(&buf1[..], None, &mut socket).unwrap();
    assert_eq!(len, 4);
    let (bytes, buf2, _) = recv_into_buf(0x1000, &mut socket).unwrap();
    assert_eq!(bytes, 4);
    assert_eq!(&buf1[..], &buf2[..bytes]);

    len = send_slice(&buf1[..], None, &mut socket).unwrap();
    assert_eq!(len, 4);
    let (bytes, buf2, _) = recv_into_buf(0x2, &mut socket).unwrap();
    assert_eq!(bytes, 2);
    assert_eq!(&buf1[..2], &buf2[..]);
    let (bytes, buf2, _) = recv_into_buf(0x2, &mut socket).unwrap();
    assert_eq!(bytes, 2);
    assert_eq!(&buf1[2..], &buf2[..]);
}

#[test]
fn send_fd() {
    let mut socket = Socket::new();
    // The descriptor, and what is read through it.
    let fd: RawDescriptor = 7;
    let content = |fd: RawDescriptor| if fd == 7 { "test" } else { "" };

    // Normal case for sending/receiving file descriptors
    let buf1 = [0x1, 0x2, 0x3, 0x4];
    let len = send_slice(&buf1[..], Some(&[fd]), &mut socket).unwrap();
    assert_eq!(len, 4);

    let (bytes, buf2, files) = recv_into_buf(4, &mut socket).unwrap();
    assert_eq!(bytes, 4);
    assert_eq!(&buf1[..], &buf2[..]);
    assert!(files.is_some());
    let files = files.unwrap();
    assert_eq!(files.len(), 1);
    assert_eq!(content(files[0]), "test");

    // Following communication pattern should work:
    // Sending side: data(header, body) with fds
    // Receiving side: data(header) with fds, data(body)
    let len = send_slice(&buf1[..], Some(&[fd, fd, fd]), &mut socket).unwrap();
    assert_eq!(len, 4);

    let (bytes, buf2, files) = recv_into_buf(0x2, &mut socket).unwrap();
    assert_eq!(bytes, 2);
    assert_eq!(&buf1[..2], &buf2[..]);
    assert!(files.is_some());
    let files = files.unwrap();
    assert_eq!(files.len(), 3);
    assert_eq!(content(files[1]), "test");
    let (bytes, buf2, files) = recv_into_buf(0x2, &mut socket).unwrap();
    assert_eq!(bytes, 2);
    assert_eq!(&buf1[2..], &buf2[..]);
    assert!(files.is_none());

    // Following communication pattern should not work:
    // Sending side: data(header, body) with fds
    // Receiving side: data(header), data(body) with fds
    let len = send_slice(&buf1[..], Some(&[fd, fd, fd]), &mut socket).unwrap();
    assert_eq!(len, 4);

    let _err = recv_data(2, &mut socket).unwrap_err();
    let (bytes, buf2, files) = recv_into_buf(0x2, &mut socket).unwrap();
    assert_eq!(bytes, 2);
    assert_eq!(&buf1[2..], &buf2[..]);
    assert!(files.is_none());

    // Following communication pattern should work:
    // Sending side: data, data with fds
    // Receiving side: data, data with fds
    let len = send_slice(&buf1[..], None, &mut socket).unwrap();
    assert_eq!(len, 4);
    let len = send_slice(&buf1[..], Some(&[fd, fd, fd]), &mut socket).unwrap();
    assert_eq!(len, 4);

    let (bytes, buf2, files) = recv_into_buf(0x4, &mut socket).unwrap();
    assert_eq!(bytes, 4);
    assert_eq!(&buf1[..], &buf2[..]);
    assert!(files.is_none());

    let (bytes, buf2, files) = recv_into_buf(0x2, &mut socket).unwrap();
    assert_eq!(bytes, 2);
    assert_eq!(&buf1[..2], &buf2[..]);
    assert!(files.is_some());
    let files = files.unwrap();
    assert_eq!(files.len(), 3);
    assert_eq!(content(files[1]), "test");
    let (bytes, buf2, files) = recv_into_buf(0x2, &mut socket).unwrap();
    assert_eq!(bytes, 2);
    assert_eq!(&buf1[2..], &buf2[..]);
    assert!(files.is_none());

    // Following communication pattern should not work:
    // Sending side: data1, data2 with fds
    // Receiving side: data + partial of data2, left of data2 with fds
    let len = send_slice(&buf1[..], None, &mut socket).unwrap();
    assert_eq!(len, 4);
    let len = send_slice(&buf1[..], Some(&[fd, fd, fd]), &mut socket).unwrap();
    assert_eq!(len, 4);

    let _err = recv_data(5, &mut socket).unwrap_err();

    let (bytes, _, files) = recv_into_buf(0x4, &mut socket).unwrap();
    assert_eq!(bytes, 3);
    assert!(files.is_none());

    // If the target fd array is too small, extra file descriptors will get lost.
    let len = send_slice(&buf1[..], Some(&[fd, fd, fd]), &mut socket).unwrap();
    assert_eq!(len, 4);

    let (bytes, _, files) = recv_into_buf(0x4, &mut socket).unwrap();
    assert_eq!(bytes, 4);
    assert!(files.is_some());
}

#[test]
fn send_recv() {
    let mut socket = Socket::new();

    let mut hdr1 = Header::new(GET_FEATURES, 0, 8);
    hdr1.set_need_reply(true);
    let features1 = 0x1u64;
    let sending = End::send_message(&hdr1, &features1.to_le_bytes(), None).ok().unwrap();
    send_message(sending, &mut socket).unwrap();

    let mut slice = [0u8; 8];
    let received = receive(End::start_recv_body(slice.len()), &mut socket);
    let (hdr2, bytes, files) = End::recv_body_into_buf(received, &mut slice).ok().unwrap();
    let features2 = u64::from_le_bytes(slice);
    assert!(same(&hdr1, &hdr2));
    assert_eq!(bytes, 8);
    assert_eq!(features1, features2);
    assert!(files.is_none());

    send_message(End::send_header(&hdr1, None), &mut socket).unwrap();
    let (hdr2, files) = recv_header(&mut socket).ok().unwrap();
    assert!(same(&hdr1, &hdr2));
    assert!(files.is_none());
}

#[test]
fn partial_message() {
    let mut socket = Socket::new();
    socket.send(&[b"a"], None).unwrap();
    assert!(matches!(recv_header(&mut socket), Err(Error::PartialMessage)));
}

#[test]
fn disconnected() {
    let mut socket = Socket::new();
    assert!(matches!(recv_header(&mut socket), Err(Error::Disconnected)));
}

#[test]
fn a_message_survives_any_split() {
    for step in 1..24 {
        let mut socket = Socket::new();
        socket.step = step;
        let hdr = Header::new(GET_FEATURES, 0, 11);
        let body = VhostUserU64::new(0x1122_3344_5566_7788).as_slice();
        let sending = End::send_message_with_payload(&hdr, &body, b"abc", Some(&[5, 6]));
        send_message(sending.ok().unwrap(), &mut socket).unwrap();

        let mut buf = [0u8; 3];
        let received = receive(End::start_recv_payload(8, buf.len()), &mut socket);
        assert_eq!(received.files, Some(vec![5, 6]));
        let (rhdr, rbody, n, files) =
            End::recv_payload_into_buf::<VhostUserU64, _>(received, &mut buf).ok().unwrap();
        assert!(same(&hdr, &rhdr));
        assert_eq!(rbody.value, 0x1122_3344_5566_7788);
        assert_eq!(n, 3);
        assert_eq!(&buf, b"abc");
        assert_eq!(files, Some(vec![5, 6]));
    }
}

#[test]
fn temporary_failures_are_tried_again() {
    let mut socket = Socket::new();
    socket.failures.push_back(libc::EINTR);
    socket.failures.push_back(libc::EAGAIN);
    let hdr = Header::new(GET_FEATURES, 0, 8);
    let body = VhostUserU64::new(3).as_slice();
    send_message(End::send_message(&hdr, &body, Some(&[9])).ok().unwrap(), &mut socket).unwrap();

    socket.failures.push_back(libc::ENOMEM);
    let received = receive(End::start_recv_body(8), &mut socket);
    let (rhdr, rbody, files) = End::recv_body::<VhostUserU64, _>(received).ok().unwrap();
    assert!(same(&hdr, &rhdr));
    assert_eq!(rbody.value, 3);
    assert_eq!(files, Some(vec![9]));
}

#[test]
fn lasting_failures_are_reported() {
    let mut socket = Socket::new();
    let hdr = Header::new(GET_FEATURES, 0, 0);
    socket.failures.push_back(libc::EPIPE);
    assert!(matches!(
        send_message(End::send_header(&hdr, None), &mut socket),
        Err(Error::SocketBroken(IoError::Os(errno))) if errno == libc::EPIPE
    ));
    socket.failures.push_back(libc::EBADF);
    assert!(matches!(
        recv_header(&mut socket),
        Err(Error::SocketError(IoError::Os(errno))) if errno == libc::EBADF
    ));
}

#[test]
fn a_socket_that_takes_nothing_ends_the_transfer() {
    let mut socket = Socket::new();
    socket.step = 0;
    let hdr = Header::new(GET_FEATURES, 0, 0);
    assert!(matches!(
        send_message(End::send_header(&hdr, None), &mut socket),
        Err(Error::PartialMessage)
    ));
    let sending = End::send_header(&hdr, None);
    assert!(matches!(sending.finish(5), Err(Error::PartialMessage)));
    assert!(sending.finish(12).is_ok());
}

#[test]
fn oversized_messages_are_not_sent() {
    let hdr = Header::new(GET_FEATURES, 0, 0);
    let largest = vec![0; MAX_MSG_SIZE];
    let larger = vec![0; MAX_MSG_SIZE + 1];
    assert!(End::send_message(&hdr, &largest, None).is_ok());
    assert!(matches!(End::send_message(&hdr, &larger, None), Err(Error::OversizedMsg)));
    assert!(matches!(
        End::send_message_with_payload(&hdr, &larger, &[], None),
        Err(Error::OversizedMsg)
    ));
    assert!(matches!(
        End::send_message_with_payload(&hdr, &[0; 8], &largest, None),
        Err(Error::OversizedMsg)
    ));
    let fds = vec![0; MAX_ATTACHED_FD_ENTRIES + 1];
    assert!(matches!(
        End::send_message_with_payload(&hdr, &[0; 8], &[], Some(&fds)),
        Err(Error::IncorrectFds)
    ));
    assert!(End::send_message_with_payload(&hdr, &[0; 8], &[], Some(&fds[1..])).is_ok());
}

#[test]
fn invalid_messages_are_refused() {
    let mut socket = Socket::new();
    let mut hdr = Header::new(GET_FEATURES, 0, 8);
    hdr.flags = 0;
    send_message(End::send_header(&hdr, None), &mut socket).unwrap();
    assert!(matches!(recv_header(&mut socket), Err(Error::InvalidMessage)));

    let body = VhostUserU64::new(1).as_slice();
    send_message(End::send_message(&hdr, &body, None).ok().unwrap(), &mut socket).unwrap();
    let received = receive(End::start_recv_body(8), &mut socket);
    assert!(matches!(
        End::recv_body::<VhostUserU64, _>(received),
        Err(Error::InvalidMessage)
    ));

    let mut buf = [0u8; 8];
    send_message(End::send_message(&hdr, &body, None).ok().unwrap(), &mut socket).unwrap();
    let received = receive(End::start_recv_body(8), &mut socket);
    assert!(matches!(
        End::recv_body_into_buf(received, &mut buf),
        Err(Error::InvalidMessage)
    ));
    // The bytes are in the buffer nevertheless.
    assert_eq!(buf, [1, 0, 0, 0, 0, 0, 0, 0]);

    send_message(End::send_message(&hdr, &body, None).ok().unwrap(), &mut socket).unwrap();
    let received = receive(End::start_recv_payload(8, 0), &mut socket);
    assert!(matches!(
        End::recv_payload_into_buf::<VhostUserU64, _>(received, &mut []),
        Err(Error::InvalidMessage)
    ));
}

#[test]
fn short_messages_are_partial() {
    let mut socket = Socket::new();
    let hdr = Header::new(GET_FEATURES, 0, 8);
    send_message(End::send_message(&hdr, &[1, 2, 3], None).ok().unwrap(), &mut socket).unwrap();
    let received = receive(End::start_recv_body(8), &mut socket);
    assert!(matches!(
        End::recv_body::<VhostUserU64, _>(received),
        Err(Error::PartialMessage)
    ));

    socket.send(&[&[1, 2, 3]], None).unwrap();
    let received = receive(End::start_recv_body(4), &mut socket);
    assert!(matches!(
        End::recv_body_into_buf(received, &mut [0; 4]),
        Err(Error::PartialMessage)
    ));

    socket.send(&[&hdr.as_slice(), &[1, 2, 3]], None).unwrap();
    let received = receive(End::start_recv_payload(8, 4), &mut socket);
    assert!(matches!(
        End::recv_payload_into_buf::<VhostUserU64, _>(received, &mut [0; 4]),
        Err(Error::PartialMessage)
    ));
}

#[test]
fn vectors_are_sent_one_after_the_other() {
    let mut socket = Socket::new();
    socket.step = 2;
    let mut sending = End::send_iovec_all(&[b"ab", b"", b"cde"], Some(&[4]));
    assert_eq!(sending.total(), 5);
    assert_eq!(send_all(&mut sending, &mut socket).unwrap(), 5);
    // The descriptor goes with the first bytes only.
    let fds: Vec<usize> = socket.packets.iter().map(|(_, fds)| fds.len()).collect();
    assert_eq!(fds, [1, 0, 0]);

    let receiving = End::recv_into_iovec_all(vec![1, 4]);
    let received = receive(receiving, &mut socket);
    assert_eq!(received.data, b"abcde");
    assert_eq!(received.files, Some(vec![4]));
    assert!(received.failure.is_none());
}

#[test]
fn a_receive_is_short_only_at_the_end() {
    for step in 1..8 {
        let mut socket = Socket::new();
        socket.send(&[b"abcde"], Some(&[4])).unwrap();
        socket.step = step;
        // Less than the stream holds, and then more than is left of it.
        let received = receive(End::recv_into_iovec_all(vec![1, 2]), &mut socket);
        assert_eq!(received.data, b"abc");
        assert_eq!(received.files, Some(vec![4]));
        let received = receive(End::recv_into_iovec_all(vec![1, 4]), &mut socket);
        assert_eq!(received.data, b"de");
        assert_eq!(received.files, None);
        assert!(received.failure.is_none());
    }
}

#[test]
fn buffers_are_zero_padded() {
    let (n, buf) = End::recv_data(5, Ok(vec![1, 2])).unwrap();
    assert_eq!((n, buf), (2, vec![1, 2, 0, 0, 0]));
    let (n, buf, files) = End::recv_into_buf(3, Ok((vec![8], Some(vec![1i64])))).unwrap();
    assert_eq!((n, buf, files), (1, vec![8, 0, 0], Some(vec![1])));
    assert!(matches!(
        End::recv_data(5, Err(Error::Disconnected)),
        Err(Error::Disconnected)
    ));
    assert!(matches!(
        End::recv_into_buf::<i64>(5, Err(Error::Disconnected)),
        Err(Error::Disconnected)
    ));
}

#[test]
fn descriptors_beyond_the_array_are_lost() {
    let received = End::recv_into_iovec(Ok((vec![1], 5)), &[3, 4]);
    assert_eq!(received.ok(), Some((vec![1], Some(vec![3, 4]))));
    let received = End::recv_into_iovec(Ok((vec![1], 1)), &[3, 4]);
    assert_eq!(received.ok(), Some((vec![1], Some(vec![3]))));

    let array: Vec<RawDescriptor> = (0..40).collect();
    let received = End::recv_into_iovec(Ok((vec![1], 40)), &array);
    let files = received.ok().unwrap().1.unwrap();
    assert_eq!(files, array[..MAX_ATTACHED_FD_ENTRIES]);
}

#[test]
fn error_numbers_are_sorted() {
    for errno in [libc::EAGAIN, libc::EWOULDBLOCK, libc::EINTR, libc::ENOBUFS, libc::ENOMEM] {
        assert!(matches!(
            Error::from_errno(errno),
            Error::SocketRetry(IoError::Os(e)) if e == errno
        ));
    }
    for errno in [libc::ECONNRESET, libc::EPIPE] {
        assert!(matches!(
            Error::from_errno(errno),
            Error::SocketBroken(IoError::Os(e)) if e == errno
        ));
    }
    for errno in [libc::EACCES, libc::EINVAL] {
        assert!(matches!(
            Error::from_errno(errno),
            Error::SocketError(IoError::Os(e)) if e == errno
        ));
    }
}

#[test]
fn error_numbers_are_sorted_by_given_numbers() {
    let codes = ErrnoCodes {
        eagain: 1,
        ewouldblock: 2,
        eintr: 3,
        enobufs: 4,
        enomem: 5,
        econnreset: 6,
        epipe: 7,
    };
    for errno in 1..6 {
        assert!(matches!(Error::from_errno_with(errno, &codes), Error::SocketRetry(_)));
    }
    assert!(matches!(Error::from_errno_with(6, &codes), Error::SocketBroken(IoError::Os(6))));
    assert!(matches!(Error::from_errno_with(7, &codes), Error::SocketBroken(IoError::Os(7))));
    assert!(matches!(Error::from_errno_with(8, &codes), Error::SocketError(IoError::Os(8))));
    assert!(matches!(Error::from_errno_with(9, &codes), Error::SocketError(IoError::Os(9))));
}
