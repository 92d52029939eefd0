//! The two ends of a connection.
//!
//! The control channel is a byte stream. This module decides what is handed to the socket and
//! what its answers mean; the socket itself is the caller's. Each operation on it is a small
//! machine: the caller asks what to send or receive next, does it, and reports the outcome.

use std::marker::PhantomData;

use vstd::prelude::*;
use vstd::slice::slice_to_vec;

use crate::error::{Error, ErrorKind, IoError};
use crate::message::{MsgHeader, MAX_ATTACHED_FD_ENTRIES};

pub mod buffer;
pub mod sending;
pub mod unix;
pub mod windows;

use self::sending::{SendIovec, Sending};

verus! {

/// A raw handle on an object that the protocol passes between peers: a descriptor number on
/// POSIX, a handle value on Windows.
pub type RawDescriptor = i64;

/// The number of bytes that vectors of the lengths `lens` hold together.
pub open spec fn total_len(lens: Seq<usize>) -> nat
    decreases lens.len(),
{
    if lens.len() == 0 {
        0
    } else {
        total_len(lens.drop_last()) + lens.last() as nat
    }
}

/// Byte `skip` of the vectors of the lengths `lens` is byte `offset` of the vector `index`.
///
/// Where all the vectors are skipped, `index` is their number and `offset` what is left over.
pub open spec fn is_sub_offset(lens: Seq<usize>, skip: int, index: int, offset: int) -> bool {
    &&& 0 <= index <= lens.len()
    &&& 0 <= offset
    &&& total_len(lens.take(index)) + offset == skip
    &&& index < lens.len() ==> offset < lens[index]
}

/// Skipping more vectors skips at least as many bytes.
pub proof fn lemma_total_len_monotonic(lens: Seq<usize>, i: int, j: int)
    requires
        0 <= i <= j <= lens.len(),
    ensures
        total_len(lens.take(i)) <= total_len(lens.take(j)),
    decreases j,
{
    if i < j {
        lemma_total_len_monotonic(lens, i, j - 1);
        assert(lens.take(j).drop_last() =~= lens.take(j - 1));
    }
}

/// A byte has one place: no two pairs of index and offset name it.
pub proof fn law_sub_offset_unique(
    lens: Seq<usize>,
    skip: int,
    index1: int,
    offset1: int,
    index2: int,
    offset2: int,
)
    requires
        is_sub_offset(lens, skip, index1, offset1),
        is_sub_offset(lens, skip, index2, offset2),
    ensures
        index1 == index2,
        offset1 == offset2,
{
    if index1 < index2 {
        lemma_total_len_monotonic(lens, index1 + 1, index2);
        assert(lens.take(index1 + 1).drop_last() =~= lens.take(index1));
    } else if index2 < index1 {
        lemma_total_len_monotonic(lens, index2 + 1, index1);
        assert(lens.take(index2 + 1).drop_last() =~= lens.take(index2));
    }
}

/// Given the lengths of vectors, where byte `skip_size` lies: the vector, and the byte in it.
pub fn get_sub_iovs_offset(iov_lens: &[usize], skip_size: usize) -> (place: (usize, usize))
    ensures
        is_sub_offset(iov_lens@, skip_size as int, place.0 as int, place.1 as int),
{
    let mut size: usize = skip_size;
    let mut nr_skip: usize = 0;
    while nr_skip < iov_lens.len() && size >= iov_lens[nr_skip]
        invariant
            nr_skip <= iov_lens@.len(),
            total_len(iov_lens@.take(nr_skip as int)) + size == skip_size,
        decreases iov_lens@.len() - nr_skip,
    {
        assert(iov_lens@.take(nr_skip + 1).drop_last() =~= iov_lens@.take(nr_skip as int));
        size = size - iov_lens[nr_skip];
        nr_skip = nr_skip + 1;
    }
    (nr_skip, size)
}

/// The objects of an optional list.
pub open spec fn fds_view(fds: Option<&[RawDescriptor]>) -> Option<Seq<RawDescriptor>> {
    match fds {
        Some(fds) => Some(fds@),
        None => None,
    }
}

fn copy_fds(fds: Option<&[RawDescriptor]>) -> (copy: Option<Vec<RawDescriptor>>)
    ensures
        match copy {
            Some(copy) => fds_view(fds) == Some(copy@),
            None => fds is None,
        },
{
    match fds {
        Some(fds) => Some(slice_to_vec(fds)),
        None => None,
    }
}

fn copy_iovs(iovs: &[&[u8]]) -> (copy: Vec<Vec<u8>>)
    ensures
        copy.deep_view() == iovs.deep_view(),
{
    let mut copy: Vec<Vec<u8>> = Vec::new();
    let mut i: usize = 0;
    while i < iovs.len()
        invariant
            i <= iovs@.len(),
            copy@.len() == i,
            forall|j: int| 0 <= j < i ==> (#[trigger] copy@[j])@ == iovs@[j]@,
        decreases iovs@.len() - i,
    {
        copy.push(slice_to_vec(iovs[i]));
        i = i + 1;
    }
    proof {
        assert forall|j: int| 0 <= j < iovs@.len() implies #[trigger] copy.deep_view()[j]
            == iovs.deep_view()[j] by {
            assert(copy@[j]@ == iovs@[j]@);
            assert(copy.deep_view()[j] =~= copy@[j]@);
            assert(iovs.deep_view()[j] =~= iovs@[j]@);
        }
        assert(copy.deep_view() =~= iovs.deep_view());
    }
    copy
}

/// The bytes of all vectors, one after the other.
pub(crate) fn concat(iovs: &[&[u8]]) -> (data: Vec<u8>)
    ensures
        data@ == iovs.deep_view().flatten(),
{
    let ghost parts = iovs.deep_view();
    let mut data: Vec<u8> = Vec::new();
    let mut i: usize = 0;
    assert(parts.take(0).flatten() =~= Seq::<u8>::empty());
    while i < iovs.len()
        invariant
            parts == iovs.deep_view(),
            i <= iovs@.len(),
            data@ == parts.take(i as int).flatten(),
        decreases iovs@.len() - i,
    {
        let mut part = slice_to_vec(iovs[i]);
        proof {
            assert(parts[i as int] =~= iovs@[i as int]@);
            parts.take(i as int).lemma_flatten_push(parts[i as int]);
            assert(parts.take(i as int).push(parts[i as int]) =~= parts.take(i + 1));
        }
        data.append(&mut part);
        i = i + 1;
    }
    assert(parts.take(i as int) =~= parts);
    data
}

/// One end of a connection whose messages have the header `H`.
pub struct Endpoint<H: MsgHeader> {
    pub header: PhantomData<H>,
}

/// Two or three parts one after the other.
proof fn lemma_flatten_parts(a: Seq<u8>, b: Seq<u8>, c: Seq<u8>)
    ensures
        seq![a].flatten() == a,
        seq![a, b].flatten() == a + b,
        seq![a, b, c].flatten() == a + b + c,
{
    reveal_with_fuel(Seq::flatten, 4);
    assert(seq![a].flatten() =~= a);
    assert(seq![a, b].drop_first() =~= seq![b]);
    assert(seq![b].drop_first() =~= Seq::<Seq<u8>>::empty());
    assert(seq![a, b].flatten() =~= a + b);
    assert(seq![a, b, c].drop_first() =~= seq![b, c]);
    assert(seq![b, c].drop_first() =~= seq![c]);
    assert(seq![c].flatten() =~= c);
    assert(seq![b, c].flatten() =~= b + c);
    assert(seq![a, b, c].flatten() =~= a + b + c);
}

impl<H: MsgHeader> Endpoint<H> {
    /// Judges the attempt to connect to a server.
    ///
    /// * SocketConnect: there is no connection.
    pub fn connect<S>(connected: Result<S, IoError>) -> (socket: Result<S, Error>)
        ensures
            socket == match connected {
                Ok(socket) => Ok::<S, Error>(socket),
                Err(error) => Err(Error::SocketConnect(error)),
            },
    {
        match connected {
            Ok(socket) => Ok(socket),
            Err(error) => Err(Error::SocketConnect(error)),
        }
    }

    /// Sends all bytes of scatter-gather vectors, with optional objects attached.
    pub fn send_iovec_all(iovs: &[&[u8]], fds: Option<&[RawDescriptor]>) -> (sending: Sending)
        requires
            iovs.deep_view().flatten().len() <= usize::MAX,
        ensures
            sending.parts() == iovs.deep_view(),
            sending.attached() == fds_view(fds),
            sending.sent() == 0,
    {
        Sending::new(copy_iovs(iovs), copy_fds(fds))
    }

    /// Sends bytes of a slice, as many as the socket takes at once, with optional objects
    /// attached.
    pub fn send_slice<'a>(data: &'a [u8], fds: Option<&'a [RawDescriptor]>) -> (send: SendIovec<'a>)
        ensures
            send.iovs@ == seq![data],
            send.fds == fds,
    {
        let mut iovs: Vec<&'a [u8]> = Vec::new();
        iovs.push(data);
        SendIovec { iovs, fds }
    }

    /// Sends a message that is a header alone, with optional objects attached.
    pub fn send_header(hdr: &H, fds: Option<&[RawDescriptor]>) -> (sending: Sending)
        ensures
            sending.parts() == seq![hdr.wire()],
            sending.data() == hdr.wire(),
            sending.attached() == fds_view(fds),
            sending.sent() == 0,
    {
        let mut iovs: Vec<Vec<u8>> = Vec::new();
        iovs.push(hdr.as_slice());
        proof {
            lemma_flatten_parts(hdr.wire(), Seq::empty(), Seq::empty());
            hdr.lemma_header(0);
            H::lemma_sizes();
            assert(iovs.deep_view()[0] =~= hdr.wire());
            assert(iovs.deep_view() =~= seq![hdr.wire()]);
        }
        Sending::new(iovs, copy_fds(fds))
    }

    /// Sends a message with header and body, with optional objects attached.
    ///
    /// * OversizedMsg: the body is larger than a message may be.
    pub fn send_message(hdr: &H, body: &[u8], fds: Option<&[RawDescriptor]>) -> (sending: Result<
        Sending,
        Error,
    >)
        ensures
            match sending {
                Ok(sending) => {
                    &&& body@.len() <= H::max_msg_size()
                    &&& sending.parts() == seq![hdr.wire(), body@]
                    &&& sending.data() == hdr.wire() + body@
                    &&& sending.attached() == fds_view(fds)
                    &&& sending.sent() == 0
                },
                Err(error) => body@.len() > H::max_msg_size() && error == Error::OversizedMsg,
            },
    {
        if body.len() > H::max_size() {
            return Err(Error::OversizedMsg);
        }
        let mut iovs: Vec<Vec<u8>> = Vec::new();
        iovs.push(hdr.as_slice());
        iovs.push(slice_to_vec(body));
        proof {
            lemma_flatten_parts(hdr.wire(), body@, Seq::empty());
            hdr.lemma_header(0);
            H::lemma_sizes();
            assert(iovs.deep_view()[0] =~= hdr.wire());
            assert(iovs.deep_view()[1] =~= body@);
            assert(iovs.deep_view() =~= seq![hdr.wire(), body@]);
        }
        Ok(Sending::new(iovs, copy_fds(fds)))
    }

    /// Sends a message with header, body and payload, with optional objects attached.
    ///
    /// * OversizedMsg: body and payload are larger than a message may be.
    /// * IncorrectFds: more objects are attached than a message may carry.
    pub fn send_message_with_payload(
        hdr: &H,
        body: &[u8],
        payload: &[u8],
        fds: Option<&[RawDescriptor]>,
    ) -> (sending: Result<Sending, Error>)
        ensures
            match sending {
                Ok(sending) => {
                    &&& body@.len() + payload@.len() <= H::max_msg_size()
                    &&& fds matches Some(fds) ==> fds@.len() <= MAX_ATTACHED_FD_ENTRIES
                    &&& sending.parts() == seq![hdr.wire(), body@, payload@]
                    &&& sending.data() == hdr.wire() + body@ + payload@
                    &&& sending.attached() == fds_view(fds)
                    &&& sending.sent() == 0
                },
                Err(error) => if body@.len() + payload@.len() > H::max_msg_size() {
                    error == Error::OversizedMsg
                } else {
                    &&& error == Error::IncorrectFds
                    &&& fds matches Some(fds) && fds@.len() > MAX_ATTACHED_FD_ENTRIES
                },
            },
    {
        if body.len() > H::max_size() {
            return Err(Error::OversizedMsg);
        }
        if payload.len() > H::max_size() - body.len() {
            return Err(Error::OversizedMsg);
        }
        if let Some(fd_arr) = fds {
            if fd_arr.len() > MAX_ATTACHED_FD_ENTRIES {
                return Err(Error::IncorrectFds);
            }
        }
        let mut iovs: Vec<Vec<u8>> = Vec::new();
        iovs.push(hdr.as_slice());
        iovs.push(slice_to_vec(body));
        iovs.push(slice_to_vec(payload));
        proof {
            lemma_flatten_parts(hdr.wire(), body@, payload@);
            hdr.lemma_header(0);
            H::lemma_sizes();
            assert(iovs.deep_view()[0] =~= hdr.wire());
            assert(iovs.deep_view()[1] =~= body@);
            assert(iovs.deep_view()[2] =~= payload@);
            assert(iovs.deep_view() =~= seq![hdr.wire(), body@, payload@]);
        }
        Ok(Sending::new(iovs, copy_fds(fds)))
    }
}

/// What `accept` of the socket gave: a connection, or an error.
pub enum AcceptOutcome<S> {
    Accepted(S),
    Failed(ErrorKind, IoError),
}

/// What follows from an attempt to accept a connection.
pub enum AcceptStep<S> {
    /// The attempt is over.
    Done(Result<Option<S>, Error>),
    /// A signal came in between: try again.
    Retry,
}

/// A listener for incoming connections, with the path that it made for them, if it made one.
pub struct Listener<P> {
    path: Option<P>,
}

impl<P> Listener<P> {
    /// The path that goes away with the listener.
    pub closed spec fn made(self) -> Option<P> {
        self.path
    }

    /// Takes note of the outcome of binding a socket to `path`.
    ///
    /// * SocketError: failed to create the listener socket.
    pub fn new(path: P, bound: Result<(), IoError>) -> (listener: Result<Self, Error>)
        ensures
            match bound {
                Ok(_) => listener matches Ok(listener) && listener.made() == Some(path),
                Err(error) => listener == Err::<Self, Error>(Error::SocketError(error)),
            },
    {
        match bound {
            Ok(_) => Ok(Listener { path: Some(path) }),
            Err(error) => Err(Error::SocketError(error)),
        }
    }

    /// A listener around a socket that someone else made: no path goes away with it.
    pub fn from_socket() -> (listener: Self)
        ensures
            listener.made() is None,
    {
        Listener { path: None }
    }

    /// The path to remove when the listener is dropped.
    pub fn path_to_remove(&self) -> (path: &Option<P>)
        ensures
            *path == self.made(),
    {
        &self.path
    }

    /// Judges the attempt to change the blocking status of the listener.
    ///
    /// * SocketError: the status could not be changed.
    pub fn set_nonblocking(changed: Result<(), IoError>) -> (result: Result<(), Error>)
        ensures
            result == match changed {
                Ok(_) => Ok::<(), Error>(()),
                Err(error) => Err(Error::SocketError(error)),
            },
    {
        match changed {
            Ok(_) => Ok(()),
            Err(error) => Err(Error::SocketError(error)),
        }
    }

    /// Decides on the outcome of an attempt to accept a connection.
    ///
    /// That none is there, or that the peer has already gone, is `None`; an interruption is tried
    /// again; anything else is a SocketError.
    pub fn accept<S>(outcome: AcceptOutcome<S>) -> (step: AcceptStep<S>)
        ensures
            step == match outcome {
                AcceptOutcome::Accepted(socket) => AcceptStep::Done(Ok(Some(socket))),
                AcceptOutcome::Failed(ErrorKind::WouldBlock, _) => AcceptStep::Done(Ok(None)),
                AcceptOutcome::Failed(ErrorKind::ConnectionAborted, _) => AcceptStep::Done(
                    Ok(None),
                ),
                AcceptOutcome::Failed(ErrorKind::Interrupted, _) => AcceptStep::Retry,
                AcceptOutcome::Failed(_, error) => AcceptStep::Done(
                    Err(Error::SocketError(error)),
                ),
            },
    {
        match outcome {
            AcceptOutcome::Accepted(socket) => AcceptStep::Done(Ok(Some(socket))),
            AcceptOutcome::Failed(kind, error) => match kind {
                ErrorKind::WouldBlock => AcceptStep::Done(Ok(None)),
                ErrorKind::ConnectionAborted => AcceptStep::Done(Ok(None)),
                ErrorKind::Interrupted => AcceptStep::Retry,
                _ => AcceptStep::Done(Err(Error::SocketError(error))),
            },
        }
    }
}

/// The bytes that vectors hold together add up: those of two lists one after the other are those of
/// the first and those of the second, and a single vector holds its own.
pub proof fn law_lengths_add_up(first: Seq<usize>, second: Seq<usize>, len: usize)
    ensures
        total_len(first + second) == total_len(first) + total_len(second),
        total_len(seq![len]) == len,
    decreases second.len(),
{
    reveal_with_fuel(total_len, 2);
    assert(seq![len].drop_last() =~= Seq::<usize>::empty());
    if second.len() == 0 {
        assert(first + second =~= first);
    } else {
        law_lengths_add_up(first, second.drop_last(), len);
        assert((first + second).drop_last() =~= first + second.drop_last());
    }
}

/// What an attempt to accept a connection amounts to: it is made again exactly where a signal came
/// in between; there is nobody exactly where it would have to wait or the peer has already gone;
/// and anything else that failed is an error of the socket.
pub proof fn law_accepts_are_judged<P, S>(outcome: AcceptOutcome<S>, step: AcceptStep<S>)
    requires
        call_ensures(Listener::<P>::accept::<S>, (outcome,), step),
    ensures
        step is Retry <==> (outcome matches AcceptOutcome::Failed(kind, _) && kind
            == ErrorKind::Interrupted),
        step == AcceptStep::<S>::Done(Ok(None)) <==> (outcome matches AcceptOutcome::Failed(kind, _)
            && (kind == ErrorKind::WouldBlock || kind == ErrorKind::ConnectionAborted)),
        match step {
            AcceptStep::Done(Ok(Some(socket))) => outcome == AcceptOutcome::Accepted(socket),
            AcceptStep::Done(Ok(None)) => outcome is Failed,
            AcceptStep::Done(Err(failure)) => outcome matches AcceptOutcome::Failed(_, error)
                && failure == Error::SocketError(error),
            AcceptStep::Retry => outcome is Failed,
        },
{
}

/// A listener removes the path that it made, and no other: one around a socket that someone else
/// made removes none.
pub proof fn law_listeners_remove_their_own_path<P>(
    path: P,
    bound: Result<(), IoError>,
    listener: Result<Listener<P>, Error>,
    other: Listener<P>,
    removed: &Option<P>,
    kept: &Option<P>,
)
    requires
        call_ensures(Listener::<P>::new, (path, bound), listener),
        call_ensures(Listener::<P>::from_socket, (), other),
        listener matches Ok(own) ==> call_ensures(Listener::<P>::path_to_remove, (&own,), removed),
        call_ensures(Listener::<P>::path_to_remove, (&other,), kept),
    ensures
        listener is Ok <==> bound is Ok,
        listener is Ok ==> *removed == Some(path),
        match (bound, listener) {
            (Err(error), Err(failure)) => failure == Error::SocketError(error),
            _ => true,
        },
        *kept is None,
{
}

/// A connection that could not be made is reported as such, and a status that could not be changed
/// as an error of the socket.
pub proof fn law_failed_connections_are_reported<H: MsgHeader, P, S>(
    connected: Result<S, IoError>,
    socket: Result<S, Error>,
    changed: Result<(), IoError>,
    result: Result<(), Error>,
)
    requires
        call_ensures(Endpoint::<H>::connect::<S>, (connected,), socket),
        call_ensures(Listener::<P>::set_nonblocking, (changed,), result),
    ensures
        connected matches Ok(made) ==> socket == Ok::<S, Error>(made),
        connected matches Err(error) ==> socket == Err::<S, Error>(Error::SocketConnect(error)),
        changed is Ok ==> result is Ok,
        changed matches Err(error) ==> result == Err::<(), Error>(Error::SocketError(error)),
{
}

/// A message is sent exactly where it keeps to the limits of the protocol: its body and payload
/// together are no larger than a message may be, and with a payload it carries no more than 32
/// objects. What is sent is the header, then the body, then the payload, from the first byte on,
/// with the objects attached.
pub proof fn law_messages_within_the_limits_are_sent<H: MsgHeader>(
    hdr: &H,
    body: &[u8],
    payload: &[u8],
    fds: Option<&[RawDescriptor]>,
    short: Result<Sending, Error>,
    long: Result<Sending, Error>,
)
    requires
        call_ensures(Endpoint::<H>::send_message, (hdr, body, fds), short),
        call_ensures(
            Endpoint::<H>::send_message_with_payload,
            (hdr, body, payload, fds),
            long,
        ),
    ensures
        short is Ok <==> body@.len() <= H::max_msg_size(),
        short matches Ok(sending) ==> {
            &&& sending.data() == hdr.wire() + body@
            &&& sending.sent() == 0
            &&& fds matches Some(fds) ==> sending.attached() == Some(fds@)
            &&& fds is None ==> sending.attached() is None
        },
        short matches Err(error) ==> error == Error::OversizedMsg,
        ({
            let fits = body@.len() + payload@.len() <= H::max_msg_size();
            let carried = fds matches Some(fds) ==> fds@.len() <= 32;
            &&& long is Ok <==> fits && carried
            &&& long matches Ok(sending) ==> {
                &&& sending.data() == hdr.wire() + body@ + payload@
                &&& sending.sent() == 0
                &&& fds matches Some(fds) ==> sending.attached() == Some(fds@)
                &&& fds is None ==> sending.attached() is None
            }
            &&& long matches Err(error) ==> {
                &&& !fits ==> error == Error::OversizedMsg
                &&& fits ==> error == Error::IncorrectFds
            }
        }),
{
}

} // verus!
