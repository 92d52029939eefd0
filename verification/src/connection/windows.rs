//! Windows half of the endpoint: objects travel as handle records at the end of the payload.
//!
//! The byte stream is that of POSIX, with no extra framing: the size in the header covers the
//! records, so a message and its handles arrive together. What differs is when the objects are
//! there. They sit at the end of the payload, so the whole message has to be read before its
//! header can be handed out. A received payload is buffered in the endpoint for the calls that
//! ask for it.
//!
//! The two ends differ. A frontend holds a handle to the backend process, through which it
//! duplicates what it sends and pulls what it receives. A backend holds nothing extra and never
//! sends objects.
//!
//! Callers see the message that a POSIX peer would have sent: the trailer is stripped from the
//! payload and from the size in the header, and the objects are delivered beside it.

use std::marker::PhantomData;

use vstd::prelude::*;
use vstd::slice::{slice_subrange, slice_to_vec};

use crate::connection;
use crate::connection::buffer;
use crate::connection::buffer::{fill, pad};
use crate::connection::RawDescriptor;
use crate::error::{Error, ErrorKind, IoError};
use crate::message;
use crate::message::{
    FrontendReq, MsgBody, MsgHeader, VhostUserMsgHeader, FLAG_REPLY, MAX_MSG_SIZE,
};
use crate::win32;
use crate::win32::{
    close_in_peer, duplicate_into_peer, take_handles, DuplicateStep, DuplicatingHandles, TakeStep,
    TakingHandles,
};

verus! {

/// What is said of objects that are attached without a handle to the backend process.
pub const NO_PEER: &'static str =
    "sending objects needs the backend process handle, which only the frontend holds";

/// The message `data` with a trailer that names `values`: the header announces the records too.
pub open spec fn with_trailer<H: MsgHeader>(data: Seq<u8>, values: Seq<u64>) -> Seq<u8> {
    let hdr = H::of_wire(data.take(H::wire_size() as int));
    hdr.with_payload_size((hdr.payload_size() + 8 * values.len()) as u32).wire() + data.skip(
        H::wire_size() as int,
    ) + win32::records(values)
}

/// The header at the front of `data` has room for `count` records in its size.
pub open spec fn room_for_records<H: MsgHeader>(data: Seq<u8>, count: nat) -> bool {
    H::of_wire(data.take(H::wire_size() as int)).payload_size() + 8 * count <= u32::MAX
}

/// A send that failed: the handles to close in the peer process, and the error.
pub struct SendFailure {
    pub close: Vec<usize>,
    pub error: Error,
}

/// A message on its way out.
///
/// The caller duplicates the handles that `next` says into the peer process and reports each
/// outcome to `on_duplicated`; then it writes what `message` gives and reports that to
/// `on_written`.
pub struct Outgoing<H: MsgHeader> {
    data: Vec<u8>,
    duplicating: DuplicatingHandles,
    header: PhantomData<H>,
}

impl<H: MsgHeader> Outgoing<H> {
    /// The bytes of the message, without a trailer.
    pub closed spec fn data(self) -> Seq<u8> {
        self.data@
    }

    /// The handles to pass.
    pub closed spec fn handles(self) -> Seq<RawDescriptor> {
        self.duplicating.handles()
    }

    /// The values of the duplicates made so far, in the peer process.
    pub closed spec fn made(self) -> Seq<u64> {
        self.duplicating.made()
    }

    #[verifier::type_invariant]
    spec fn inv(self) -> bool {
        self.handles().len() > 0 ==> {
            &&& self.data@.len() >= H::wire_size()
            &&& room_for_records::<H>(self.data@, self.handles().len())
        }
    }

    /// The handle to duplicate next, or `None` when all are.
    pub fn next(&self) -> (next: Option<RawDescriptor>)
        ensures
            self.made().len() <= self.handles().len(),
            next == if self.made().len() == self.handles().len() {
                None
            } else {
                Some(self.handles()[self.made().len() as int])
            },
    {
        self.duplicating.next()
    }

    /// Takes note of the outcome of duplicating what `next` said.
    ///
    /// * Win32HandleTransfer: the handle could not be duplicated into the peer.
    pub fn on_duplicated(&mut self, outcome: Result<usize, IoError>) -> (result: Result<
        (),
        SendFailure,
    >)
        requires
            old(self).made().len() < old(self).handles().len(),
        ensures
            final(self).data() == old(self).data(),
            final(self).handles() == old(self).handles(),
            match outcome {
                Ok(value) => {
                    &&& result == Ok::<(), SendFailure>(())
                    &&& final(self).made() == old(self).made().push(value as u64)
                },
                Err(error) => {
                    &&& result matches Err(failure)
                    &&& failure.close@ == win32::as_handles(old(self).made())
                    &&& failure.error == Error::Win32HandleTransfer(error)
                    &&& final(self).made() == old(self).made()
                },
            },
    {
        proof {
            use_type_invariant(&*self);
        }
        let mut duplicating = duplicate_into_peer(&[]);
        std::mem::swap(&mut duplicating, &mut self.duplicating);
        let step = duplicating.on_duplicated(outcome);
        self.duplicating = duplicating;
        match step {
            DuplicateStep::Continue => Ok(()),
            DuplicateStep::Failed(close, error) => Err(SendFailure { close, error }),
        }
    }

    /// What to write, once all handles are duplicated.
    pub fn message(&self) -> (message: Vec<u8>)
        requires
            self.made().len() == self.handles().len(),
        ensures
            message@ == if self.handles().len() == 0 {
                self.data()
            } else {
                with_trailer::<H>(self.data(), self.made())
            },
    {
        proof {
            use_type_invariant(self);
        }
        if self.duplicating.count() == 0 {
            return slice_to_vec(self.data.as_slice());
        }
        let mut trailer = self.duplicating.trailer();
        let start: usize = H::header_size();
        let end: usize = self.data.len();
        proof {
            win32::law_records_read_back(self.made());
            assert(self.data@.take(start as int) =~= self.data@.subrange(0, start as int));
            assert(self.data@.skip(start as int) =~= self.data@.subrange(start as int, end as int));
        }
        let mut hdr = H::from_slice(slice_subrange(self.data.as_slice(), 0, start));
        hdr.set_size(hdr.get_size() + trailer.len() as u32);
        let mut message = hdr.as_slice();
        let mut rest = slice_to_vec(slice_subrange(self.data.as_slice(), start, end));
        message.append(&mut rest);
        message.append(&mut trailer);
        message
    }

    /// Judges the outcome of writing the message: the number of bytes sent, the trailer not
    /// counted.
    ///
    /// Where the write failed, the peer was never told of the handles, so that they are to be
    /// closed there again.
    ///
    /// * SocketBroken: the socket is broken.
    /// * SocketError: the write failed in another way.
    pub fn on_written(self, outcome: Result<(), (ErrorKind, IoError)>) -> (result: Result<
        usize,
        SendFailure,
    >)
        ensures
            match outcome {
                Ok(_) => result matches Ok(sent) && sent == self.data().len(),
                Err((kind, error)) => {
                    &&& result matches Err(failure)
                    &&& failure.close@ == win32::as_handles(self.made())
                    &&& failure.error == if kind == ErrorKind::BrokenPipe {
                        Error::SocketBroken(error)
                    } else {
                        Error::SocketError(error)
                    }
                },
            },
    {
        match outcome {
            Ok(_) => Ok(self.data.len()),
            Err((kind, error)) => {
                let trailer = self.duplicating.trailer();
                proof {
                    win32::law_records_read_back(self.made());
                }
                let error = if kind == ErrorKind::BrokenPipe {
                    Error::SocketBroken(error)
                } else {
                    Error::SocketError(error)
                };
                Err(SendFailure { close: close_in_peer(trailer.as_slice()), error })
            },
        }
    }
}

/// How far a message has been received.
pub enum IncomingView<H, F> {
    /// These bytes of the header are there.
    Header(Seq<u8>),
    /// The header is there, and these bytes of the payload.
    Payload(H, Seq<u8>),
    /// All bytes are there: the header, the payload without the trailer, the handle values that
    /// the trailer names, and the objects taken so far.
    Handles(H, Seq<u8>, Seq<u64>, Seq<F>),
    /// The message cannot be received.
    Failed(Error),
}

/// What a message is once its header has been read as far as it comes.
pub open spec fn header_read<H: MsgHeader, F>(data: Seq<u8>) -> IncomingView<H, F> {
    let hdr = H::of_wire(data);
    if data.len() == 0 {
        IncomingView::Failed(Error::Disconnected)
    } else if data.len() != H::wire_size() {
        IncomingView::Failed(Error::PartialMessage)
    } else if !hdr.valid() {
        IncomingView::Failed(Error::InvalidMessage)
    } else if hdr.payload_size() > H::max_msg_size() {
        IncomingView::Failed(Error::OversizedMsg)
    } else if hdr.payload_size() == 0 {
        payload_read(hdr, Seq::empty())
    } else {
        IncomingView::Payload(hdr, Seq::empty())
    }
}

/// What a message is once its payload has been read as far as it comes.
pub open spec fn payload_read<H: MsgHeader, F>(hdr: H, payload: Seq<u8>) -> IncomingView<H, F> {
    if payload.len() != hdr.payload_size() {
        IncomingView::Failed(Error::PartialMessage)
    } else {
        match hdr.handle_records(payload) {
            Some(count) if 8 * count <= payload.len() => {
                let base_len = payload.len() - 8 * count;
                IncomingView::Handles(
                    hdr,
                    payload.take(base_len),
                    win32::record_values(payload.skip(base_len)),
                    Seq::empty(),
                )
            },
            _ => IncomingView::Failed(Error::InvalidMessage),
        }
    }
}

impl<H: MsgHeader, F> IncomingView<H, F> {
    /// The number of bytes that the reading under way still wants.
    pub open spec fn wanted(self) -> int {
        match self {
            IncomingView::Header(data) => H::wire_size() - data.len(),
            IncomingView::Payload(hdr, data) => hdr.payload_size() - data.len(),
            _ => 0,
        }
    }

    /// Where the outcome of a read leaves the message.
    ///
    /// The reading under way goes on until it has all it wants or the peer stops sending.
    pub open spec fn after_read(self, outcome: ReadOutcome) -> Self {
        match outcome {
            ReadOutcome::Read(bytes) => {
                let over = bytes@.len() == 0 || bytes@.len() == self.wanted();
                match self {
                    IncomingView::Header(data) => if over {
                        header_read(data + bytes@)
                    } else {
                        IncomingView::Header(data + bytes@)
                    },
                    IncomingView::Payload(hdr, data) => if over {
                        payload_read(hdr, data + bytes@)
                    } else {
                        IncomingView::Payload(hdr, data + bytes@)
                    },
                    _ => self,
                }
            },
            ReadOutcome::Failed(ErrorKind::Interrupted, _) => self,
            ReadOutcome::Failed(_, error) => IncomingView::Failed(Error::SocketError(error)),
        }
    }

    /// Where the outcome of taking an object leaves the message.
    pub open spec fn after_taking(self, outcome: Result<F, IoError>) -> Self {
        match (self, outcome) {
            (IncomingView::Handles(hdr, base, named, taken), Ok(file)) => IncomingView::Handles(
                hdr,
                base,
                named,
                taken.push(file),
            ),
            (_, Err(error)) => IncomingView::Failed(Error::Win32InvalidHandle(error)),
            _ => self,
        }
    }
}

/// The outcome of a read from the socket.
pub enum ReadOutcome {
    /// These bytes came; none where the peer has stopped sending.
    Read(Vec<u8>),
    /// The read failed.
    Failed(ErrorKind, IoError),
}

/// What the receiver of a message wants next.
pub enum Want {
    /// Read at most this many bytes, and report the outcome to `on_read`.
    Read(usize),
    /// Take an object, and report the outcome to `on_taken`.
    Take(TakeStep),
    /// The receiving is over, for better or worse.
    Over,
}

enum Phase<H: MsgHeader, F> {
    Header(Vec<u8>),
    Payload(H, Vec<u8>),
    Handles(H, TakingHandles<F>),
    Failed(Error),
}

/// A message on its way in.
///
/// The caller does what `next` says and reports each outcome, until nothing more is wanted.
pub struct Incoming<H: MsgHeader, F> {
    peer: bool,
    phase: Phase<H, F>,
}

fn judge_header<H: MsgHeader, F>(peer: bool, data: Vec<u8>) -> (incoming: Incoming<H, F>)
    requires
        data@.len() <= H::wire_size(),
    ensures
        incoming.from_peer() == peer,
        incoming@ == header_read::<H, F>(data@),
{
    if data.len() == 0 {
        return Incoming { peer, phase: Phase::Failed(Error::Disconnected) };
    }
    if data.len() != H::header_size() {
        return Incoming { peer, phase: Phase::Failed(Error::PartialMessage) };
    }
    let hdr = H::from_slice(data.as_slice());
    if !hdr.is_valid() {
        return Incoming { peer, phase: Phase::Failed(Error::InvalidMessage) };
    }
    let size: usize = hdr.get_size() as usize;
    if size > H::max_size() {
        return Incoming { peer, phase: Phase::Failed(Error::OversizedMsg) };
    }
    proof {
        H::lemma_sizes();
    }
    if size == 0 {
        return judge_payload(peer, hdr, Vec::new());
    }
    Incoming { peer, phase: Phase::Payload(hdr, Vec::new()) }
}

fn judge_payload<H: MsgHeader, F>(peer: bool, hdr: H, payload: Vec<u8>) -> (incoming: Incoming<
    H,
    F,
>)
    ensures
        incoming.from_peer() == peer,
        incoming@ == payload_read::<H, F>(hdr, payload@),
{
    if payload.len() != hdr.get_size() as usize {
        return Incoming { peer, phase: Phase::Failed(Error::PartialMessage) };
    }
    let count: usize = match hdr.win32_handle_trailer(payload.as_slice()) {
        Ok(count) => count,
        Err(error) => {
            return Incoming { peer, phase: Phase::Failed(error) };
        },
    };
    match take_handles(peer, payload.as_slice(), count) {
        Ok(taking) => Incoming { peer, phase: Phase::Handles(hdr, taking) },
        Err(error) => Incoming { peer, phase: Phase::Failed(error) },
    }
}

impl<H: MsgHeader, F> View for Incoming<H, F> {
    type V = IncomingView<H, F>;

    closed spec fn view(&self) -> IncomingView<H, F> {
        match self.phase {
            Phase::Header(data) => IncomingView::Header(data@),
            Phase::Payload(hdr, data) => IncomingView::Payload(hdr, data@),
            Phase::Handles(hdr, taking) => IncomingView::Handles(
                hdr,
                taking.payload(),
                taking.named(),
                taking.taken(),
            ),
            Phase::Failed(error) => IncomingView::Failed(error),
        }
    }
}

impl<H: MsgHeader, F> Incoming<H, F> {
    /// The objects come out of the peer process.
    pub closed spec fn from_peer(self) -> bool {
        self.peer
    }

    #[verifier::type_invariant]
    spec fn inv(self) -> bool {
        match self.phase {
            Phase::Header(data) => data@.len() < H::wire_size(),
            Phase::Payload(hdr, data) => data@.len() < hdr.payload_size() <= H::max_msg_size(),
            Phase::Handles(_, taking) => taking.from_peer() == self.peer,
            Phase::Failed(_) => true,
        }
    }

    /// What comes next, given the state of the message.
    pub open spec fn wants(from_peer: bool, state: IncomingView<H, F>) -> Want {
        match state {
            IncomingView::Header(_) => Want::Read(state.wanted() as usize),
            IncomingView::Payload(_, _) => Want::Read(state.wanted() as usize),
            IncomingView::Handles(_, _, named, taken) => if taken.len() == named.len() {
                Want::Over
            } else {
                Want::Take(TakingHandles::<F>::step(from_peer, named, taken.len() as int))
            },
            IncomingView::Failed(_) => Want::Over,
        }
    }

    /// What to do next.
    pub fn next(&self) -> (want: Want)
        ensures
            want == Self::wants(self.from_peer(), self@),
            self@ is Header || self@ is Payload ==> 0 < self@.wanted() <= usize::MAX,
            self@ matches IncomingView::Handles(_, _, named, taken) ==> taken.len() <= named.len(),
    {
        proof {
            use_type_invariant(self);
            H::lemma_sizes();
        }
        match &self.phase {
            Phase::Header(data) => Want::Read(H::header_size() - data.len()),
            Phase::Payload(hdr, data) => Want::Read(hdr.get_size() as usize - data.len()),
            Phase::Handles(_, taking) => match taking.next() {
                TakeStep::Done => Want::Over,
                step => Want::Take(step),
            },
            Phase::Failed(_) => Want::Over,
        }
    }

    /// Takes note of the outcome of a read.
    pub fn on_read(&mut self, outcome: ReadOutcome)
        requires
            old(self)@ is Header || old(self)@ is Payload,
            outcome matches ReadOutcome::Read(bytes) ==> bytes@.len() <= old(self)@.wanted(),
        ensures
            final(self).from_peer() == old(self).from_peer(),
            final(self)@ == old(self)@.after_read(outcome),
    {
        let mut now = Incoming { peer: self.peer, phase: Phase::Failed(Error::InvalidMessage) };
        std::mem::swap(&mut now, self);
        proof {
            use_type_invariant(&now);
            H::lemma_sizes();
        }
        let Incoming { peer, phase } = now;
        *self = match outcome {
            ReadOutcome::Read(bytes) => {
                let mut bytes = bytes;
                let read: usize = bytes.len();
                match phase {
                    Phase::Header(mut data) => {
                        let over = read == 0 || read == H::header_size() - data.len();
                        data.append(&mut bytes);
                        if over {
                            judge_header(peer, data)
                        } else {
                            Incoming { peer, phase: Phase::Header(data) }
                        }
                    },
                    Phase::Payload(hdr, mut data) => {
                        let over = read == 0 || read == hdr.get_size() as usize - data.len();
                        data.append(&mut bytes);
                        if over {
                            judge_payload(peer, hdr, data)
                        } else {
                            Incoming { peer, phase: Phase::Payload(hdr, data) }
                        }
                    },
                    phase => Incoming { peer, phase },
                }
            },
            ReadOutcome::Failed(ErrorKind::Interrupted, _) => Incoming { peer, phase },
            ReadOutcome::Failed(_, error) => Incoming {
                peer,
                phase: Phase::Failed(Error::SocketError(error)),
            },
        };
    }

    /// Takes note of the outcome of taking an object. Where there is none to take, that is an
    /// error.
    pub fn on_taken(&mut self, outcome: Result<F, IoError>)
        requires
            old(self)@ matches IncomingView::Handles(_, _, named, taken) && taken.len()
                < named.len(),
            Self::wants(old(self).from_peer(), old(self)@) == Want::Take(TakeStep::Refuse)
                ==> outcome is Err,
        ensures
            final(self).from_peer() == old(self).from_peer(),
            final(self)@ == old(self)@.after_taking(outcome),
    {
        let mut now = Incoming { peer: self.peer, phase: Phase::Failed(Error::InvalidMessage) };
        std::mem::swap(&mut now, self);
        proof {
            use_type_invariant(&now);
        }
        let Incoming { peer, phase } = now;
        *self = match phase {
            Phase::Handles(hdr, mut taking) => match taking.on_taken(outcome) {
                Ok(_) => Incoming { peer, phase: Phase::Handles(hdr, taking) },
                Err(error) => Incoming { peer, phase: Phase::Failed(error) },
            },
            phase => Incoming { peer, phase },
        };
    }
}

/// The objects of a message as its receiver hands them out: `None` where there are none.
pub open spec fn hands_out<F>(files: Option<Vec<F>>, taken: Seq<F>) -> bool {
    match files {
        Some(files) => files@ == taken && taken.len() > 0,
        None => taken.len() == 0,
    }
}

impl<H: MsgHeader, F> IncomingView<H, F> {
    /// Nothing more is wanted: the message is there with its objects, or it cannot be received.
    pub open spec fn over(self) -> bool {
        match self {
            IncomingView::Handles(_, _, named, taken) => taken.len() == named.len(),
            IncomingView::Failed(_) => true,
            _ => false,
        }
    }
}

/// What of a buffered payload a read of `len` bytes gives: its front, as far as it goes.
pub open spec fn handed_out(pending: Seq<u8>, len: nat) -> Seq<u8> {
    pending.take(if len < pending.len() { len as int } else { pending.len() as int })
}

/// What of a buffered payload a read of `len` bytes leaves.
pub open spec fn left_over(pending: Seq<u8>, len: nat) -> Seq<u8> {
    pending.skip(if len < pending.len() { len as int } else { pending.len() as int })
}

/// One end of a connection whose messages have the header `H`, with a handle `P` to the backend
/// process where it is the frontend's end.
pub struct Endpoint<H: MsgHeader, P> {
    peer_process: Option<P>,
    pending: Vec<u8>,
    header: PhantomData<H>,
}

impl<H: MsgHeader, P> Endpoint<H, P> {
    /// The handle to the backend process.
    pub closed spec fn peer(self) -> Option<P> {
        self.peer_process
    }

    /// What of the payload of the current message has not been asked for yet.
    pub closed spec fn pending(self) -> Seq<u8> {
        self.pending@
    }

    /// The end of a connection that has just been made.
    pub fn from_stream() -> (endpoint: Self)
        ensures
            endpoint.peer() is None,
            endpoint.pending() == Seq::<u8>::empty(),
    {
        Endpoint { peer_process: None, pending: Vec::new(), header: PhantomData }
    }

    /// Makes this the frontend end of the connection: a handle to the backend process, that
    /// objects are duplicated into on send and pulled out of on receive.
    pub fn set_peer_process(&mut self, process: P)
        ensures
            final(self).peer() == Some(process),
            final(self).pending() == old(self).pending(),
    {
        self.peer_process = Some(process);
    }

    /// The handle to the backend process.
    pub fn peer_process(&self) -> (process: &Option<P>)
        ensures
            *process == self.peer(),
    {
        &self.peer_process
    }

    /// Starts to send the bytes of scatter-gather vectors, handing over the objects in `fds`
    /// through the message itself.
    ///
    /// * InvalidOperation: objects are attached without a handle to the backend process.
    /// * InvalidParam: objects are attached to less than a header.
    pub fn send_iovec(&self, iovs: &[&[u8]], fds: Option<&[RawDescriptor]>) -> (outgoing: Result<
        Outgoing<H>,
        Error,
    >)
        requires
            self.peer() is Some && iovs.deep_view().flatten().len() >= H::wire_size() ==> (
            fds matches Some(fds) ==> fds@.len() > 0 ==> room_for_records::<H>(
                iovs.deep_view().flatten(),
                fds@.len(),
            )),
        ensures
            ({
                let data = iovs.deep_view().flatten();
                let handles = match fds {
                    Some(fds) => fds@,
                    None => Seq::empty(),
                };
                if handles.len() > 0 && self.peer() is None {
                    outgoing == Err::<Outgoing<H>, Error>(Error::InvalidOperation(NO_PEER))
                } else if handles.len() > 0 && data.len() < H::wire_size() {
                    outgoing == Err::<Outgoing<H>, Error>(Error::InvalidParam)
                } else {
                    &&& outgoing matches Ok(outgoing)
                    &&& outgoing.data() == data
                    &&& outgoing.handles() == handles
                    &&& outgoing.made() == Seq::<u64>::empty()
                }
            }),
    {
        let data = connection::concat(iovs);
        let fds: &[RawDescriptor] = match fds {
            Some(fds) => fds,
            None => &[],
        };
        if fds.len() > 0 {
            if self.peer_process.is_none() {
                return Err(Error::InvalidOperation(NO_PEER));
            }
            if data.len() < H::header_size() {
                return Err(Error::InvalidParam);
            }
        }
        Ok(Outgoing { data, duplicating: duplicate_into_peer(fds), header: PhantomData })
    }

    /// Starts to receive a message. What was left of the payload of the one before is dropped.
    pub fn start_recv<F>(&mut self) -> (incoming: Incoming<H, F>)
        ensures
            final(self).peer() == old(self).peer(),
            final(self).pending() == Seq::<u8>::empty(),
            incoming.from_peer() == (old(self).peer() is Some),
            incoming@ == IncomingView::<H, F>::Header(Seq::empty()),
    {
        proof {
            H::lemma_sizes();
        }
        self.pending = Vec::new();
        Incoming { peer: self.peer_process.is_some(), phase: Phase::Header(Vec::new()) }
    }

    /// The header of a received message, with the objects that the message passes. The payload is
    /// kept for the calls that follow.
    ///
    /// The header is the one that a POSIX peer would have sent: its size does not count the
    /// trailer.
    pub fn recv_header<F>(&mut self, incoming: Incoming<H, F>) -> (header: Result<
        (H, Option<Vec<F>>),
        Error,
    >)
        requires
            incoming@.over(),
        ensures
            final(self).peer() == old(self).peer(),
            match incoming@ {
                IncomingView::Handles(hdr, base, _, taken) => {
                    &&& header matches Ok((shown, files))
                    &&& shown == hdr.with_payload_size(base.len() as u32)
                    &&& hands_out(files, taken)
                    &&& final(self).pending() == base
                },
                IncomingView::Failed(error) => {
                    &&& header == Err::<(H, Option<Vec<F>>), Error>(error)
                    &&& final(self).pending() == old(self).pending()
                },
                _ => false,
            },
    {
        match incoming.phase {
            Phase::Handles(hdr, taking) => {
                let mut hdr = hdr;
                let (base, files) = taking.finish();
                hdr.set_size(base.len() as u32);
                self.pending = base;
                Ok(
                    (
                        hdr,
                        if files.len() == 0 {
                            None
                        } else {
                            Some(files)
                        },
                    ),
                )
            },
            Phase::Failed(error) => Err(error),
            _ => Err(Error::InvalidMessage),
        }
    }

    /// Reads up to `len` bytes of the current message's payload.
    ///
    /// The buffer is always `len` bytes long, zero padded past the bytes that were there.
    pub fn recv_data(&mut self, len: usize) -> (data: Result<(usize, Vec<u8>), Error>)
        ensures
            final(self).peer() == old(self).peer(),
            ({
                let bytes = handed_out(old(self).pending(), len as nat);
                &&& data matches Ok((n, buf))
                &&& n == bytes.len()
                &&& buf@ == buffer::zero_padded(bytes, len as nat)
            }),
            final(self).pending() == left_over(old(self).pending(), len as nat),
    {
        let there: usize = self.pending.len();
        let bytes: usize = if len < there {
            len
        } else {
            there
        };
        let front = slice_to_vec(slice_subrange(self.pending.as_slice(), 0, bytes));
        let rest = slice_to_vec(slice_subrange(self.pending.as_slice(), bytes, there));
        assert(front@ =~= self.pending@.take(bytes as int));
        assert(rest@ =~= self.pending@.skip(bytes as int));
        self.pending = rest;
        Ok((bytes, pad(front, len)))
    }

    /// Takes a body of fixed size off the front of the buffered payload.
    ///
    /// * PartialMessage: there is less than a body. What there was is gone.
    /// * InvalidMessage: the body is not one that the protocol allows.
    pub fn take_body<T: MsgBody>(&mut self) -> (body: Result<T, Error>)
        ensures
            final(self).peer() == old(self).peer(),
            ({
                let size = T::body_size() as int;
                let spelt = T::of_body(old(self).pending().take(size));
                if old(self).pending().len() < size {
                    &&& body == Err::<T, Error>(Error::PartialMessage)
                    &&& final(self).pending() == Seq::<u8>::empty()
                } else {
                    &&& body == if spelt.valid_body() {
                        Ok::<T, Error>(spelt)
                    } else {
                        Err(Error::InvalidMessage)
                    }
                    &&& final(self).pending() == old(self).pending().skip(size)
                }
            }),
    {
        let ghost before = self.pending@;
        let size: usize = T::size();
        match self.recv_data(size) {
            Ok((bytes, buf)) => {
                if bytes != size {
                    assert(self.pending@ =~= Seq::<u8>::empty());
                    return Err(Error::PartialMessage);
                }
                assert(buf@ =~= before.take(size as int));
                let body = T::from_bytes(buf.as_slice());
                if !body.is_valid_body() {
                    return Err(Error::InvalidMessage);
                }
                Ok(body)
            },
            Err(error) => Err(error),
        }
    }

    /// Takes the rest of the buffered payload, which must fit in `buf`.
    ///
    /// * OversizedMsg: it does not fit. It stays where it is.
    pub fn take_payload(&mut self, buf: &mut [u8]) -> (len: Result<usize, Error>)
        ensures
            final(self).peer() == old(self).peer(),
            if old(self).pending().len() > old(buf)@.len() {
                &&& len == Err::<usize, Error>(Error::OversizedMsg)
                &&& final(self).pending() == old(self).pending()
                &&& final(buf)@ == old(buf)@
            } else {
                &&& len matches Ok(n) && n == old(self).pending().len()
                &&& final(self).pending() == Seq::<u8>::empty()
                &&& final(buf)@ == buffer::filled(old(buf)@, old(self).pending())
            },
    {
        let len: usize = self.pending.len();
        if len > buf.len() {
            return Err(Error::OversizedMsg);
        }
        fill(buf, self.pending.as_slice());
        self.pending = Vec::new();
        Ok(len)
    }

    /// A received message with a body of fixed size, with the objects that it passes.
    ///
    /// * PartialMessage: there is less than a body.
    /// * InvalidMessage: the body is not one that the protocol allows, or more follows it.
    pub fn recv_body<T: MsgBody, F>(&mut self, incoming: Incoming<H, F>) -> (message: Result<
        (H, T, Option<Vec<F>>),
        Error,
    >)
        requires
            incoming@.over(),
        ensures
            final(self).peer() == old(self).peer(),
            match incoming@ {
                IncomingView::Handles(hdr, base, _, taken) => {
                    let size = T::body_size() as int;
                    let body = T::of_body(base.take(size));
                    if base.len() < size {
                        &&& message == Err::<(H, T, Option<Vec<F>>), Error>(Error::PartialMessage)
                        &&& final(self).pending() == Seq::<u8>::empty()
                    } else if !body.valid_body() || base.len() > size {
                        &&& message == Err::<(H, T, Option<Vec<F>>), Error>(Error::InvalidMessage)
                        &&& final(self).pending() == base.skip(size)
                    } else {
                        &&& message matches Ok((shown, b, files))
                        &&& shown == hdr.with_payload_size(base.len() as u32)
                        &&& b == body
                        &&& hands_out(files, taken)
                        &&& final(self).pending() == Seq::<u8>::empty()
                    }
                },
                IncomingView::Failed(error) => {
                    &&& message == Err::<(H, T, Option<Vec<F>>), Error>(error)
                    &&& final(self).pending() == old(self).pending()
                },
                _ => false,
            },
    {
        let (hdr, files) = match self.recv_header(incoming) {
            Ok(header) => header,
            Err(error) => {
                return Err(error);
            },
        };
        let body = match self.take_body::<T>() {
            Ok(body) => body,
            Err(error) => {
                return Err(error);
            },
        };
        if self.pending.len() != 0 {
            return Err(Error::InvalidMessage);
        }
        Ok((hdr, body, files))
    }

    /// A received message with an optional payload, with the objects that it passes.
    ///
    /// * OversizedMsg: the payload does not fit in `buf`.
    pub fn recv_body_into_buf<F>(&mut self, incoming: Incoming<H, F>, buf: &mut [u8]) -> (message:
        Result<(H, usize, Option<Vec<F>>), Error>)
        requires
            incoming@.over(),
        ensures
            final(self).peer() == old(self).peer(),
            match incoming@ {
                IncomingView::Handles(hdr, base, _, taken) => if base.len() > old(buf)@.len() {
                    &&& message == Err::<(H, usize, Option<Vec<F>>), Error>(Error::OversizedMsg)
                    &&& final(self).pending() == base
                    &&& final(buf)@ == old(buf)@
                } else {
                    &&& message matches Ok((shown, n, files))
                    &&& shown == hdr.with_payload_size(base.len() as u32)
                    &&& n == base.len()
                    &&& hands_out(files, taken)
                    &&& final(self).pending() == Seq::<u8>::empty()
                    &&& final(buf)@ == buffer::filled(old(buf)@, base)
                },
                IncomingView::Failed(error) => {
                    &&& message == Err::<(H, usize, Option<Vec<F>>), Error>(error)
                    &&& final(self).pending() == old(self).pending()
                    &&& final(buf)@ == old(buf)@
                },
                _ => false,
            },
    {
        let (hdr, files) = match self.recv_header(incoming) {
            Ok(header) => header,
            Err(error) => {
                return Err(error);
            },
        };
        match self.take_payload(buf) {
            Ok(len) => Ok((hdr, len, files)),
            Err(error) => Err(error),
        }
    }

    /// A received message with a body of fixed size and an optional payload, with the objects
    /// that it passes.
    ///
    /// * PartialMessage: there is less than a body.
    /// * InvalidMessage: the body is not one that the protocol allows.
    /// * OversizedMsg: the payload does not fit in `buf`.
    pub fn recv_payload_into_buf<T: MsgBody, F>(
        &mut self,
        incoming: Incoming<H, F>,
        buf: &mut [u8],
    ) -> (message: Result<(H, T, usize, Option<Vec<F>>), Error>)
        requires
            incoming@.over(),
        ensures
            final(self).peer() == old(self).peer(),
            match incoming@ {
                IncomingView::Handles(hdr, base, _, taken) => {
                    let size = T::body_size() as int;
                    let body = T::of_body(base.take(size));
                    if base.len() < size {
                        &&& message == Err::<(H, T, usize, Option<Vec<F>>), Error>(
                            Error::PartialMessage,
                        )
                        &&& final(self).pending() == Seq::<u8>::empty()
                        &&& final(buf)@ == old(buf)@
                    } else if !body.valid_body() {
                        &&& message == Err::<(H, T, usize, Option<Vec<F>>), Error>(
                            Error::InvalidMessage,
                        )
                        &&& final(self).pending() == base.skip(size)
                        &&& final(buf)@ == old(buf)@
                    } else if base.len() - size > old(buf)@.len() {
                        &&& message == Err::<(H, T, usize, Option<Vec<F>>), Error>(
                            Error::OversizedMsg,
                        )
                        &&& final(self).pending() == base.skip(size)
                        &&& final(buf)@ == old(buf)@
                    } else {
                        &&& message matches Ok((shown, b, n, files))
                        &&& shown == hdr.with_payload_size(base.len() as u32)
                        &&& b == body
                        &&& n == base.len() - size
                        &&& hands_out(files, taken)
                        &&& final(self).pending() == Seq::<u8>::empty()
                        &&& final(buf)@ == buffer::filled(old(buf)@, base.skip(size))
                    }
                },
                IncomingView::Failed(error) => {
                    &&& message == Err::<(H, T, usize, Option<Vec<F>>), Error>(error)
                    &&& final(self).pending() == old(self).pending()
                    &&& final(buf)@ == old(buf)@
                },
                _ => false,
            },
    {
        let (hdr, files) = match self.recv_header(incoming) {
            Ok(header) => header,
            Err(error) => {
                return Err(error);
            },
        };
        let body = match self.take_body::<T>() {
            Ok(body) => body,
            Err(error) => {
                return Err(error);
            },
        };
        match self.take_payload(buf) {
            Ok(len) => Ok((hdr, body, len, files)),
            Err(error) => Err(error),
        }
    }

    /// The whole payload of a received message in a new buffer of `buf_size` bytes, with the
    /// objects that the message passes.
    ///
    /// * OversizedMsg: the payload does not fit in the buffer.
    pub fn recv_into_buf<F>(&mut self, buf_size: usize, incoming: Incoming<H, F>) -> (data: Result<
        (usize, Vec<u8>, Option<Vec<F>>),
        Error,
    >)
        requires
            incoming@.over(),
        ensures
            final(self).peer() == old(self).peer(),
            match incoming@ {
                IncomingView::Handles(_, base, _, taken) => if base.len() > buf_size {
                    &&& data == Err::<(usize, Vec<u8>, Option<Vec<F>>), Error>(Error::OversizedMsg)
                    &&& final(self).pending() == base
                } else {
                    &&& data matches Ok((n, buf, files))
                    &&& n == base.len()
                    &&& buf@ == buffer::zero_padded(base, buf_size as nat)
                    &&& hands_out(files, taken)
                    &&& final(self).pending() == Seq::<u8>::empty()
                },
                IncomingView::Failed(error) => {
                    &&& data == Err::<(usize, Vec<u8>, Option<Vec<F>>), Error>(error)
                    &&& final(self).pending() == old(self).pending()
                },
                _ => false,
            },
    {
        let (_, files) = match self.recv_header(incoming) {
            Ok(header) => header,
            Err(error) => {
                return Err(error);
            },
        };
        let len: usize = self.pending.len();
        if len > buf_size {
            return Err(Error::OversizedMsg);
        }
        let mut payload: Vec<u8> = Vec::new();
        std::mem::swap(&mut payload, &mut self.pending);
        Ok((len, pad(payload, buf_size), files))
    }
}

/// Where a sequence of reads leaves a message.
pub open spec fn after_reads<H: MsgHeader, F>(
    state: IncomingView<H, F>,
    outcomes: Seq<ReadOutcome>,
) -> IncomingView<H, F>
    decreases outcomes.len(),
{
    if outcomes.len() == 0 {
        state
    } else {
        after_reads(state.after_read(outcomes.first()), outcomes.drop_first())
    }
}

/// Where taking `files`, one after the other, leaves a message.
pub open spec fn after_takings<H: MsgHeader, F>(
    state: IncomingView<H, F>,
    files: Seq<F>,
) -> IncomingView<H, F>
    decreases files.len(),
{
    if files.len() == 0 {
        state
    } else {
        after_takings(state, files.drop_last()).after_taking(Ok(files.last()))
    }
}

/// The bytes that a sequence of reads brings.
pub open spec fn bytes_read(outcomes: Seq<ReadOutcome>) -> Seq<u8>
    decreases outcomes.len(),
{
    if outcomes.len() == 0 {
        Seq::empty()
    } else {
        let bytes = match outcomes.first() {
            ReadOutcome::Read(bytes) => bytes@,
            ReadOutcome::Failed(_, _) => Seq::empty(),
        };
        bytes + bytes_read(outcomes.drop_first())
    }
}

/// Every read brings bytes or is interrupted, and the last one brings bytes.
pub open spec fn brings_bytes(outcomes: Seq<ReadOutcome>) -> bool {
    &&& forall|i: int|
        0 <= i < outcomes.len() ==> match #[trigger] outcomes[i] {
            ReadOutcome::Read(bytes) => bytes@.len() > 0,
            ReadOutcome::Failed(kind, _) => kind == ErrorKind::Interrupted,
        }
    &&& outcomes.len() > 0 ==> outcomes.last() is Read
}

/// What a message is once the reading under way has brought `bytes`, all that it wanted.
pub open spec fn reading_done<H: MsgHeader, F>(
    state: IncomingView<H, F>,
    bytes: Seq<u8>,
) -> IncomingView<H, F> {
    match state {
        IncomingView::Header(data) => header_read(data + bytes),
        IncomingView::Payload(hdr, data) => payload_read(hdr, data + bytes),
        _ => state,
    }
}

/// However the socket splits a header or a payload up, and however often a read is interrupted,
/// what is judged in the end are the bytes of the stream.
pub proof fn law_reads_assemble_the_stream<H: MsgHeader, F>(
    state: IncomingView<H, F>,
    outcomes: Seq<ReadOutcome>,
)
    requires
        state is Header || state is Payload,
        brings_bytes(outcomes),
        0 < state.wanted() == bytes_read(outcomes).len(),
    ensures
        after_reads(state, outcomes) == reading_done(state, bytes_read(outcomes)),
    decreases outcomes.len(),
{
    let rest = outcomes.drop_first();
    let now = state.after_read(outcomes.first());
    assert(brings_bytes(rest)) by {
        assert forall|i: int| 0 <= i < rest.len() implies match #[trigger] rest[i] {
            ReadOutcome::Read(bytes) => bytes@.len() > 0,
            ReadOutcome::Failed(kind, _) => kind == ErrorKind::Interrupted,
        } by {
            assert(rest[i] == outcomes[i + 1]);
        }
    }
    let first = outcomes[0];
    match outcomes.first() {
        ReadOutcome::Read(bytes) => {
            assert(bytes@.len() > 0);
            if bytes@.len() == state.wanted() {
                assert(bytes_read(rest).len() == 0);
                if rest.len() > 0 {
                    lemma_reads_bring_something(rest);
                }
                assert(after_reads(now, rest) == now);
                assert(bytes_read(outcomes) =~= bytes@);
            } else {
                law_reads_assemble_the_stream(now, rest);
                match state {
                    IncomingView::Header(data) => {
                        assert((data + bytes@) + bytes_read(rest) =~= data + bytes_read(outcomes));
                    },
                    IncomingView::Payload(_, data) => {
                        assert((data + bytes@) + bytes_read(rest) =~= data + bytes_read(outcomes));
                    },
                    _ => {},
                }
            }
        },
        ReadOutcome::Failed(_, _) => {
            assert(bytes_read(outcomes) =~= bytes_read(rest));
            law_reads_assemble_the_stream(now, rest);
        },
    }
}

proof fn lemma_reads_bring_something(outcomes: Seq<ReadOutcome>)
    requires
        brings_bytes(outcomes),
        outcomes.len() > 0,
    ensures
        bytes_read(outcomes).len() > 0,
    decreases outcomes.len(),
{
    let rest = outcomes.drop_first();
    let first = outcomes[0];
    if first is Failed {
        assert(rest.len() > 0);
        assert forall|i: int| 0 <= i < rest.len() implies match #[trigger] rest[i] {
            ReadOutcome::Read(bytes) => bytes@.len() > 0,
            ReadOutcome::Failed(kind, _) => kind == ErrorKind::Interrupted,
        } by {
            assert(rest[i] == outcomes[i + 1]);
        }
        lemma_reads_bring_something(rest);
    }
}

/// What goes over the wire for the message `data` with the handle values `values`.
pub open spec fn on_the_wire<H: MsgHeader>(data: Seq<u8>, values: Seq<u64>) -> Seq<u8> {
    if values.len() == 0 {
        data
    } else {
        with_trailer::<H>(data, values)
    }
}

/// A message that passes objects comes back as it was sent: however the socket splits it up, the
/// receiver ends with the payload without a trailer, with the handle values in the order in which
/// they were sent, and with the header of the sender.
pub proof fn law_message_and_handles_come_back<H: MsgHeader, F>(
    hdr: H,
    payload: Seq<u8>,
    values: Seq<u64>,
    head: Seq<ReadOutcome>,
    body: Seq<ReadOutcome>,
)
    requires
        hdr.payload_size() == payload.len(),
        payload.len() + 8 * values.len() <= H::max_msg_size(),
        ({
            let grown = hdr.with_payload_size((payload.len() + 8 * values.len()) as u32);
            &&& grown.valid()
            &&& grown.handle_records(payload + win32::records(values)) == Some(
                values.len() as usize,
            )
        }),
        brings_bytes(head),
        brings_bytes(body),
        bytes_read(head) + bytes_read(body) == on_the_wire::<H>(hdr.wire() + payload, values),
        bytes_read(head).len() == H::wire_size(),
    ensures
        ({
            let grown = hdr.with_payload_size((payload.len() + 8 * values.len()) as u32);
            &&& after_reads(
                after_reads(IncomingView::<H, F>::Header(Seq::empty()), head),
                body,
            ) == IncomingView::<H, F>::Handles(grown, payload, values, Seq::empty())
            &&& grown.with_payload_size(payload.len() as u32) == hdr
        }),
{
    let grown = hdr.with_payload_size((payload.len() + 8 * values.len()) as u32);
    let start = H::wire_size() as int;
    let trailer = win32::records(values);
    let wire = on_the_wire::<H>(hdr.wire() + payload, values);
    H::lemma_sizes();
    hdr.lemma_header((payload.len() + 8 * values.len()) as u32);
    grown.lemma_header(0);
    win32::law_records_read_back(values);
    assert((hdr.wire() + payload).take(start) =~= hdr.wire());
    assert((hdr.wire() + payload).skip(start) =~= payload);
    assert(wire =~= grown.wire() + payload + trailer);
    assert(bytes_read(head) =~= wire.take(start));
    assert(bytes_read(head) =~= grown.wire());
    assert(bytes_read(body) =~= wire.skip(start));
    assert(bytes_read(body) =~= payload + trailer);
    let empty = IncomingView::<H, F>::Header(Seq::empty());
    law_reads_assemble_the_stream(empty, head);
    assert(Seq::<u8>::empty() + bytes_read(head) =~= grown.wire());
    assert((payload + trailer).take(payload.len() as int) =~= payload);
    assert((payload + trailer).skip(payload.len() as int) =~= trailer);
    if payload.len() + trailer.len() == 0 {
        if body.len() > 0 {
            lemma_reads_bring_something(body);
        }
        assert(payload + trailer =~= Seq::<u8>::empty());
    } else {
        let there = IncomingView::<H, F>::Payload(grown, Seq::empty());
        law_reads_assemble_the_stream(there, body);
        assert(Seq::<u8>::empty() + bytes_read(body) =~= payload + trailer);
    }
}

/// A message of a frontend comes back as it was sent wherever it passes as many objects as its
/// request and its payload imply, and there is room for their records.
pub proof fn law_frontend_message_comes_back<F>(
    hdr: VhostUserMsgHeader<FrontendReq>,
    payload: Seq<u8>,
    values: Seq<u64>,
    head: Seq<ReadOutcome>,
    body: Seq<ReadOutcome>,
)
    requires
        hdr.valid(),
        hdr.size == payload.len(),
        payload.len() + 8 * values.len() <= MAX_MSG_SIZE,
        hdr.handle_records(payload) == Some(values.len() as usize),
        brings_bytes(head),
        brings_bytes(body),
        bytes_read(head) + bytes_read(body) == on_the_wire::<VhostUserMsgHeader<FrontendReq>>(
            hdr.wire() + payload,
            values,
        ),
        bytes_read(head).len() == 12,
    ensures
        ({
            let grown = hdr.with_payload_size((payload.len() + 8 * values.len()) as u32);
            &&& after_reads(
                after_reads(
                    IncomingView::<VhostUserMsgHeader<FrontendReq>, F>::Header(Seq::empty()),
                    head,
                ),
                body,
            ) == IncomingView::<VhostUserMsgHeader<FrontendReq>, F>::Handles(
                grown,
                payload,
                values,
                Seq::empty(),
            )
            &&& grown.with_payload_size(payload.len() as u32) == hdr
        }),
{
    if hdr.flags & FLAG_REPLY == 0 {
        message::law_record_count_ignores_the_trailer(
            hdr.request,
            payload,
            win32::records(values),
        );
    }
    law_message_and_handles_come_back::<VhostUserMsgHeader<FrontendReq>, F>(
        hdr,
        payload,
        values,
        head,
        body,
    );
}

/// The objects of a message are handed out in the order of the records that name them.
pub proof fn law_objects_keep_their_order<H: MsgHeader, F>(
    hdr: H,
    payload: Seq<u8>,
    values: Seq<u64>,
    files: Seq<F>,
)
    ensures
        after_takings(IncomingView::Handles(hdr, payload, values, Seq::empty()), files)
            == IncomingView::Handles(hdr, payload, values, files),
    decreases files.len(),
{
    if files.len() > 0 {
        law_objects_keep_their_order(hdr, payload, values, files.drop_last());
        assert(files.drop_last().push(files.last()) =~= files);
    } else {
        assert(files =~= Seq::empty());
    }
}

/// Reads of a buffered payload give it in its order, without losing or repeating a byte: two reads
/// one after the other give and leave what one read of both lengths together does.
pub proof fn law_payload_is_handed_out_in_order(pending: Seq<u8>, first: nat, second: nat)
    ensures
        handed_out(pending, first) + handed_out(left_over(pending, first), second) == handed_out(
            pending,
            first + second,
        ),
        left_over(left_over(pending, first), second) == left_over(pending, first + second),
{
    assert(handed_out(pending, first) + handed_out(left_over(pending, first), second)
        =~= handed_out(pending, first + second));
    assert(left_over(left_over(pending, first), second) =~= left_over(pending, first + second));
}

/// A peer that stops sending is told apart by when it does: before a message it has disconnected,
/// and in the middle of one the message is partial.
pub proof fn law_hang_up_is_reported<H: MsgHeader, F>(state: IncomingView<H, F>, nothing: Vec<u8>)
    requires
        nothing@.len() == 0,
        state is Header || state is Payload,
        state.wanted() > 0,
    ensures
        state.after_read(ReadOutcome::Read(nothing)) == IncomingView::<H, F>::Failed(
            if state matches IncomingView::Header(data) && data.len() == 0 {
                Error::Disconnected
            } else {
                Error::PartialMessage
            },
        ),
{
}

/// What goes over the wire for a message that passes objects: a header that differs from that of
/// the message only in its payload size, which counts the records too; then the payload as it is;
/// then one record for every duplicate, in their order. A message that passes none goes over as it
/// is.
pub proof fn law_records_follow_the_payload<H: MsgHeader>(
    outgoing: &Outgoing<H>,
    hdr: H,
    payload: Seq<u8>,
    message: Vec<u8>,
)
    requires
        outgoing.made().len() == outgoing.handles().len(),
        outgoing.data() == hdr.wire() + payload,
        hdr.payload_size() + 8 * outgoing.made().len() <= u32::MAX,
        call_ensures(Outgoing::<H>::message, (outgoing,), message),
    ensures
        outgoing.handles().len() == 0 ==> message@ == hdr.wire() + payload,
        outgoing.handles().len() > 0 ==> {
            let start = H::wire_size() as int;
            let end = start + payload.len();
            let shown = H::of_wire(message@.take(start));
            &&& message@.len() == end + 8 * outgoing.made().len()
            &&& shown.payload_size() == hdr.payload_size() + 8 * outgoing.made().len()
            &&& shown.with_payload_size(hdr.payload_size()) == hdr
            &&& message@.subrange(start, end) == payload
            &&& win32::record_values(message@.skip(end)) == outgoing.made()
        },
{
    let start = H::wire_size() as int;
    let end = start + payload.len();
    let values = outgoing.made();
    let size = (hdr.payload_size() + 8 * values.len()) as u32;
    let grown = hdr.with_payload_size(size);
    hdr.lemma_header(size);
    grown.lemma_header(0);
    win32::law_records_read_back(values);
    assert((hdr.wire() + payload).take(start) =~= hdr.wire());
    assert((hdr.wire() + payload).skip(start) =~= payload);
    if outgoing.handles().len() > 0 {
        assert(message@ =~= grown.wire() + payload + win32::records(values));
        assert(message@.take(start) =~= grown.wire());
        assert(message@.subrange(start, end) =~= payload);
        assert(message@.skip(end) =~= win32::records(values));
    }
}

/// A write that came through is reported as the length of the message without its trailer. One
/// that failed is reported as a broken socket exactly where the pipe is broken, with the error of
/// the system; and every duplicate is to be closed in the peer process, each once and in their
/// order.
pub proof fn law_failed_writes_are_undone<H: MsgHeader>(
    outgoing: Outgoing<H>,
    outcome: Result<(), (ErrorKind, IoError)>,
    result: Result<usize, SendFailure>,
)
    requires
        call_ensures(Outgoing::<H>::on_written, (outgoing, outcome), result),
    ensures
        outcome is Ok <==> result is Ok,
        result matches Ok(sent) ==> sent == outgoing.data().len(),
        match (outcome, result) {
            (Err((kind, error)), Err(failure)) => {
                &&& failure.close@.len() == outgoing.made().len()
                &&& forall|i: int|
                    0 <= i < outgoing.made().len() ==> #[trigger] failure.close@[i]
                        == outgoing.made()[i] as usize
                &&& kind == ErrorKind::BrokenPipe ==> failure.error == Error::SocketBroken(error)
                &&& kind != ErrorKind::BrokenPipe ==> failure.error == Error::SocketError(error)
            },
            _ => true,
        },
{
}

/// Every way in which a header can fail: nothing came, less than a header came, it is not one that
/// the protocol knows, or it announces more than a message may have. Where none holds, what it
/// announces is read next.
pub proof fn law_headers_are_judged<H: MsgHeader, F>(data: Seq<u8>)
    requires
        data.len() <= H::wire_size(),
    ensures
        ({
            let read = header_read::<H, F>(data);
            let hdr = H::of_wire(data);
            let whole = data.len() == H::wire_size();
            &&& data.len() == 0 <==> read == IncomingView::<H, F>::Failed(Error::Disconnected)
            &&& 0 < data.len() && !whole ==> read == IncomingView::<H, F>::Failed(
                Error::PartialMessage,
            )
            &&& whole && !hdr.valid() ==> read == IncomingView::<H, F>::Failed(
                Error::InvalidMessage,
            )
            &&& whole && hdr.valid() && hdr.payload_size() > H::max_msg_size()
                <==> read == IncomingView::<H, F>::Failed(Error::OversizedMsg)
            &&& whole && hdr.valid() && 0 < hdr.payload_size() <= H::max_msg_size()
                <==> read is Payload
            &&& read is Payload ==> read == IncomingView::<H, F>::Payload(hdr, Seq::empty())
            &&& read is Handles ==> hdr.payload_size() == 0 && hdr.valid()
        }),
{
    H::lemma_sizes();
}

/// Every way in which a payload can fail: less than its header announced came, the payload does
/// not say how many records it ends with, or it is too short for them. Where none holds, the
/// payload is cut into what a POSIX peer would have sent and the records, and nothing is lost.
pub proof fn law_payloads_are_judged<H: MsgHeader, F>(hdr: H, payload: Seq<u8>)
    ensures
        ({
            let read = payload_read::<H, F>(hdr, payload);
            let records = hdr.handle_records(payload);
            let whole = payload.len() == hdr.payload_size();
            let named = records matches Some(count) && 8 * count <= payload.len();
            &&& !whole <==> read == IncomingView::<H, F>::Failed(Error::PartialMessage)
            &&& whole && !named <==> read == IncomingView::<H, F>::Failed(Error::InvalidMessage)
            &&& whole && named <==> read is Handles
            &&& read matches IncomingView::Handles(shown, base, values, taken) ==> {
                &&& shown == hdr
                &&& records == Some(values.len() as usize)
                &&& base + win32::records(values) == payload
                &&& taken.len() == 0
            }
        }),
{
    if payload.len() == hdr.payload_size() {
        if let Some(count) = hdr.handle_records(payload) {
            if 8 * count <= payload.len() {
                let base_len = payload.len() - 8 * count;
                win32::law_records_write_back(payload.skip(base_len));
                assert(payload.take(base_len) + payload.skip(base_len) =~= payload);
            }
        }
    }
}

/// What a read means to a message on its way in. An interruption means nothing. Any other failure
/// ends it, as an error of the socket. Bytes that leave something wanted are kept behind those that
/// came before.
pub proof fn law_reads_are_judged<H: MsgHeader, F>(
    state: IncomingView<H, F>,
    kind: ErrorKind,
    error: IoError,
    bytes: Vec<u8>,
)
    requires
        state is Header || state is Payload,
    ensures
        ({
            let failed = state.after_read(ReadOutcome::Failed(kind, error));
            &&& kind == ErrorKind::Interrupted ==> failed == state
            &&& kind != ErrorKind::Interrupted ==> failed == IncomingView::<H, F>::Failed(
                Error::SocketError(error),
            )
        }),
        0 < bytes@.len() < state.wanted() ==> {
            let now = state.after_read(ReadOutcome::Read(bytes));
            &&& now.wanted() == state.wanted() - bytes@.len()
            &&& match (state, now) {
                (IncomingView::Header(data), IncomingView::Header(more)) => more == data + bytes@,
                (IncomingView::Payload(hdr, data), IncomingView::Payload(same, more)) => same == hdr
                    && more == data + bytes@,
                _ => false,
            }
        },
{
}

/// What the receiver of a message wants. It reads exactly the bytes that are still missing, of the
/// header or of the payload that the header announces. Then it takes the objects: out of the peer
/// process, a handle is always moved over; where there is none, the handle of a record that is not
/// null is taken as it is, and one of null is refused. It wants nothing exactly where the message
/// is over.
pub proof fn law_receivers_want_what_is_missing<H: MsgHeader, F>(
    incoming: &Incoming<H, F>,
    want: Want,
)
    requires
        call_ensures(Incoming::<H, F>::next, (incoming,), want),
    ensures
        want is Over <==> incoming@.over(),
        match incoming@ {
            IncomingView::Header(data) => want matches Want::Read(len) && len + data.len()
                == H::wire_size(),
            IncomingView::Payload(hdr, data) => want matches Want::Read(len) && len + data.len()
                == hdr.payload_size(),
            IncomingView::Handles(_, _, named, taken) if taken.len() < named.len() => {
                let handle = named[taken.len() as int] as usize;
                &&& want matches Want::Take(step)
                &&& incoming.from_peer() ==> step == TakeStep::Pull(handle)
                &&& !incoming.from_peer() && handle != 0 ==> step == TakeStep::Adopt(handle)
                &&& !incoming.from_peer() && handle == 0 ==> step is Refuse
            },
            _ => want is Over,
        },
{
}

/// An object that was taken is the next one of its message, and everything else stays. One that
/// could not be taken ends the message, with the error of the system.
pub proof fn law_takings_are_judged<H: MsgHeader, F>(
    hdr: H,
    base: Seq<u8>,
    named: Seq<u64>,
    taken: Seq<F>,
    file: F,
    error: IoError,
)
    ensures
        ({
            let state = IncomingView::Handles(hdr, base, named, taken);
            &&& state.after_taking(Ok(file)) == IncomingView::Handles(
                hdr,
                base,
                named,
                taken.push(file),
            )
            &&& state.after_taking(Err(error)) == IncomingView::<H, F>::Failed(
                Error::Win32InvalidHandle(error),
            )
        }),
{
}

/// A read of a buffered payload gives as much of it as there is, up to what was asked for, and what
/// it gives and what it leaves are the payload.
pub proof fn law_reads_give_what_there_is(pending: Seq<u8>, len: nat)
    ensures
        handed_out(pending, len) + left_over(pending, len) == pending,
        handed_out(pending, len).len() <= len,
        handed_out(pending, len).len() == len || left_over(pending, len).len() == 0,
{
    assert(handed_out(pending, len) + left_over(pending, len) =~= pending);
}

/// A message hands out all of its objects, in their order, and a message without objects says so.
pub proof fn law_all_objects_are_handed_out<F>(files: Option<Vec<F>>, taken: Seq<F>)
    requires
        hands_out(files, taken),
    ensures
        files is None <==> taken.len() == 0,
        files matches Some(files) ==> files@ == taken,
{
}

/// Whether an end of a connection moves handles over from a peer process is decided by whether it
/// has been given one: an end that has just been made has none, and from then on the one that was
/// set last counts. Receiving a message drops what was left of the one before.
pub proof fn law_ends_with_a_peer_process_move_handles_over<H: MsgHeader, P, F>()
    ensures
        forall|endpoint: Endpoint<H, P>| #[trigger]
            call_ensures(Endpoint::<H, P>::from_stream, (), endpoint) ==> {
                &&& endpoint.peer() is None
                &&& endpoint.pending().len() == 0
            },
        forall|endpoint: &mut Endpoint<H, P>, process: P| #[trigger]
            call_ensures(Endpoint::<H, P>::set_peer_process, (endpoint, process), ()) ==> {
                &&& final(endpoint).peer() == Some(process)
                &&& final(endpoint).pending() == endpoint.pending()
            },
        forall|endpoint: &mut Endpoint<H, P>, incoming: Incoming<H, F>| #[trigger]
            call_ensures(Endpoint::<H, P>::start_recv::<F>, (endpoint,), incoming) ==> {
                &&& incoming.from_peer() <==> endpoint.peer() is Some
                &&& incoming@ == IncomingView::<H, F>::Header(Seq::empty())
                &&& final(endpoint).peer() == endpoint.peer()
                &&& final(endpoint).pending().len() == 0
            },
{
}

/// Objects are sent only by an end that has a handle to the backend process, and only with a whole
/// header. A message without objects is always sent. What is sent are the bytes of the vectors one
/// after the other, and the handles in their order.
pub proof fn law_objects_need_a_peer_process<H: MsgHeader, P>(
    endpoint: &Endpoint<H, P>,
    iovs: &[&[u8]],
    fds: Option<&[RawDescriptor]>,
    outgoing: Result<Outgoing<H>, Error>,
)
    requires
        call_ensures(Endpoint::<H, P>::send_iovec, (endpoint, iovs, fds), outgoing),
    ensures
        ({
            let data = iovs.deep_view().flatten();
            let passes = fds matches Some(fds) && fds@.len() > 0;
            &&& outgoing is Ok <==> !passes || (endpoint.peer() is Some && data.len()
                >= H::wire_size())
            &&& outgoing matches Ok(outgoing) ==> {
                &&& outgoing.data() == data
                &&& passes ==> (fds matches Some(fds) && outgoing.handles() == fds@)
                &&& !passes ==> outgoing.handles().len() == 0
                &&& outgoing.made().len() == 0
            }
            &&& outgoing matches Err(error) ==> {
                &&& endpoint.peer() is None ==> error == Error::InvalidOperation(NO_PEER)
                &&& endpoint.peer() is Some ==> error == Error::InvalidParam
            }
        }),
{
}

/// Callers see the message that a POSIX peer would have sent: a header whose size is that of the
/// payload without the trailer, the objects beside it, and the payload kept for the calls that
/// follow. A message that could not be received is reported as it failed, and changes nothing.
pub proof fn law_callers_see_no_trailer<H: MsgHeader, P, F>()
    ensures
        forall|
            endpoint: &mut Endpoint<H, P>,
            incoming: Incoming<H, F>,
            header: Result<(H, Option<Vec<F>>), Error>,
        | #[trigger]
            call_ensures(
                Endpoint::<H, P>::recv_header::<F>,
                (endpoint, incoming),
                header,
            ) ==> match incoming@ {
                IncomingView::Handles(hdr, base, _, taken) => {
                    &&& header matches Ok((shown, files))
                    &&& shown == hdr.with_payload_size(base.len() as u32)
                    &&& files is None <==> taken.len() == 0
                    &&& files matches Some(files) ==> files@ == taken
                    &&& final(endpoint).pending() == base
                },
                IncomingView::Failed(error) => {
                    &&& header == Err::<(H, Option<Vec<F>>), Error>(error)
                    &&& final(endpoint).pending() == endpoint.pending()
                },
                _ => true,
            },
{
}

/// What is read of a payload is its front, as much as was asked for and there is, in a buffer of
/// the length asked for with zeros behind it; and what is left can be read after it. A payload that
/// is taken whole fits the buffer and is gone afterwards, or does not fit and stays.
pub proof fn law_payloads_are_read_once<H: MsgHeader, P>()
    ensures
        forall|
            endpoint: &mut Endpoint<H, P>,
            len: usize,
            data: Result<(usize, Vec<u8>), Error>,
        | #[trigger]
            call_ensures(Endpoint::<H, P>::recv_data, (endpoint, len), data) ==> {
                &&& data matches Ok((n, buf))
                &&& buf@.len() == len
                &&& n <= len
                &&& buf@.take(n as int) + final(endpoint).pending() == endpoint.pending()
                &&& n < len ==> final(endpoint).pending().len() == 0
                &&& forall|i: int| n <= i < len ==> #[trigger] buf@[i] == 0
            },
        forall|
            endpoint: &mut Endpoint<H, P>,
            buf: &mut [u8],
            len: Result<usize, Error>,
        | #[trigger]
            call_ensures(Endpoint::<H, P>::take_payload, (endpoint, buf), len) ==> {
                let there = endpoint.pending().len();
                &&& len is Ok <==> there <= buf@.len()
                &&& len matches Ok(n) ==> {
                    &&& n == there
                    &&& final(endpoint).pending().len() == 0
                    &&& final(buf)@.take(n as int) == endpoint.pending()
                    &&& final(buf)@.skip(n as int) == buf@.skip(n as int)
                }
                &&& len matches Err(error) ==> {
                    &&& error == Error::OversizedMsg
                    &&& final(endpoint).pending() == endpoint.pending()
                    &&& final(buf)@ == buf@
                }
            },
{
    assert forall|
        endpoint: &mut Endpoint<H, P>,
        len: usize,
        data: Result<(usize, Vec<u8>), Error>,
    | #[trigger]
        call_ensures(Endpoint::<H, P>::recv_data, (endpoint, len), data) implies {
        &&& data matches Ok((n, buf))
        &&& buf@.len() == len
        &&& n <= len
        &&& buf@.take(n as int) + final(endpoint).pending() == endpoint.pending()
        &&& n < len ==> final(endpoint).pending().len() == 0
        &&& forall|i: int| n <= i < len ==> #[trigger] buf@[i] == 0
    } by {
        if let Ok((n, buf)) = data {
            let front = handed_out(endpoint.pending(), len as nat);
            assert(buf@.take(n as int) =~= front);
            law_reads_give_what_there_is(endpoint.pending(), len as nat);
        }
    }
    assert forall|
        endpoint: &mut Endpoint<H, P>,
        buf: &mut [u8],
        len: Result<usize, Error>,
    | #[trigger]
        call_ensures(Endpoint::<H, P>::take_payload, (endpoint, buf), len) implies {
        let there = endpoint.pending().len();
        &&& len is Ok <==> there <= buf@.len()
        &&& len matches Ok(n) ==> {
            &&& n == there
            &&& final(endpoint).pending().len() == 0
            &&& final(buf)@.take(n as int) == endpoint.pending()
            &&& final(buf)@.skip(n as int) == buf@.skip(n as int)
        }
        &&& len matches Err(error) ==> {
            &&& error == Error::OversizedMsg
            &&& final(endpoint).pending() == endpoint.pending()
            &&& final(buf)@ == buf@
        }
    } by {
        if let Ok(n) = len {
            assert(final(buf)@.take(n as int) =~= endpoint.pending());
            assert(final(buf)@.skip(n as int) =~= buf@.skip(n as int));
        }
    }
}

/// A message with a body of fixed size is received exactly where it is over without a failure, its
/// payload is as long as the body, and the protocol allows the body. What fails is told apart: too
/// little is a partial message, anything else an invalid one.
pub proof fn law_bodies_are_received<H: MsgHeader, T: MsgBody, P, F>()
    ensures
        forall|
            endpoint: &mut Endpoint<H, P>,
            incoming: Incoming<H, F>,
            message: Result<(H, T, Option<Vec<F>>), Error>,
        | #[trigger]
            call_ensures(
                Endpoint::<H, P>::recv_body::<T, F>,
                (endpoint, incoming),
                message,
            ) ==> match incoming@ {
                IncomingView::Handles(hdr, base, _, taken) => {
                    let body = T::of_body(base);
                    &&& message is Ok <==> base.len() == T::body_size() && body.valid_body()
                    &&& message matches Ok((shown, got, files)) ==> {
                        &&& shown == hdr.with_payload_size(base.len() as u32)
                        &&& got == body
                        &&& files is None <==> taken.len() == 0
                        &&& files matches Some(files) ==> files@ == taken
                        &&& final(endpoint).pending().len() == 0
                    }
                    &&& message matches Err(error) ==> {
                        &&& base.len() < T::body_size() ==> error == Error::PartialMessage
                        &&& base.len() >= T::body_size() ==> error == Error::InvalidMessage
                    }
                },
                IncomingView::Failed(error) => message == Err::<(H, T, Option<Vec<F>>), Error>(
                    error,
                ),
                _ => true,
            },
{
    assert forall|
        endpoint: &mut Endpoint<H, P>,
        incoming: Incoming<H, F>,
        message: Result<(H, T, Option<Vec<F>>), Error>,
    | #[trigger]
        call_ensures(
            Endpoint::<H, P>::recv_body::<T, F>,
            (endpoint, incoming),
            message,
        ) implies match incoming@ {
        IncomingView::Handles(hdr, base, _, taken) => {
            let body = T::of_body(base);
            &&& message is Ok <==> base.len() == T::body_size() && body.valid_body()
            &&& message matches Ok((shown, got, files)) ==> {
                &&& shown == hdr.with_payload_size(base.len() as u32)
                &&& got == body
                &&& files is None <==> taken.len() == 0
                &&& files matches Some(files) ==> files@ == taken
                &&& final(endpoint).pending().len() == 0
            }
            &&& message matches Err(error) ==> {
                &&& base.len() < T::body_size() ==> error == Error::PartialMessage
                &&& base.len() >= T::body_size() ==> error == Error::InvalidMessage
            }
        },
        IncomingView::Failed(error) => message == Err::<(H, T, Option<Vec<F>>), Error>(error),
        _ => true,
    } by {
        if let IncomingView::Handles(_, base, _, _) = incoming@ {
            if base.len() == T::body_size() {
                assert(base.take(T::body_size() as int) =~= base);
            }
        }
    }
}

/// A message with a body and whatever follows is received exactly where it is over without a
/// failure, all of the body came, the protocol allows it, and the rest fits the buffer; and then
/// the rest is in the front of the buffer. The whole payload as it came is received exactly where
/// it fits.
pub proof fn law_payloads_that_fit_are_received<H: MsgHeader, T: MsgBody, P, F>()
    ensures
        forall|
            endpoint: &mut Endpoint<H, P>,
            incoming: Incoming<H, F>,
            buf: &mut [u8],
            message: Result<(H, T, usize, Option<Vec<F>>), Error>,
        | #[trigger]
            call_ensures(
                Endpoint::<H, P>::recv_payload_into_buf::<T, F>,
                (endpoint, incoming, buf),
                message,
            ) ==> match incoming@ {
                IncomingView::Handles(_, base, _, _) => {
                    let size = T::body_size() as int;
                    let body = T::of_body(base.take(size));
                    let there = base.len() >= size && body.valid_body();
                    &&& message is Ok <==> there && base.len() - size <= buf@.len()
                    &&& message matches Ok((_, got, n, _)) ==> {
                        &&& got == body
                        &&& size + n == base.len()
                        &&& forall|i: int|
                            0 <= i < n ==> #[trigger] final(buf)@[i] == base[size + i]
                    }
                    &&& message matches Err(error) ==> {
                        &&& base.len() < size ==> error == Error::PartialMessage
                        &&& base.len() >= size && !body.valid_body() ==> error
                            == Error::InvalidMessage
                        &&& there ==> error == Error::OversizedMsg
                        &&& final(buf)@ == buf@
                    }
                },
                IncomingView::Failed(error) => message == Err::<
                    (H, T, usize, Option<Vec<F>>),
                    Error,
                >(error),
                _ => true,
            },
        forall|
            endpoint: &mut Endpoint<H, P>,
            incoming: Incoming<H, F>,
            buf: &mut [u8],
            message: Result<(H, usize, Option<Vec<F>>), Error>,
        | #[trigger]
            call_ensures(
                Endpoint::<H, P>::recv_body_into_buf::<F>,
                (endpoint, incoming, buf),
                message,
            ) ==> match incoming@ {
                IncomingView::Handles(_, base, _, _) => {
                    &&& message is Ok <==> base.len() <= buf@.len()
                    &&& message matches Ok((_, n, _)) ==> {
                        &&& n == base.len()
                        &&& forall|i: int| 0 <= i < n ==> #[trigger] final(buf)@[i] == base[i]
                    }
                    &&& message matches Err(error) ==> error == Error::OversizedMsg && final(buf)@
                        == buf@
                },
                IncomingView::Failed(error) => message == Err::<(H, usize, Option<Vec<F>>), Error>(
                    error,
                ),
                _ => true,
            },
        forall|
            endpoint: &mut Endpoint<H, P>,
            buf_size: usize,
            incoming: Incoming<H, F>,
            data: Result<(usize, Vec<u8>, Option<Vec<F>>), Error>,
        | #[trigger]
            call_ensures(
                Endpoint::<H, P>::recv_into_buf::<F>,
                (endpoint, buf_size, incoming),
                data,
            ) ==> match incoming@ {
                IncomingView::Handles(_, base, _, _) => {
                    &&& data is Ok <==> base.len() <= buf_size
                    &&& data matches Ok((n, buf, _)) ==> {
                        &&& n == base.len()
                        &&& buf@.len() == buf_size
                        &&& forall|i: int| 0 <= i < n ==> #[trigger] buf@[i] == base[i]
                    }
                    &&& data matches Err(error) ==> error == Error::OversizedMsg
                },
                IncomingView::Failed(error) => data == Err::<
                    (usize, Vec<u8>, Option<Vec<F>>),
                    Error,
                >(error),
                _ => true,
            },
{
}

} // verus!
