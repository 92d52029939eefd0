//! POSIX half of [`Endpoint`]: objects are passed as descriptors beside the byte stream.
//!
//! `F` is what the caller wraps a received descriptor in.

use vstd::prelude::*;
use vstd::slice::slice_subrange;

use crate::connection;
use crate::connection::buffer;
use crate::connection::buffer::{fill_from, pad};
use crate::connection::{get_sub_iovs_offset, Endpoint, RawDescriptor};
use crate::error::{ErrnoCodes, Error};
use crate::message::{MsgBody, MsgHeader, MAX_ATTACHED_FD_ENTRIES};

verus! {

/// The lengths from byte `offset` of vector `index` on.
pub open spec fn lens_from(lens: Seq<usize>, index: int, offset: int) -> Seq<usize> {
    seq![(lens[index] - offset) as usize] + lens.skip(index + 1)
}

/// What follows from an attempt to receive.
pub enum RecvStep {
    /// There is more to receive.
    Continue,
    /// The transfer is over.
    Done,
}

/// A message that has been received as far as the peer sent it.
pub struct Received<F> {
    /// The bytes, in the order of the stream.
    pub data: Vec<u8>,
    /// The objects that came with the first of them.
    pub files: Option<Vec<F>>,
    /// Why no more came, if the socket failed.
    pub failure: Option<Error>,
}

/// What a receiver holds: the bytes, the objects that came with the first of them, and the
/// failure that ended the transfer.
pub type ReceivedView<F> = (Seq<u8>, Option<Vec<F>>, Option<Error>);

impl<F> View for Received<F> {
    type V = ReceivedView<F>;

    open spec fn view(&self) -> ReceivedView<F> {
        (self.data@, self.files, self.failure)
    }
}

/// Where the answer of a socket leaves a transfer of `total` bytes, and what follows.
///
/// Objects count only where they come with the first bytes.
pub open spec fn after_receive<F>(
    total: int,
    held: ReceivedView<F>,
    outcome: Result<(Vec<u8>, Option<Vec<F>>), Error>,
) -> (ReceivedView<F>, RecvStep) {
    let (data, files, failure) = held;
    match outcome {
        Ok((bytes, with)) => if bytes@.len() == 0 {
            (held, RecvStep::Done)
        } else {
            let now = data + bytes@;
            let objects = if data.len() == 0 {
                with
            } else {
                files
            };
            (
                (now, objects, failure),
                if now.len() == total {
                    RecvStep::Done
                } else {
                    RecvStep::Continue
                },
            )
        },
        Err(Error::SocketRetry(_)) => (held, RecvStep::Continue),
        Err(error) => ((data, files, Some(error)), RecvStep::Done),
    }
}

/// A message on its way in, into vectors of given lengths.
///
/// The caller receives into what `next` says and reports the outcome to `on_received`, until
/// either says that the transfer is over.
pub struct Receiving<F> {
    iov_lens: Vec<usize>,
    data_total: usize,
    received: Received<F>,
}

impl<F> Receiving<F> {
    /// The lengths of the vectors to fill.
    pub closed spec fn lens(self) -> Seq<usize> {
        self.iov_lens@
    }

    /// What has been received so far.
    pub closed spec fn so_far(self) -> Received<F> {
        self.received
    }

    #[verifier::type_invariant]
    spec fn inv(self) -> bool {
        &&& self.data_total == connection::total_len(self.iov_lens@)
        &&& self.received.data@.len() <= self.data_total
    }

    /// Starts to receive into vectors of the lengths `iov_lens`.
    fn new(iov_lens: Vec<usize>) -> (receiving: Self)
        requires
            connection::total_len(iov_lens@) <= usize::MAX,
        ensures
            receiving.lens() == iov_lens@,
            receiving.so_far().data@ == Seq::<u8>::empty(),
            receiving.so_far().files is None,
            receiving.so_far().failure is None,
    {
        let mut data_total: usize = 0;
        let mut i: usize = 0;
        while i < iov_lens.len()
            invariant
                i <= iov_lens@.len(),
                data_total == connection::total_len(iov_lens@.take(i as int)),
                connection::total_len(iov_lens@) <= usize::MAX,
            decreases iov_lens@.len() - i,
        {
            proof {
                assert(iov_lens@.take(i + 1).drop_last() =~= iov_lens@.take(i as int));
                connection::lemma_total_len_monotonic(iov_lens@, i + 1, iov_lens@.len() as int);
                assert(iov_lens@.take(iov_lens@.len() as int) =~= iov_lens@);
            }
            data_total = data_total + iov_lens[i];
            i = i + 1;
        }
        assert(iov_lens@.take(i as int) =~= iov_lens@);
        Receiving {
            iov_lens,
            data_total,
            received: Received { data: Vec::new(), files: None, failure: None },
        }
    }

    /// The lengths of the vectors to receive into next, or `None` when all are full.
    pub fn next(&self) -> (next: Option<Vec<usize>>)
        ensures
            match next {
                None => self.so_far().data@.len() == connection::total_len(self.lens()),
                Some(lens) => {
                    &&& self.so_far().data@.len() < connection::total_len(self.lens())
                    &&& connection::total_len(lens@) == connection::total_len(self.lens())
                        - self.so_far().data@.len()
                    &&& exists|index: int, offset: int|
                        connection::is_sub_offset(
                            self.lens(),
                            self.so_far().data@.len() as int,
                            index,
                            offset,
                        ) && lens@ == #[trigger] lens_from(self.lens(), index, offset)
                },
            },
    {
        proof {
            use_type_invariant(self);
        }
        let data_read: usize = self.received.data.len();
        if self.data_total - data_read == 0 {
            return None;
        }
        let (nr_skip, offset) = get_sub_iovs_offset(self.iov_lens.as_slice(), data_read);
        let ghost all = self.iov_lens@;
        proof {
            if nr_skip == all.len() {
                assert(all.take(nr_skip as int) =~= all);
            }
        }
        let count: usize = self.iov_lens.len();
        let mut lens: Vec<usize> = Vec::new();
        lens.push(self.iov_lens[nr_skip] - offset);
        let mut i: usize = nr_skip + 1;
        proof {
            assert(all.take(nr_skip + 1).drop_last() =~= all.take(nr_skip as int));
            assert(lens@.drop_last() =~= Seq::<usize>::empty());
            assert(connection::total_len(Seq::<usize>::empty()) == 0);
        }
        while i < count
            invariant
                all == self.iov_lens@,
                count == all.len(),
                nr_skip < i <= count,
                offset < all[nr_skip as int],
                lens@.len() == i - nr_skip,
                lens@[0] == all[nr_skip as int] - offset,
                forall|j: int| 1 <= j < lens@.len() ==> lens@[j] == all[nr_skip + j],
                connection::total_len(lens@) + data_read == connection::total_len(
                    all.take(i as int),
                ),
            decreases count - i,
        {
            let ghost before = lens@;
            lens.push(self.iov_lens[i]);
            proof {
                assert(lens@.drop_last() =~= before);
                assert(all.take(i + 1).drop_last() =~= all.take(i as int));
            }
            i = i + 1;
        }
        proof {
            assert(all.take(count as int) =~= all);
            assert(lens@ =~= lens_from(all, nr_skip as int, offset as int));
            assert(connection::is_sub_offset(
                self.lens(),
                self.so_far().data@.len() as int,
                nr_skip as int,
                offset as int,
            ));
        }
        Some(lens)
    }

    /// Takes note of the outcome of an attempt to receive into what `next` said.
    pub fn on_received(&mut self, outcome: Result<(Vec<u8>, Option<Vec<F>>), Error>) -> (step:
        RecvStep)
        requires
            outcome matches Ok((bytes, _)) ==> old(self).so_far().data@.len() + bytes@.len()
                <= connection::total_len(old(self).lens()),
        ensures
            final(self).lens() == old(self).lens(),
            (final(self).so_far()@, step) == after_receive(
                connection::total_len(old(self).lens()) as int,
                old(self).so_far()@,
                outcome,
            ),
    {
        proof {
            use_type_invariant(&*self);
        }
        match outcome {
            Ok((bytes, files)) => {
                let mut bytes = bytes;
                if bytes.len() == 0 {
                    return RecvStep::Done;
                }
                if self.received.data.len() == 0 {
                    self.received.files = files;
                }
                let mut data: Vec<u8> = Vec::new();
                std::mem::swap(&mut data, &mut self.received.data);
                data.append(&mut bytes);
                self.received.data = data;
                if self.received.data.len() == self.data_total {
                    RecvStep::Done
                } else {
                    RecvStep::Continue
                }
            },
            Err(Error::SocketRetry(_)) => RecvStep::Continue,
            Err(error) => {
                self.received.failure = Some(error);
                RecvStep::Done
            },
        }
    }

    /// What has been received.
    pub fn into_received(self) -> (received: Received<F>)
        ensures
            received == self.so_far(),
            received.data@.len() <= connection::total_len(self.lens()),
    {
        proof {
            use_type_invariant(&self);
        }
        self.received
    }
}

/// What a transfer into a header alone amounts to.
pub open spec fn header_of<H: MsgHeader, F>(received: Received<F>) -> Result<
    (H, Option<Vec<F>>),
    Error,
> {
    let hdr = H::of_wire(received.data@);
    match received.failure {
        Some(error) => Err(error),
        None => if received.data@.len() == 0 {
            Err(Error::Disconnected)
        } else if received.data@.len() != H::wire_size() {
            Err(Error::PartialMessage)
        } else if !hdr.valid() {
            Err(Error::InvalidMessage)
        } else {
            Ok((hdr, received.files))
        },
    }
}

/// What a transfer into a header and a body amounts to.
pub open spec fn body_of<H: MsgHeader, T: MsgBody, F>(received: Received<F>) -> Result<
    (H, T, Option<Vec<F>>),
    Error,
> {
    let start = H::wire_size() as int;
    let end = start + T::body_size();
    let hdr = H::of_wire(received.data@.subrange(0, start));
    let body = T::of_body(received.data@.subrange(start, end));
    match received.failure {
        Some(error) => Err(error),
        None => if received.data@.len() != end {
            Err(Error::PartialMessage)
        } else if !hdr.valid() || !body.valid_body() {
            Err(Error::InvalidMessage)
        } else {
            Ok((hdr, body, received.files))
        },
    }
}

/// What a transfer into a header and a buffer amounts to.
pub open spec fn buffer_of<H: MsgHeader, F>(received: Received<F>) -> Result<
    (H, usize, Option<Vec<F>>),
    Error,
> {
    let start = H::wire_size() as int;
    let hdr = H::of_wire(received.data@.subrange(0, start));
    match received.failure {
        Some(error) => Err(error),
        None => if received.data@.len() < start {
            Err(Error::PartialMessage)
        } else if !hdr.valid() {
            Err(Error::InvalidMessage)
        } else {
            Ok((hdr, (received.data@.len() - start) as usize, received.files))
        },
    }
}

/// What a transfer into a header, a body and a buffer amounts to.
pub open spec fn payload_of<H: MsgHeader, T: MsgBody, F>(received: Received<F>) -> Result<
    (H, T, usize, Option<Vec<F>>),
    Error,
> {
    let start = H::wire_size() as int;
    let end = start + T::body_size();
    let hdr = H::of_wire(received.data@.subrange(0, start));
    let body = T::of_body(received.data@.subrange(start, end));
    match received.failure {
        Some(error) => Err(error),
        None => if received.data@.len() < end {
            Err(Error::PartialMessage)
        } else if !hdr.valid() || !body.valid_body() {
            Err(Error::InvalidMessage)
        } else {
            Ok((hdr, body, (received.data@.len() - end) as usize, received.files))
        },
    }
}

/// How many of `fds` received descriptors are accepted out of an array of the length `room`.
pub open spec fn accepted(fds: int, room: int) -> int {
    let held = if fds < room {
        fds
    } else {
        room
    };
    if held < MAX_ATTACHED_FD_ENTRIES {
        held
    } else {
        MAX_ATTACHED_FD_ENTRIES as int
    }
}

impl<H: MsgHeader> Endpoint<H> {
    /// Judges an attempt to send, that took a number of bytes or failed with an error number.
    ///
    /// * SocketRetry: a signal came, or resources are short for now.
    /// * SocketBroken: the socket is broken.
    /// * SocketError: anything else.
    pub fn send_iovec(outcome: Result<usize, i32>) -> (sent: Result<usize, Error>)
        ensures
            match outcome {
                Ok(n) => sent == Ok::<usize, Error>(n),
                Err(errno) => exists|codes: ErrnoCodes|
                    codes.of_platform() && sent == Err::<usize, Error>(
                        #[trigger] Error::of_errno(errno, codes),
                    ),
            },
    {
        match outcome {
            Ok(n) => Ok(n),
            Err(errno) => Err(Error::from_errno(errno)),
        }
    }

    /// Judges an attempt to receive, that brought bytes and put a number of descriptors into
    /// `fd_array`, or failed with an error number. The errors are those of `send_iovec`.
    ///
    /// Only the first `MAX_ATTACHED_FD_ENTRIES` descriptors are accepted. The others are left
    /// where they are.
    pub fn recv_into_iovec(
        outcome: Result<(Vec<u8>, usize), i32>,
        fd_array: &[RawDescriptor],
    ) -> (received: Result<(Vec<u8>, Option<Vec<RawDescriptor>>), Error>)
        ensures
            match outcome {
                Ok((bytes, fds)) => {
                    &&& received matches Ok((data, files))
                    &&& data == bytes
                    &&& match files {
                        Some(files) => fds > 0 && files@ == fd_array@.take(
                            accepted(fds as int, fd_array@.len() as int),
                        ),
                        None => fds == 0,
                    }
                },
                Err(errno) => exists|codes: ErrnoCodes|
                    {
                        &&& codes.of_platform()
                        &&& received == Err::<(Vec<u8>, Option<Vec<RawDescriptor>>), Error>(
                            #[trigger] Error::of_errno(errno, codes),
                        )
                    },
            },
    {
        let (bytes, fds): (Vec<u8>, usize) = match outcome {
            Ok(received) => received,
            Err(errno) => {
                return Err(Error::from_errno(errno));
            },
        };
        if fds == 0 {
            return Ok((bytes, None));
        }
        let mut files: Vec<RawDescriptor> = Vec::new();
        while files.len() < fds && files.len() < fd_array.len() && files.len()
            < MAX_ATTACHED_FD_ENTRIES
            invariant
                files@.len() <= fds,
                files@.len() <= fd_array@.len(),
                files@.len() <= MAX_ATTACHED_FD_ENTRIES,
                files@ == fd_array@.take(files@.len() as int),
            decreases fds - files@.len(),
        {
            let i: usize = files.len();
            files.push(fd_array[i]);
            assert(files@ =~= fd_array@.take(files@.len() as int));
        }
        Ok((bytes, Some(files)))
    }

    /// Receives into vectors of the lengths `iov_lens` until they are full or no more comes.
    pub fn recv_into_iovec_all<F>(iov_lens: Vec<usize>) -> (receiving: Receiving<F>)
        requires
            connection::total_len(iov_lens@) <= usize::MAX,
        ensures
            receiving.lens() == iov_lens@,
            receiving.so_far().data@ == Seq::<u8>::empty(),
            receiving.so_far().files is None,
            receiving.so_far().failure is None,
    {
        Receiving::new(iov_lens)
    }

    /// Receives bytes without objects into a new buffer of `len` bytes.
    pub fn recv_data(len: usize, outcome: Result<Vec<u8>, Error>) -> (data: Result<
        (usize, Vec<u8>),
        Error,
    >)
        requires
            outcome matches Ok(bytes) ==> bytes@.len() <= len,
        ensures
            match outcome {
                Ok(bytes) => {
                    &&& data matches Ok((n, buf))
                    &&& n == bytes@.len()
                    &&& buf@ == buffer::zero_padded(bytes@, len as nat)
                },
                Err(error) => data == Err::<(usize, Vec<u8>), Error>(error),
            },
    {
        match outcome {
            Ok(bytes) => {
                let n: usize = bytes.len();
                Ok((n, pad(bytes, len)))
            },
            Err(error) => Err(error),
        }
    }

    /// Receives bytes, with optional objects, into a new buffer of `buf_size` bytes.
    pub fn recv_into_buf<F>(
        buf_size: usize,
        outcome: Result<(Vec<u8>, Option<Vec<F>>), Error>,
    ) -> (data: Result<(usize, Vec<u8>, Option<Vec<F>>), Error>)
        requires
            outcome matches Ok((bytes, _)) ==> bytes@.len() <= buf_size,
        ensures
            match outcome {
                Ok((bytes, files)) => data matches Ok((n, buf, fs)) && n == bytes@.len() && buf@
                    == buffer::zero_padded(bytes@, buf_size as nat) && fs == files,
                Err(error) => data == Err::<(usize, Vec<u8>, Option<Vec<F>>), Error>(error),
            },
    {
        match outcome {
            Ok((bytes, files)) => {
                let n: usize = bytes.len();
                Ok((n, pad(bytes, buf_size), files))
            },
            Err(error) => Err(error),
        }
    }

    /// Starts to receive a header.
    pub fn start_recv_header<F>() -> (receiving: Receiving<F>)
        ensures
            receiving.lens() == seq![H::wire_size() as usize],
            connection::total_len(receiving.lens()) == H::wire_size(),
            receiving.so_far().data@ == Seq::<u8>::empty(),
            receiving.so_far().files is None,
            receiving.so_far().failure is None,
    {
        let mut iov_lens: Vec<usize> = Vec::new();
        iov_lens.push(H::header_size());
        proof {
            lemma_total_len_parts(H::wire_size() as usize, 0, 0);
            assert(iov_lens@ =~= seq![H::wire_size() as usize]);
        }
        Receiving::new(iov_lens)
    }

    /// Judges a received header.
    ///
    /// * Disconnected: nothing came.
    /// * PartialMessage: less than a header came.
    /// * InvalidMessage: the header is not one that the protocol knows.
    pub fn recv_header<F>(received: Received<F>) -> (header: Result<(H, Option<Vec<F>>), Error>)
        ensures
            header == header_of::<H, F>(received),
    {
        if let Some(error) = received.failure {
            return Err(error);
        }
        let bytes: usize = received.data.len();
        if bytes == 0 {
            return Err(Error::Disconnected);
        } else if bytes != H::header_size() {
            return Err(Error::PartialMessage);
        }
        let hdr = H::from_slice(received.data.as_slice());
        if !hdr.is_valid() {
            return Err(Error::InvalidMessage);
        }
        Ok((hdr, received.files))
    }

    /// Starts to receive a header and a body of `body_len` bytes.
    pub fn start_recv_body<F>(body_len: usize) -> (receiving: Receiving<F>)
        requires
            H::wire_size() + body_len <= usize::MAX,
        ensures
            receiving.lens() == seq![H::wire_size() as usize, body_len],
            connection::total_len(receiving.lens()) == H::wire_size() + body_len,
            receiving.so_far().data@ == Seq::<u8>::empty(),
            receiving.so_far().files is None,
            receiving.so_far().failure is None,
    {
        let mut iov_lens: Vec<usize> = Vec::new();
        iov_lens.push(H::header_size());
        iov_lens.push(body_len);
        proof {
            lemma_total_len_parts(H::wire_size() as usize, body_len, 0);
            assert(iov_lens@ =~= seq![H::wire_size() as usize, body_len]);
        }
        Receiving::new(iov_lens)
    }

    /// Judges a received header and body.
    ///
    /// * PartialMessage: less than the message came.
    /// * InvalidMessage: header or body are not what the protocol allows.
    pub fn recv_body<T: MsgBody, F>(received: Received<F>) -> (message: Result<
        (H, T, Option<Vec<F>>),
        Error,
    >)
        ensures
            message == body_of::<H, T, F>(received),
    {
        if let Some(error) = received.failure {
            return Err(error);
        }
        proof {
            H::lemma_sizes();
        }
        let start: usize = H::header_size();
        let total: usize = start + T::size();
        if received.data.len() != total {
            return Err(Error::PartialMessage);
        }
        let hdr = H::from_slice(slice_subrange(received.data.as_slice(), 0, start));
        let body = T::from_bytes(slice_subrange(received.data.as_slice(), start, total));
        if !hdr.is_valid() || !body.is_valid_body() {
            return Err(Error::InvalidMessage);
        }
        Ok((hdr, body, received.files))
    }

    /// Judges a received header, and puts what came after it into `buf`.
    ///
    /// * PartialMessage: less than a header came.
    /// * InvalidMessage: the header is not one that the protocol knows.
    pub fn recv_body_into_buf<F>(received: Received<F>, buf: &mut [u8]) -> (message: Result<
        (H, usize, Option<Vec<F>>),
        Error,
    >)
        requires
            received.data@.len() <= H::wire_size() + old(buf)@.len(),
        ensures
            message == buffer_of::<H, F>(received),
            final(buf)@ == buffer::filled(
                old(buf)@,
                buffer::tail_from(received.data@, H::wire_size() as int),
            ),
    {
        let start: usize = H::header_size();
        fill_from(buf, &received.data, start);
        if let Some(error) = received.failure {
            return Err(error);
        }
        let bytes: usize = received.data.len();
        if bytes < start {
            return Err(Error::PartialMessage);
        }
        let hdr = H::from_slice(slice_subrange(received.data.as_slice(), 0, start));
        if !hdr.is_valid() {
            return Err(Error::InvalidMessage);
        }
        Ok((hdr, bytes - start, received.files))
    }

    /// Starts to receive a header, a body of `body_len` bytes and a payload of up to `buf_len`.
    pub fn start_recv_payload<F>(body_len: usize, buf_len: usize) -> (receiving: Receiving<F>)
        requires
            H::wire_size() + body_len + buf_len <= usize::MAX,
        ensures
            receiving.lens() == seq![H::wire_size() as usize, body_len, buf_len],
            connection::total_len(receiving.lens()) == H::wire_size() + body_len + buf_len,
            receiving.so_far().data@ == Seq::<u8>::empty(),
            receiving.so_far().files is None,
            receiving.so_far().failure is None,
    {
        let mut iov_lens: Vec<usize> = Vec::new();
        iov_lens.push(H::header_size());
        iov_lens.push(body_len);
        iov_lens.push(buf_len);
        proof {
            lemma_total_len_parts(H::wire_size() as usize, body_len, buf_len);
            assert(iov_lens@ =~= seq![H::wire_size() as usize, body_len, buf_len]);
        }
        Receiving::new(iov_lens)
    }

    /// Judges a received header and body, and puts what came after them into `buf`.
    ///
    /// * PartialMessage: less than header and body came.
    /// * InvalidMessage: header or body are not what the protocol allows.
    pub fn recv_payload_into_buf<T: MsgBody, F>(received: Received<F>, buf: &mut [u8]) -> (message:
        Result<(H, T, usize, Option<Vec<F>>), Error>)
        requires
            received.data@.len() <= H::wire_size() + T::body_size() + old(buf)@.len(),
        ensures
            message == payload_of::<H, T, F>(received),
            final(buf)@ == buffer::filled(
                old(buf)@,
                buffer::tail_from(received.data@, (H::wire_size() + T::body_size()) as int),
            ),
    {
        proof {
            H::lemma_sizes();
        }
        let start: usize = H::header_size();
        let total: usize = start + T::size();
        fill_from(buf, &received.data, total);
        if let Some(error) = received.failure {
            return Err(error);
        }
        let bytes: usize = received.data.len();
        if bytes < total {
            return Err(Error::PartialMessage);
        }
        let hdr = H::from_slice(slice_subrange(received.data.as_slice(), 0, start));
        let body = T::from_bytes(slice_subrange(received.data.as_slice(), start, total));
        if !hdr.is_valid() || !body.is_valid_body() {
            return Err(Error::InvalidMessage);
        }
        Ok((hdr, body, bytes - total, received.files))
    }
}

proof fn lemma_total_len_parts(a: usize, b: usize, c: usize)
    ensures
        connection::total_len(seq![a]) == a,
        connection::total_len(seq![a, b]) == a + b,
        connection::total_len(seq![a, b, c]) == a + b + c,
{
    reveal_with_fuel(connection::total_len, 4);
    assert(seq![a].drop_last() =~= Seq::<usize>::empty());
    assert(seq![a, b].drop_last() =~= seq![a]);
    assert(seq![a, b, c].drop_last() =~= seq![a, b]);
}

/// Where a sequence of answers leaves a transfer. What comes after its end is not asked for.
pub open spec fn after_receives<F>(
    total: int,
    held: ReceivedView<F>,
    outcomes: Seq<Result<(Vec<u8>, Option<Vec<F>>), Error>>,
) -> (ReceivedView<F>, RecvStep)
    decreases outcomes.len(),
{
    if outcomes.len() == 0 {
        (held, RecvStep::Continue)
    } else {
        let (now, step) = after_receive(total, held, outcomes.first());
        if step is Continue {
            after_receives(total, now, outcomes.drop_first())
        } else {
            (now, step)
        }
    }
}

/// The bytes that the answers bring, one after the other.
pub open spec fn stream_bytes<F>(outcomes: Seq<Result<(Vec<u8>, Option<Vec<F>>), Error>>) -> Seq<u8>
    decreases outcomes.len(),
{
    if outcomes.len() == 0 {
        Seq::empty()
    } else {
        let bytes = match outcomes.first() {
            Ok((bytes, _)) => bytes@,
            Err(_) => Seq::empty(),
        };
        bytes + stream_bytes(outcomes.drop_first())
    }
}

/// The objects that come with the first bytes.
pub open spec fn first_objects<F>(
    outcomes: Seq<Result<(Vec<u8>, Option<Vec<F>>), Error>>,
) -> Option<Vec<F>>
    decreases outcomes.len(),
{
    if outcomes.len() == 0 {
        None
    } else {
        match outcomes.first() {
            Ok((_, files)) => files,
            Err(_) => first_objects(outcomes.drop_first()),
        }
    }
}

/// An answer that brings bytes, or asks to try again.
pub open spec fn brings_bytes<F>(outcome: Result<(Vec<u8>, Option<Vec<F>>), Error>) -> bool {
    match outcome {
        Ok((bytes, _)) => bytes@.len() > 0,
        Err(error) => error is SocketRetry,
    }
}

/// However the socket splits a message up, and however often it asks to try again, a receiver
/// that gets all of its bytes holds them in the order of the stream, with the objects that came
/// with the first of them, and is done.
pub proof fn law_receives_assemble_the_message<F>(
    total: int,
    held: ReceivedView<F>,
    outcomes: Seq<Result<(Vec<u8>, Option<Vec<F>>), Error>>,
)
    requires
        forall|i: int| 0 <= i < outcomes.len() ==> brings_bytes(#[trigger] outcomes[i]),
        held.0.len() < total,
        held.0.len() + stream_bytes(outcomes).len() == total,
    ensures
        after_receives(total, held, outcomes) == (
            (
                held.0 + stream_bytes(outcomes),
                if held.0.len() == 0 {
                    first_objects(outcomes)
                } else {
                    held.1
                },
                held.2,
            ),
            RecvStep::Done,
        ),
    decreases outcomes.len(),
{
    assert(brings_bytes(outcomes[0]));
    let rest = outcomes.drop_first();
    let (now, step) = after_receive(total, held, outcomes.first());
    assert forall|i: int| 0 <= i < rest.len() implies brings_bytes(#[trigger] rest[i]) by {
        assert(rest[i] == outcomes[i + 1]);
    }
    match outcomes.first() {
        Ok((bytes, _)) => {
            if step is Continue {
                law_receives_assemble_the_message(total, now, rest);
                assert(now.0 + stream_bytes(rest) =~= held.0 + stream_bytes(outcomes));
            } else {
                assert(stream_bytes(rest) =~= Seq::empty());
                assert(now.0 =~= held.0 + stream_bytes(outcomes));
            }
        },
        Err(_) => {
            assert(stream_bytes(outcomes) =~= stream_bytes(rest));
            law_receives_assemble_the_message(total, now, rest);
        },
    }
}

/// The answers are ones that a socket can give: none brings more than was asked for.
pub open spec fn possible_receives<F>(
    total: int,
    held: ReceivedView<F>,
    outcomes: Seq<Result<(Vec<u8>, Option<Vec<F>>), Error>>,
) -> bool
    decreases outcomes.len(),
{
    outcomes.len() > 0 ==> {
        let (now, step) = after_receive(total, held, outcomes.first());
        &&& outcomes.first() matches Ok((bytes, _)) ==> held.0.len() + bytes@.len() <= total
        &&& step is Continue ==> possible_receives(total, now, outcomes.drop_first())
    }
}

/// A receive is short only at the end of the stream: where the answers bring a stream and then the
/// peer stops sending, a receiver holds the stream as far as it was asked for, with the objects
/// that came with its first bytes.
pub proof fn law_receive_is_short_only_at_the_end<F>(
    total: int,
    held: ReceivedView<F>,
    outcomes: Seq<Result<(Vec<u8>, Option<Vec<F>>), Error>>,
    end: Result<(Vec<u8>, Option<Vec<F>>), Error>,
)
    requires
        forall|i: int| 0 <= i < outcomes.len() ==> brings_bytes(#[trigger] outcomes[i]),
        possible_receives(total, held, outcomes),
        held.0.len() < total,
        end matches Ok((bytes, _)) && bytes@.len() == 0,
    ensures
        ({
            let stream = held.0 + stream_bytes(outcomes);
            after_receives(total, held, outcomes.push(end)) == (
                (
                    stream.take(
                        if stream.len() < total {
                            stream.len() as int
                        } else {
                            total
                        },
                    ),
                    if held.0.len() == 0 && stream.len() > 0 {
                        first_objects(outcomes)
                    } else {
                        held.1
                    },
                    held.2,
                ),
                RecvStep::Done,
            )
        }),
    decreases outcomes.len(),
{
    let answers = outcomes.push(end);
    let stream = held.0 + stream_bytes(outcomes);
    if outcomes.len() == 0 {
        assert(answers.first() == end);
        assert(stream.take(stream.len() as int) =~= held.0);
    } else {
        let rest = outcomes.drop_first();
        assert(answers.first() == outcomes.first());
        assert(answers.drop_first() =~= rest.push(end));
        assert(brings_bytes(outcomes[0]));
        let (now, step) = after_receive(total, held, outcomes.first());
        assert forall|i: int| 0 <= i < rest.len() implies brings_bytes(#[trigger] rest[i]) by {
            assert(rest[i] == outcomes[i + 1]);
        }
        assert(now.0 + stream_bytes(rest) =~= stream);
        if step is Continue {
            law_receive_is_short_only_at_the_end(total, now, rest, end);
        } else {
            assert(stream.take(total) =~= now.0);
        }
    }
}

/// A peer that stops sending is told apart by when it does. A receiver of a header that gets
/// nothing finds the peer disconnected; less than was asked for is a partial message.
pub proof fn law_hang_up_is_reported<H: MsgHeader, T: MsgBody, F>(received: Received<F>)
    requires
        received.failure is None,
        received.data@.len() < H::wire_size(),
    ensures
        header_of::<H, F>(received) == Err::<(H, Option<Vec<F>>), Error>(
            if received.data@.len() == 0 {
                Error::Disconnected
            } else {
                Error::PartialMessage
            },
        ),
        body_of::<H, T, F>(received) == Err::<(H, T, Option<Vec<F>>), Error>(Error::PartialMessage),
        buffer_of::<H, F>(received) == Err::<(H, usize, Option<Vec<F>>), Error>(
            Error::PartialMessage,
        ),
        payload_of::<H, T, F>(received) == Err::<(H, T, usize, Option<Vec<F>>), Error>(
            Error::PartialMessage,
        ),
{
}

/// A socket that failed for good is reported as it failed, whatever had been received before.
pub proof fn law_failures_are_reported<H: MsgHeader, T: MsgBody, F>(
    received: Received<F>,
    failure: Error,
)
    requires
        received.failure == Some(failure),
    ensures
        header_of::<H, F>(received) == Err::<(H, Option<Vec<F>>), Error>(failure),
        body_of::<H, T, F>(received) == Err::<(H, T, Option<Vec<F>>), Error>(failure),
        buffer_of::<H, F>(received) == Err::<(H, usize, Option<Vec<F>>), Error>(failure),
        payload_of::<H, T, F>(received) == Err::<(H, T, usize, Option<Vec<F>>), Error>(failure),
{
}

/// A receiver of a header gets back the header that was sent, with the objects beside it.
pub proof fn law_header_comes_back<H: MsgHeader, F>(hdr: H, received: Received<F>)
    requires
        hdr.valid(),
        received.data@ == hdr.wire(),
        received.failure is None,
    ensures
        header_of::<H, F>(received) == Ok::<_, Error>((hdr, received.files)),
{
    hdr.lemma_header(0);
    H::lemma_sizes();
}

/// A receiver of a header and a body gets back both as they were sent, with the objects beside
/// them.
pub proof fn law_body_comes_back<H: MsgHeader, T: MsgBody, F>(
    hdr: H,
    body: Seq<u8>,
    received: Received<F>,
)
    requires
        hdr.valid(),
        body.len() == T::body_size(),
        T::of_body(body).valid_body(),
        received.data@ == hdr.wire() + body,
        received.failure is None,
    ensures
        body_of::<H, T, F>(received) == Ok::<_, Error>((hdr, T::of_body(body), received.files)),
{
    hdr.lemma_header(0);
    let start = H::wire_size() as int;
    assert(received.data@.subrange(0, start) =~= hdr.wire());
    assert(received.data@.subrange(start, start + T::body_size()) =~= body);
}

/// A receiver of a header and whatever follows gets back the header, the number of bytes that
/// follow, and in the front of its buffer these bytes.
pub proof fn law_buffer_comes_back<H: MsgHeader, F>(
    hdr: H,
    content: Seq<u8>,
    received: Received<F>,
    buf: Seq<u8>,
)
    requires
        hdr.valid(),
        received.data@ == hdr.wire() + content,
        received.failure is None,
        content.len() <= buf.len(),
        content.len() <= usize::MAX,
    ensures
        buffer_of::<H, F>(received) == Ok::<_, Error>(
            (hdr, content.len() as usize, received.files),
        ),
        buffer::filled(buf, buffer::tail_from(received.data@, H::wire_size() as int)).take(
            content.len() as int,
        ) == content,
{
    hdr.lemma_header(0);
    let start = H::wire_size() as int;
    assert(received.data@.subrange(0, start) =~= hdr.wire());
    assert(buffer::tail_from(received.data@, start) =~= content);
    assert(buffer::filled(buf, content).take(content.len() as int) =~= content);
}

/// A receiver of a header, a body and whatever follows gets back all three as they were sent.
pub proof fn law_payload_comes_back<H: MsgHeader, T: MsgBody, F>(
    hdr: H,
    body: Seq<u8>,
    payload: Seq<u8>,
    received: Received<F>,
    buf: Seq<u8>,
)
    requires
        hdr.valid(),
        body.len() == T::body_size(),
        T::of_body(body).valid_body(),
        received.data@ == hdr.wire() + body + payload,
        received.failure is None,
        payload.len() <= buf.len(),
        payload.len() <= usize::MAX,
    ensures
        payload_of::<H, T, F>(received) == Ok::<_, Error>(
            (hdr, T::of_body(body), payload.len() as usize, received.files),
        ),
        buffer::filled(
            buf,
            buffer::tail_from(received.data@, (H::wire_size() + T::body_size()) as int),
        ).take(payload.len() as int) == payload,
{
    hdr.lemma_header(0);
    let start = H::wire_size() as int;
    let end = start + T::body_size();
    assert(received.data@.subrange(0, start) =~= hdr.wire());
    assert(received.data@.subrange(start, end) =~= body);
    assert(buffer::tail_from(received.data@, end) =~= payload);
    assert(buffer::filled(buf, payload).take(payload.len() as int) =~= payload);
}

/// A message that is sent comes back: a receiver of a header and a body that gets the bytes of the
/// message, however the socket splits them up and however often it asks to try again, ends with
/// the header and the body that were sent, and with the objects that came with the first bytes.
pub proof fn law_message_comes_back<H: MsgHeader, T: MsgBody, F>(
    hdr: H,
    body: Seq<u8>,
    outcomes: Seq<Result<(Vec<u8>, Option<Vec<F>>), Error>>,
    received: Received<F>,
)
    requires
        hdr.valid(),
        body.len() == T::body_size(),
        T::of_body(body).valid_body(),
        forall|i: int| 0 <= i < outcomes.len() ==> brings_bytes(#[trigger] outcomes[i]),
        stream_bytes(outcomes) == hdr.wire() + body,
        received@ == after_receives(
            (H::wire_size() + T::body_size()) as int,
            (Seq::empty(), None, None),
            outcomes,
        ).0,
    ensures
        body_of::<H, T, F>(received) == Ok::<_, Error>(
            (hdr, T::of_body(body), first_objects(outcomes)),
        ),
{
    H::lemma_sizes();
    hdr.lemma_header(0);
    let total = (H::wire_size() + T::body_size()) as int;
    law_receives_assemble_the_message(total, (Seq::empty(), None, None), outcomes);
    assert(Seq::<u8>::empty() + stream_bytes(outcomes) =~= hdr.wire() + body);
    law_body_comes_back::<H, T, F>(hdr, body, received);
}

/// What the answer of a socket means to a receiver. Bytes are kept behind those that came before,
/// and the receiver is done when it has all. The objects that count are those of the first bytes.
/// No bytes are the end of the stream. An answer that asks to try again changes nothing. Any other
/// failure is kept, and ends the transfer.
pub proof fn law_receive_answers<F>(
    total: int,
    held: ReceivedView<F>,
    outcome: Result<(Vec<u8>, Option<Vec<F>>), Error>,
)
    requires
        held.0.len() < total,
        outcome matches Ok((bytes, _)) ==> held.0.len() + bytes@.len() <= total,
    ensures
        ({
            let (now, step) = after_receive(total, held, outcome);
            match outcome {
                Ok((bytes, files)) => {
                    &&& now.0 == held.0 + bytes@
                    &&& now.2 == held.2
                    &&& bytes@.len() > 0 && held.0.len() == 0 ==> now.1 == files
                    &&& bytes@.len() == 0 || held.0.len() > 0 ==> now.1 == held.1
                    &&& step is Done <==> bytes@.len() == 0 || now.0.len() == total
                },
                Err(error) => {
                    &&& now.0 == held.0
                    &&& now.1 == held.1
                    &&& step is Continue <==> error is SocketRetry
                    &&& error is SocketRetry ==> now.2 == held.2
                    &&& !(error is SocketRetry) ==> now.2 == Some(error)
                },
            }
        }),
{
    if let Ok((bytes, _)) = outcome {
        assert(bytes@.len() == 0 ==> held.0 + bytes@ =~= held.0);
    }
}

/// A header is received exactly where the socket did not fail, all of it came, and the protocol
/// knows it. Otherwise the report says which of these was the first not to hold.
pub proof fn law_headers_are_received<H: MsgHeader, F>(
    received: Received<F>,
    header: Result<(H, Option<Vec<F>>), Error>,
)
    requires
        call_ensures(Endpoint::<H>::recv_header::<F>, (received,), header),
    ensures
        ({
            let data = received.data@;
            let whole = received.failure is None && data.len() == H::wire_size() && data.len() > 0;
            &&& header is Ok <==> whole && H::of_wire(data).valid()
            &&& header matches Ok((hdr, files)) ==> hdr == H::of_wire(data) && files
                == received.files
            &&& header matches Err(error) ==> {
                &&& received.failure matches Some(failure) ==> error == failure
                &&& received.failure is None && data.len() == 0 ==> error == Error::Disconnected
                &&& received.failure is None && data.len() > 0 && !whole ==> error
                    == Error::PartialMessage
                &&& whole ==> error == Error::InvalidMessage
            }
        }),
{
}

/// A header and a body are received exactly where the socket did not fail, all of both came and no
/// more, and the protocol allows both. Otherwise the report says which of these was the first not
/// to hold.
pub proof fn law_bodies_are_received<H: MsgHeader, T: MsgBody, F>(
    received: Received<F>,
    message: Result<(H, T, Option<Vec<F>>), Error>,
)
    requires
        call_ensures(Endpoint::<H>::recv_body::<T, F>, (received,), message),
    ensures
        ({
            let start = H::wire_size() as int;
            let end = start + T::body_size();
            let hdr = H::of_wire(received.data@.subrange(0, start));
            let body = T::of_body(received.data@.subrange(start, end));
            let whole = received.failure is None && received.data@.len() == end;
            &&& message is Ok <==> whole && hdr.valid() && body.valid_body()
            &&& message matches Ok((h, b, files)) ==> h == hdr && b == body && files
                == received.files
            &&& message matches Err(error) ==> {
                &&& received.failure matches Some(failure) ==> error == failure
                &&& received.failure is None && !whole ==> error == Error::PartialMessage
                &&& whole ==> error == Error::InvalidMessage
            }
        }),
{
}

/// A header and what follows it are received exactly where the socket did not fail, all of the
/// header came, and the protocol knows it. The number that is reported is that of the bytes behind
/// the header.
pub proof fn law_buffers_are_received<H: MsgHeader, F>(received: Received<F>)
    ensures
        ({
            let start = H::wire_size() as int;
            let message = buffer_of::<H, F>(received);
            let hdr = H::of_wire(received.data@.subrange(0, start));
            let whole = received.failure is None && received.data@.len() >= start;
            &&& message is Ok <==> whole && hdr.valid()
            &&& message matches Ok((h, n, files)) ==> {
                &&& h == hdr
                &&& received.data@.len() <= usize::MAX ==> start + n == received.data@.len()
                &&& files == received.files
            }
            &&& message matches Err(error) ==> {
                &&& received.failure matches Some(failure) ==> error == failure
                &&& received.failure is None && !whole ==> error == Error::PartialMessage
                &&& whole ==> error == Error::InvalidMessage
            }
        }),
{
}

/// A header, a body and what follows them are received exactly where the socket did not fail, all
/// of header and body came, and the protocol allows both. The number that is reported is that of
/// the bytes behind them.
pub proof fn law_payloads_are_received<H: MsgHeader, T: MsgBody, F>(received: Received<F>)
    ensures
        ({
            let start = H::wire_size() as int;
            let end = start + T::body_size();
            let message = payload_of::<H, T, F>(received);
            let hdr = H::of_wire(received.data@.subrange(0, start));
            let body = T::of_body(received.data@.subrange(start, end));
            let whole = received.failure is None && received.data@.len() >= end;
            &&& message is Ok <==> whole && hdr.valid() && body.valid_body()
            &&& message matches Ok((h, b, n, files)) ==> {
                &&& h == hdr
                &&& b == body
                &&& received.data@.len() <= usize::MAX ==> end + n == received.data@.len()
                &&& files == received.files
            }
            &&& message matches Err(error) ==> {
                &&& received.failure matches Some(failure) ==> error == failure
                &&& received.failure is None && !whole ==> error == Error::PartialMessage
                &&& whole ==> error == Error::InvalidMessage
            }
        }),
{
}

/// Descriptors are accepted as they came, from the first on: as many as there are, but no more than
/// the array holds and no more than one message may carry.
pub proof fn law_descriptors_are_accepted_from_the_first<H: MsgHeader>(
    bytes: Vec<u8>,
    fds: usize,
    fd_array: &[RawDescriptor],
    received: Result<(Vec<u8>, Option<Vec<RawDescriptor>>), Error>,
)
    requires
        call_ensures(Endpoint::<H>::recv_into_iovec, (Ok((bytes, fds)), fd_array), received),
    ensures
        received matches Ok((data, files)) && data == bytes && (files is None <==> fds == 0) && (
        files matches Some(files) ==> {
            &&& files@.len() <= fds && files@.len() <= fd_array@.len() && files@.len() <= 32
            &&& files@.len() == fds || files@.len() == fd_array@.len() || files@.len() == 32
            &&& forall|i: int| 0 <= i < files@.len() ==> #[trigger] files@[i] == fd_array@[i]
        }),
{
}

/// What is left to receive into is the rest of the vector that the transfer stands in, and the
/// vectors behind it.
pub proof fn law_vectors_are_filled_in_order(lens: Seq<usize>, index: int, offset: int)
    requires
        0 <= index < lens.len(),
        0 <= offset <= lens[index],
    ensures
        ({
            let left = lens_from(lens, index, offset);
            &&& left.len() == lens.len() - index
            &&& left[0] + offset == lens[index]
            &&& left.drop_first() == lens.skip(index + 1)
        }),
{
    assert(lens_from(lens, index, offset).drop_first() =~= lens.skip(index + 1));
}

} // verus!
