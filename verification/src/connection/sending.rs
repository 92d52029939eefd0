//! Sending a message, however many attempts it takes.

use vstd::prelude::*;
use vstd::slice::slice_subrange;

use crate::connection;
use crate::connection::{get_sub_iovs_offset, RawDescriptor};
use crate::error::Error;

verus! {

/// The lengths of the parts of a message.
pub open spec fn part_lens(parts: Seq<Seq<u8>>) -> Seq<usize> {
    parts.map_values(|part: Seq<u8>| part.len() as usize)
}

/// The parts from byte `offset` of part `index` on.
pub open spec fn parts_from(parts: Seq<Seq<u8>>, index: int, offset: int) -> Seq<Seq<u8>> {
    seq![parts[index].skip(offset)] + parts.skip(index + 1)
}

proof fn lemma_flatten_split(parts: Seq<Seq<u8>>, index: int)
    requires
        0 <= index <= parts.len(),
    ensures
        parts.flatten() == parts.take(index).flatten() + parts.skip(index).flatten(),
    decreases index,
{
    if index == 0 {
        assert(parts.skip(0) =~= parts);
        assert(parts.take(0).flatten() =~= Seq::<u8>::empty());
    } else {
        let rest = parts.drop_first();
        lemma_flatten_split(rest, index - 1);
        assert(rest.take(index - 1) =~= parts.take(index).drop_first());
        assert(rest.skip(index - 1) =~= parts.skip(index));
        assert(parts.take(index).first() == parts.first());
        assert(parts.flatten() =~= parts.take(index).flatten() + parts.skip(
            index,
        ).flatten());
    }
}

proof fn lemma_flatten_len(parts: Seq<Seq<u8>>, lens: Seq<usize>)
    requires
        lens.len() == parts.len(),
        forall|i: int| 0 <= i < parts.len() ==> lens[i] == #[trigger] parts[i].len(),
    ensures
        parts.flatten().len() == connection::total_len(lens),
    decreases parts.len(),
{
    if parts.len() > 0 {
        lemma_flatten_len(parts.drop_last(), lens.drop_last());
        parts.drop_last().lemma_flatten_push(parts.last());
        assert(parts.drop_last().push(parts.last()) =~= parts);
    }
}

/// What is left of a message after its first `skip` bytes is what the parts from there on hold.
proof fn lemma_parts_from(parts: Seq<Seq<u8>>, lens: Seq<usize>, skip: int, index: int, offset: int)
    requires
        lens.len() == parts.len(),
        forall|i: int| 0 <= i < parts.len() ==> lens[i] == #[trigger] parts[i].len(),
        connection::is_sub_offset(lens, skip, index, offset),
        skip < parts.flatten().len(),
    ensures
        0 <= index < parts.len(),
        parts_from(parts, index, offset).flatten() == parts.flatten().skip(skip),
{
    lemma_flatten_len(parts, lens);
    if index == parts.len() {
        assert(lens.take(index) =~= lens);
    }
    lemma_flatten_split(parts, index);
    lemma_flatten_len(parts.take(index), lens.take(index));
    let tail = parts.skip(index);
    assert(tail.drop_first() =~= parts.skip(index + 1));
    assert(tail.flatten() == parts[index] + parts.skip(index + 1).flatten());
    let from = parts_from(parts, index, offset);
    assert(from.first() == parts[index].skip(offset));
    assert(from.drop_first() =~= parts.skip(index + 1));
    assert(from.flatten() == parts[index].skip(offset) + parts.skip(
        index + 1,
    ).flatten());
    assert(parts.flatten().skip(skip) =~= from.flatten());
}

/// What is to be sent next: the vectors, and the objects that go with them.
pub struct SendIovec<'a> {
    pub iovs: Vec<&'a [u8]>,
    pub fds: Option<&'a [RawDescriptor]>,
}

/// What follows from an attempt to send.
pub enum SendStep {
    /// There is more to send.
    Continue,
    /// The transfer is over, with this many bytes sent.
    Done(usize),
    /// The transfer failed.
    Failed(Error),
}

/// The answer that a socket gave to an attempt to send, and where it leaves the transfer: the
/// number of bytes sent so far, and what follows.
pub open spec fn after_send(total: int, sent: int, outcome: Result<usize, Error>) -> (
    int,
    SendStep,
) {
    match outcome {
        Ok(n) => if n == 0 {
            (sent, SendStep::Done(sent as usize))
        } else if sent + n == total {
            (total, SendStep::Done(total as usize))
        } else {
            (sent + n, SendStep::Continue)
        },
        Err(Error::SocketRetry(_)) => (sent, SendStep::Continue),
        Err(error) => (sent, SendStep::Failed(error)),
    }
}

/// A message on its way out.
///
/// The caller sends what `next` says and reports the outcome to `on_sent`, until either says
/// that the transfer is over. The attached objects go with the first byte.
pub struct Sending {
    iovs: Vec<Vec<u8>>,
    iov_lens: Vec<usize>,
    fds: Option<Vec<RawDescriptor>>,
    data_total: usize,
    data_sent: usize,
}

impl Sending {
    /// The parts of the message.
    pub closed spec fn parts(self) -> Seq<Seq<u8>> {
        self.iovs.deep_view()
    }

    /// The objects that go with the message.
    pub closed spec fn attached(self) -> Option<Seq<RawDescriptor>> {
        match self.fds {
            Some(fds) => Some(fds@),
            None => None,
        }
    }

    /// The number of bytes sent so far.
    pub closed spec fn sent(self) -> int {
        self.data_sent as int
    }

    /// The bytes of the message.
    pub open spec fn data(self) -> Seq<u8> {
        self.parts().flatten()
    }

    #[verifier::type_invariant]
    spec fn inv(self) -> bool {
        &&& self.iov_lens@.len() == self.parts().len()
        &&& forall|i: int|
            0 <= i < self.parts().len() ==> self.iov_lens@[i] == #[trigger] self.parts()[i].len()
        &&& self.data_total == self.data().len()
        &&& self.data_sent <= self.data_total
    }

    /// Starts to send the bytes of `iovs`, one after the other, with `fds` attached.
    pub(crate) fn new(iovs: Vec<Vec<u8>>, fds: Option<Vec<RawDescriptor>>) -> (sending: Sending)
        requires
            iovs.deep_view().flatten().len() <= usize::MAX,
        ensures
            sending.parts() == iovs.deep_view(),
            sending.attached() == match fds {
                Some(fds) => Some(fds@),
                None => None,
            },
            sending.sent() == 0,
    {
        let ghost parts = iovs.deep_view();
        let mut iov_lens: Vec<usize> = Vec::new();
        let mut data_total: usize = 0;
        let mut i: usize = 0;
        while i < iovs.len()
            invariant
                parts == iovs.deep_view(),
                i <= iovs@.len(),
                iov_lens@.len() == i,
                forall|j: int| 0 <= j < i ==> iov_lens@[j] == #[trigger] parts[j].len(),
                data_total == connection::total_len(iov_lens@),
                parts.flatten().len() <= usize::MAX,
            decreases iovs@.len() - i,
        {
            proof {
                assert(parts[i as int] == iovs@[i as int]@);
                lemma_flatten_split(parts, i as int);
                lemma_flatten_len(parts.take(i as int), iov_lens@);
                let tail = parts.skip(i as int);
                assert(tail.flatten() == tail.first() + tail.drop_first().flatten());
            }
            let len: usize = iovs[i].len();
            data_total = data_total + len;
            let ghost before = iov_lens@;
            iov_lens.push(len);
            assert(iov_lens@.drop_last() =~= before);
            i = i + 1;
        }
        proof {
            lemma_flatten_len(parts, iov_lens@);
        }
        Sending { iovs, iov_lens, fds, data_total, data_sent: 0 }
    }

    /// The number of bytes of the message.
    pub fn total(&self) -> (total: usize)
        ensures
            total == self.data().len(),
    {
        proof {
            use_type_invariant(self);
        }
        self.data_total
    }

    /// The number of bytes sent so far.
    pub fn bytes_sent(&self) -> (sent: usize)
        ensures
            sent == self.sent(),
            sent <= self.data().len(),
    {
        proof {
            use_type_invariant(self);
        }
        self.data_sent
    }

    /// What to send next, or `None` when everything is sent.
    ///
    /// The objects are attached until a byte of the message has been sent.
    pub fn next(&self) -> (next: Option<SendIovec<'_>>)
        ensures
            match next {
                None => self.sent() == self.data().len(),
                Some(send) => {
                    &&& self.sent() < self.data().len()
                    &&& send.iovs.deep_view().flatten() == self.data().skip(self.sent())
                    &&& exists|index: int, offset: int|
                        connection::is_sub_offset(
                            part_lens(self.parts()),
                            self.sent(),
                            index,
                            offset,
                        ) && send.iovs.deep_view() == #[trigger] parts_from(
                            self.parts(),
                            index,
                            offset,
                        )
                    &&& match send.fds {
                        Some(fds) => self.sent() == 0 && self.attached() == Some(fds@),
                        None => self.sent() > 0 || self.attached() is None,
                    }
                },
            },
    {
        proof {
            use_type_invariant(self);
        }
        if self.data_total - self.data_sent == 0 {
            return None;
        }
        let (nr_skip, offset) = get_sub_iovs_offset(self.iov_lens.as_slice(), self.data_sent);
        proof {
            lemma_parts_from(
                self.parts(),
                self.iov_lens@,
                self.sent(),
                nr_skip as int,
                offset as int,
            );
            assert(part_lens(self.parts()) =~= self.iov_lens@);
        }
        let ghost parts = self.parts();
        assert(parts[nr_skip as int] == self.iovs@[nr_skip as int]@);
        let mut iovs: Vec<&[u8]> = Vec::new();
        iovs.push(slice_subrange(self.iovs[nr_skip].as_slice(), offset, self.iovs[nr_skip].len()));
        assert(parts[nr_skip as int].subrange(offset as int, parts[nr_skip as int].len() as int)
            =~= parts[nr_skip as int].skip(offset as int));
        let count: usize = self.iovs.len();
        let mut i: usize = nr_skip + 1;
        while i < count
            invariant
                parts == self.iovs.deep_view(),
                count == self.iovs@.len(),
                nr_skip < i <= count,
                iovs@.len() == i - nr_skip,
                iovs@[0]@ == parts[nr_skip as int].skip(offset as int),
                forall|j: int|
                    1 <= j < iovs@.len() ==> (#[trigger] iovs@[j])@ == parts[nr_skip + j],
            decreases count - i,
        {
            assert(parts[i as int] == self.iovs@[i as int]@);
            iovs.push(self.iovs[i].as_slice());
            i = i + 1;
        }
        proof {
            let from = parts_from(parts, nr_skip as int, offset as int);
            assert forall|j: int| 0 <= j < iovs@.len() implies #[trigger] iovs.deep_view()[j]
                == from[j] by {
                assert(iovs.deep_view()[j] =~= iovs@[j]@);
            }
            assert(iovs.deep_view() =~= from);
        }
        let fds = if self.data_sent == 0 {
            match &self.fds {
                Some(fds) => Some(fds.as_slice()),
                None => None,
            }
        } else {
            None
        };
        Some(SendIovec { iovs, fds })
    }

    /// Takes note of the outcome of an attempt to send what `next` said.
    pub fn on_sent(&mut self, outcome: Result<usize, Error>) -> (step: SendStep)
        requires
            outcome matches Ok(n) ==> old(self).sent() + n <= old(self).data().len(),
        ensures
            final(self).parts() == old(self).parts(),
            final(self).attached() == old(self).attached(),
            (final(self).sent(), step) == after_send(
                old(self).data().len() as int,
                old(self).sent(),
                outcome,
            ),
    {
        proof {
            use_type_invariant(&*self);
        }
        match outcome {
            Ok(n) => {
                if n == 0 {
                    return SendStep::Done(self.data_sent);
                }
                self.data_sent = self.data_sent + n;
                if self.data_sent == self.data_total {
                    SendStep::Done(self.data_sent)
                } else {
                    SendStep::Continue
                }
            },
            Err(Error::SocketRetry(_)) => SendStep::Continue,
            Err(error) => SendStep::Failed(error),
        }
    }

    /// Judges a transfer that is over: it has to have sent the whole message.
    pub fn finish(&self, sent: usize) -> (result: Result<(), Error>)
        ensures
            result == if sent == self.data().len() {
                Ok::<(), Error>(())
            } else {
                Err(Error::PartialMessage)
            },
    {
        proof {
            use_type_invariant(self);
        }
        if sent != self.data_total {
            return Err(Error::PartialMessage);
        }
        Ok(())
    }
}

/// The outcomes are ones that a socket can give: none sends more than it was offered.
pub open spec fn possible_sends(total: int, sent: int, outcomes: Seq<Result<usize, Error>>) -> bool
    decreases outcomes.len(),
{
    outcomes.len() > 0 ==> {
        &&& outcomes.first() matches Ok(n) ==> sent + n <= total
        &&& after_send(total, sent, outcomes.first()).1 is Continue ==> possible_sends(
            total,
            after_send(total, sent, outcomes.first()).0,
            outcomes.drop_first(),
        )
    }
}

/// Where a sequence of outcomes leaves a transfer. What comes after its end is not asked for.
pub open spec fn after_sends(total: int, sent: int, outcomes: Seq<Result<usize, Error>>) -> (
    int,
    SendStep,
)
    decreases outcomes.len(),
{
    if outcomes.len() == 0 {
        (sent, SendStep::Continue)
    } else {
        let (now, step) = after_send(total, sent, outcomes.first());
        if step is Continue {
            after_sends(total, now, outcomes.drop_first())
        } else {
            (now, step)
        }
    }
}

/// The bytes that the socket took: of every offer, the front that the outcome counts.
pub open spec fn bytes_taken(data: Seq<u8>, sent: int, outcomes: Seq<Result<usize, Error>>) -> Seq<
    u8,
>
    decreases outcomes.len(),
{
    if outcomes.len() == 0 {
        Seq::empty()
    } else {
        let taken = match outcomes.first() {
            Ok(n) => data.skip(sent).take(n as int),
            Err(_) => Seq::empty(),
        };
        let (now, step) = after_send(data.len() as int, sent, outcomes.first());
        if step is Continue {
            taken + bytes_taken(data, now, outcomes.drop_first())
        } else {
            taken
        }
    }
}

/// The number of times that bytes were taken while the objects were attached.
pub open spec fn object_deliveries(
    total: int,
    sent: int,
    outcomes: Seq<Result<usize, Error>>,
) -> nat
    decreases outcomes.len(),
{
    if outcomes.len() == 0 {
        0
    } else {
        let here: nat = if sent == 0 && (outcomes.first() matches Ok(n) && n > 0) {
            1
        } else {
            0
        };
        let (now, step) = after_send(total, sent, outcomes.first());
        if step is Continue {
            here + object_deliveries(total, now, outcomes.drop_first())
        } else {
            here
        }
    }
}

/// However the socket splits a transfer up, the bytes that it takes are the message from where
/// the transfer stood to where it stands afterwards: none is lost, repeated or out of order.
pub proof fn law_sends_deliver_the_message(
    data: Seq<u8>,
    sent: int,
    outcomes: Seq<Result<usize, Error>>,
)
    requires
        0 <= sent <= data.len(),
        possible_sends(data.len() as int, sent, outcomes),
    ensures
        sent <= after_sends(data.len() as int, sent, outcomes).0 <= data.len(),
        bytes_taken(data, sent, outcomes) == data.subrange(
            sent,
            after_sends(data.len() as int, sent, outcomes).0,
        ),
    decreases outcomes.len(),
{
    let total = data.len() as int;
    if outcomes.len() > 0 {
        let (now, step) = after_send(total, sent, outcomes.first());
        let end = after_sends(total, sent, outcomes).0;
        if step is Continue {
            law_sends_deliver_the_message(data, now, outcomes.drop_first());
        }
        assert(bytes_taken(data, sent, outcomes) =~= data.subrange(sent, end));
    } else {
        assert(bytes_taken(data, sent, outcomes) =~= data.subrange(sent, sent));
    }
}

/// A transfer that ends well reports the number of bytes that were sent, and this is the whole
/// message unless the socket took nothing when it was last asked.
pub proof fn law_sends_report_what_was_sent(
    total: int,
    sent: int,
    outcomes: Seq<Result<usize, Error>>,
)
    requires
        0 <= sent < total <= usize::MAX,
        possible_sends(total, sent, outcomes),
        after_sends(total, sent, outcomes).1 is Done,
    ensures
        after_sends(total, sent, outcomes).1 == SendStep::Done(
            after_sends(total, sent, outcomes).0 as usize,
        ),
        after_sends(total, sent, outcomes).0 == total || outcomes.contains(Ok(0)),
    decreases outcomes.len(),
{
    let (now, step) = after_send(total, sent, outcomes.first());
    if step is Continue {
        let rest = outcomes.drop_first();
        law_sends_report_what_was_sent(total, now, rest);
        if rest.contains(Ok(0)) {
            let i = rest.index_of(Ok(0));
            assert(outcomes[i + 1] == rest[i]);
        }
    } else if outcomes.first() == Ok::<usize, Error>(0) {
        assert(outcomes[0] == Ok::<usize, Error>(0));
    }
}

/// The objects of a message go with its first byte and with no other: they are delivered once
/// where a byte was sent, and never where none was.
pub proof fn law_objects_are_delivered_once(
    total: int,
    sent: int,
    outcomes: Seq<Result<usize, Error>>,
)
    requires
        0 <= sent <= total,
        possible_sends(total, sent, outcomes),
    ensures
        object_deliveries(total, sent, outcomes) == if sent == 0 && after_sends(
            total,
            sent,
            outcomes,
        ).0 > 0 {
            1nat
        } else {
            0nat
        },
        sent <= after_sends(total, sent, outcomes).0,
    decreases outcomes.len(),
{
    if outcomes.len() > 0 {
        let (now, step) = after_send(total, sent, outcomes.first());
        if step is Continue {
            law_objects_are_delivered_once(total, now, outcomes.drop_first());
        }
    }
}

/// Byte `skip` of a message is byte `offset` of its part `index`, where these name the place of the
/// byte.
pub proof fn law_sub_offset_names_the_byte(
    parts: Seq<Seq<u8>>,
    lens: Seq<usize>,
    skip: int,
    index: int,
    offset: int,
)
    requires
        lens.len() == parts.len(),
        forall|i: int| 0 <= i < parts.len() ==> lens[i] == #[trigger] parts[i].len(),
        connection::is_sub_offset(lens, skip, index, offset),
        skip < parts.flatten().len(),
    ensures
        0 <= skip,
        0 <= index < parts.len(),
        0 <= offset < parts[index].len(),
        parts.flatten()[skip] == parts[index][offset],
{
    lemma_parts_from(parts, lens, skip, index, offset);
    assert(lens[index] == parts[index].len());
    let from = parts_from(parts, index, offset);
    assert(from.first() == parts[index].skip(offset));
    assert(from.flatten() == from.first() + from.drop_first().flatten());
    assert(from.flatten()[0] == parts[index][offset]);
    assert(parts.flatten().skip(skip)[0] == parts.flatten()[skip]);
}

/// What the answer of a socket means to a transfer. A socket that took bytes moves it on by so
/// many, and it is done when there are no more. One that took none ends it where it stands. One
/// that asks to try again leaves it where it stands. Any other failure ends it with that failure.
pub proof fn law_send_answers(total: int, sent: int, outcome: Result<usize, Error>)
    requires
        0 <= sent < total <= usize::MAX,
        outcome matches Ok(n) ==> sent + n <= total,
    ensures
        after_send(total, sent, outcome).0 - sent == match outcome {
            Ok(n) => n as int,
            Err(_) => 0,
        },
        match after_send(total, sent, outcome).1 {
            SendStep::Continue => {
                ||| outcome matches Ok(n) && 0 < n < total - sent
                ||| outcome matches Err(error) && error is SocketRetry
            },
            SendStep::Done(reported) => {
                &&& outcome matches Ok(n) && (n == 0 || n == total - sent)
                &&& reported == after_send(total, sent, outcome).0
            },
            SendStep::Failed(error) => {
                &&& outcome == Err::<usize, Error>(error)
                &&& !(error is SocketRetry)
            },
        },
{
}

/// What is offered to the socket is what is left of the message, and there is nothing to offer
/// exactly where all of it is sent. The objects are offered with it exactly until a byte has been
/// sent.
pub proof fn law_the_rest_is_offered(sending: &Sending, next: Option<SendIovec<'_>>)
    requires
        call_ensures(Sending::next, (sending,), next),
        0 <= sending.sent() <= sending.data().len(),
    ensures
        next is None <==> sending.sent() == sending.data().len(),
        next matches Some(send) ==> {
            &&& sending.data().take(sending.sent()) + send.iovs.deep_view().flatten()
                == sending.data()
            &&& send.fds is Some <==> sending.sent() == 0 && sending.attached() is Some
            &&& send.fds matches Some(fds) ==> sending.attached() == Some(fds@)
        },
{
    if next is Some {
        assert(sending.data().take(sending.sent()) + sending.data().skip(sending.sent())
            =~= sending.data());
    }
}

/// A transfer that is over was a success exactly where the whole message was sent, and is a partial
/// message otherwise.
pub proof fn law_only_whole_messages_are_sent(
    sending: &Sending,
    sent: usize,
    result: Result<(), Error>,
)
    requires
        call_ensures(Sending::finish, (sending, sent), result),
    ensures
        result is Ok <==> sent == sending.data().len(),
        result matches Err(error) ==> error == Error::PartialMessage,
{
}

/// The lengths of the parts of a message are those of its parts, each of its own.
pub proof fn law_parts_have_their_lengths(parts: Seq<Seq<u8>>, i: int)
    requires
        0 <= i < parts.len(),
    ensures
        part_lens(parts).len() == parts.len(),
        part_lens(parts)[i] == parts[i].len() as usize,
{
}

} // verus!
