//! Passing objects on Windows: handle records at the end of a message.
//!
//! Windows sockets carry no objects beside the byte stream. Where a POSIX peer attaches
//! descriptors to a message, handle values are appended to its payload, one record for each, and
//! the size in the header covers them. There is no count on the wire: the request implies it.
//!
//! Every handle value on the wire is relative to the backend process, in both directions. The
//! frontend duplicates what it sends into the backend, which adopts the values as they are; and
//! it pulls what it receives out of the backend.

use vstd::prelude::*;
use vstd::slice::{slice_subrange, slice_to_vec};

use crate::bytes;
use crate::connection::RawDescriptor;
use crate::error::{Error, IoError};

verus! {

/// Size of a single handle record in a message trailer.
pub const VHOST_USER_WIN32_HANDLE_RECORD_SIZE: usize = 8;

/// The trailer that names the handle values `values`, in this order.
pub open spec fn records(values: Seq<u64>) -> Seq<u8>
    decreases values.len(),
{
    if values.len() == 0 {
        Seq::empty()
    } else {
        records(values.drop_last()) + bytes::le_bytes(values.last() as nat, 8)
    }
}

/// The handle values that `trailer` names, in this order.
pub open spec fn record_values(trailer: Seq<u8>) -> Seq<u64> {
    Seq::new(
        trailer.len() / 8,
        |i: int| bytes::le_value(trailer.subrange(8 * i, 8 * i + 8)) as u64,
    )
}

/// A trailer has one record for every value, and reading it gives the values in their order.
pub proof fn law_records_read_back(values: Seq<u64>)
    ensures
        records(values).len() == 8 * values.len(),
        record_values(records(values)) == values,
    decreases values.len(),
{
    if values.len() > 0 {
        let front = values.drop_last();
        law_records_read_back(front);
        bytes::lemma_byte_ranges();
        bytes::lemma_le_value_of_bytes(values.last() as nat, 8);
        let trailer = records(values);
        assert forall|i: int| 0 <= i < values.len() implies bytes::le_value(
            trailer.subrange(8 * i, 8 * i + 8),
        ) as u64 == values[i] by {
            if i < front.len() {
                assert(trailer.subrange(8 * i, 8 * i + 8) =~= records(front).subrange(
                    8 * i,
                    8 * i + 8,
                ));
                assert(record_values(records(front))[i] == front[i]);
            } else {
                assert(trailer.subrange(8 * i, 8 * i + 8) =~= bytes::le_bytes(
                    values.last() as nat,
                    8,
                ));
            }
        }
    }
    assert(record_values(records(values)) =~= values);
}

/// A trailer of whole records is the one that its values give: nothing is lost in reading it.
pub proof fn law_records_write_back(trailer: Seq<u8>)
    requires
        trailer.len() % 8 == 0,
    ensures
        records(record_values(trailer)) == trailer,
    decreases trailer.len(),
{
    if trailer.len() > 0 {
        let split = trailer.len() - 8;
        let front = trailer.take(split);
        law_records_write_back(front);
        let values = record_values(trailer);
        assert forall|i: int| 0 <= i < values.len() - 1 implies values[i] == record_values(
            front,
        )[i] by {
            assert(trailer.subrange(8 * i, 8 * i + 8) =~= front.subrange(8 * i, 8 * i + 8));
        }
        assert(values.drop_last() =~= record_values(front));
        let last = trailer.subrange(split, split + 8);
        bytes::lemma_byte_ranges();
        bytes::lemma_le_bytes_of_value(last);
        assert(records(values) =~= front + last);
        assert(front + last =~= trailer);
    } else {
        assert(records(record_values(trailer)) =~= trailer);
    }
}

/// Values as this machine keeps handles.
pub open spec fn as_handles(values: Seq<u64>) -> Seq<usize> {
    Seq::new(values.len(), |i: int| values[i] as usize)
}

/// Handles of this machine as values on the wire.
pub open spec fn as_values(handles: Seq<usize>) -> Seq<u64> {
    Seq::new(handles.len(), |i: int| handles[i] as u64)
}

fn read_records(trailer: &[u8]) -> (values: Vec<u64>)
    ensures
        values@ == record_values(trailer@),
{
    let count: usize = trailer.len() / 8;
    let mut values: Vec<u64> = Vec::new();
    while values.len() < count
        invariant
            count == trailer@.len() / 8,
            trailer@.len() <= usize::MAX,
            values@.len() <= count,
            forall|i: int| 0 <= i < values@.len() ==> values@[i] == record_values(trailer@)[i],
        decreases count - values@.len(),
    {
        let i: usize = values.len();
        values.push(bytes::u64_from_le(slice_subrange(trailer, 8 * i, 8 * i + 8)));
    }
    assert(values@ =~= record_values(trailer@));
    values
}

/// What to do next to take the objects that a trailer names.
pub enum TakeStep {
    /// Take the handle of this value as it is, if it is live here.
    Adopt(usize),
    /// There is no such handle: report the error of the system.
    Refuse,
    /// Move the handle of this value over from the peer process, and close it there.
    Pull(usize),
    /// All are taken.
    Done,
}

/// The objects of a message on their way in.
///
/// The caller does what `next` says and reports the outcome to `on_taken`, until an error comes
/// or all are taken.
pub struct TakingHandles<F> {
    peer: bool,
    base: Vec<u8>,
    values: Vec<u64>,
    files: Vec<F>,
}

impl<F> TakingHandles<F> {
    /// The objects come out of the peer process.
    pub closed spec fn from_peer(self) -> bool {
        self.peer
    }

    /// The payload without the trailer.
    pub closed spec fn payload(self) -> Seq<u8> {
        self.base@
    }

    /// The handle values that the trailer names.
    pub closed spec fn named(self) -> Seq<u64> {
        self.values@
    }

    /// The objects taken so far.
    pub closed spec fn taken(self) -> Seq<F> {
        self.files@
    }

    #[verifier::type_invariant]
    spec fn inv(self) -> bool {
        self.files@.len() <= self.values@.len()
    }

    /// What comes next, given the state of the transfer.
    pub open spec fn step(from_peer: bool, named: Seq<u64>, taken: int) -> TakeStep {
        if taken == named.len() {
            TakeStep::Done
        } else if from_peer {
            TakeStep::Pull(named[taken] as usize)
        } else if named[taken] as usize == 0 {
            TakeStep::Refuse
        } else {
            TakeStep::Adopt(named[taken] as usize)
        }
    }

    /// What to do next.
    pub fn next(&self) -> (step: TakeStep)
        ensures
            step == Self::step(self.from_peer(), self.named(), self.taken().len() as int),
            self.taken().len() <= self.named().len(),
    {
        proof {
            use_type_invariant(self);
        }
        if self.files.len() == self.values.len() {
            return TakeStep::Done;
        }
        let handle: usize = self.values[self.files.len()] as usize;
        if self.peer {
            TakeStep::Pull(handle)
        } else if handle == 0 {
            TakeStep::Refuse
        } else {
            TakeStep::Adopt(handle)
        }
    }

    /// Takes note of the outcome of the last step. Where there was no handle to take, that is an
    /// error.
    ///
    /// * Win32InvalidHandle: the record was not a live handle.
    pub fn on_taken(&mut self, outcome: Result<F, IoError>) -> (result: Result<(), Error>)
        requires
            old(self).taken().len() < old(self).named().len(),
            Self::step(
                old(self).from_peer(),
                old(self).named(),
                old(self).taken().len() as int,
            ) is Refuse ==> outcome is Err,
        ensures
            final(self).from_peer() == old(self).from_peer(),
            final(self).payload() == old(self).payload(),
            final(self).named() == old(self).named(),
            match outcome {
                Ok(file) => {
                    &&& result == Ok::<(), Error>(())
                    &&& final(self).taken() == old(self).taken().push(file)
                },
                Err(error) => {
                    &&& result == Err::<(), Error>(Error::Win32InvalidHandle(error))
                    &&& final(self).taken() == old(self).taken()
                },
            },
    {
        match outcome {
            Ok(file) => {
                let mut files: Vec<F> = Vec::new();
                std::mem::swap(&mut files, &mut self.files);
                files.push(file);
                self.files = files;
                Ok(())
            },
            Err(error) => Err(Error::Win32InvalidHandle(error)),
        }
    }

    /// The payload as a POSIX peer would have sent it, and the objects in wire order.
    pub fn finish(self) -> (parts: (Vec<u8>, Vec<F>))
        ensures
            parts.0@ == self.payload(),
            parts.1@ == self.taken(),
    {
        (self.base, self.files)
    }
}

/// Splits `count` trailing handle records off `payload`, to take the objects that they name.
///
/// `peer` says how a record becomes a local handle. Without it the record is adopted as it is:
/// the frontend has already duplicated the object here. With it the record names one of the
/// backend's handles, which is pulled over.
///
/// * InvalidMessage: the payload is shorter than its trailer.
pub fn take_handles<F>(peer: bool, payload: &[u8], count: usize) -> (taking: Result<
    TakingHandles<F>,
    Error,
>)
    ensures
        match taking {
            Ok(taking) => {
                let base_len = payload@.len() - 8 * count;
                &&& 0 <= base_len
                &&& taking.from_peer() == peer
                &&& taking.payload() == payload@.take(base_len)
                &&& taking.named() == record_values(payload@.skip(base_len))
                &&& taking.named().len() == count
                &&& taking.taken() == Seq::<F>::empty()
            },
            Err(error) => 8 * count > payload@.len() && error == Error::InvalidMessage,
        },
{
    let payload_len: usize = payload.len();
    let trailer_len: usize = match count.checked_mul(VHOST_USER_WIN32_HANDLE_RECORD_SIZE) {
        Some(len) => len,
        None => {
            return Err(Error::InvalidMessage);
        },
    };
    if trailer_len > payload_len {
        return Err(Error::InvalidMessage);
    }
    let base_len: usize = payload_len - trailer_len;
    let base = slice_to_vec(slice_subrange(payload, 0, base_len));
    let values = read_records(slice_subrange(payload, base_len, payload_len));
    assert(payload@.subrange(base_len as int, payload@.len() as int) =~= payload@.skip(
        base_len as int,
    ));
    Ok(TakingHandles { peer, base, values, files: Vec::new() })
}

/// On the backend's side a record of null names no handle: it is refused, never adopted.
pub proof fn law_null_records_are_refused<F>(named: Seq<u64>, taken: int)
    requires
        0 <= taken < named.len(),
        named[taken] as usize == 0,
    ensures
        TakingHandles::<F>::step(false, named, taken) is Refuse,
{
}

/// What follows from an attempt to duplicate a handle into the peer process.
pub enum DuplicateStep {
    /// The next one may follow.
    Continue,
    /// The transfer failed: close these handles in the peer process, and report the error.
    Failed(Vec<usize>, Error),
}

/// The objects of a message on their way out.
///
/// The caller duplicates what `next` says into the peer process and reports the outcome to
/// `on_duplicated`, until an error comes or all are duplicated.
pub struct DuplicatingHandles {
    handles: Vec<RawDescriptor>,
    values: Vec<u64>,
    trailer: Vec<u8>,
}

impl DuplicatingHandles {
    /// The handles to duplicate.
    pub closed spec fn handles(self) -> Seq<RawDescriptor> {
        self.handles@
    }

    /// The values of the duplicates made so far, in the peer process.
    pub closed spec fn made(self) -> Seq<u64> {
        self.values@
    }

    #[verifier::type_invariant]
    spec fn inv(self) -> bool {
        &&& self.values@.len() <= self.handles@.len()
        &&& self.trailer@ == records(self.values@)
    }

    /// The handle to duplicate next, or `None` when all are.
    pub fn next(&self) -> (next: Option<RawDescriptor>)
        ensures
            self.made().len() <= self.handles().len(),
            next == if self.made().len() == self.handles().len() {
                None
            } else {
                Some(self.handles()[self.made().len() as int])
            },
    {
        proof {
            use_type_invariant(self);
        }
        if self.values.len() == self.handles.len() {
            None
        } else {
            Some(self.handles[self.values.len()])
        }
    }

    /// Takes note of the outcome of duplicating what `next` said.
    ///
    /// All or nothing: where it failed, the duplicates already made are to be closed again in the
    /// peer, so that a failed send leaves the peer as it was.
    ///
    /// * Win32HandleTransfer: the handle could not be duplicated into the peer.
    pub fn on_duplicated(&mut self, outcome: Result<usize, IoError>) -> (step: DuplicateStep)
        requires
            old(self).made().len() < old(self).handles().len(),
        ensures
            final(self).handles() == old(self).handles(),
            match outcome {
                Ok(value) => {
                    &&& step is Continue
                    &&& final(self).made() == old(self).made().push(value as u64)
                },
                Err(error) => {
                    &&& step matches DuplicateStep::Failed(close, failure)
                    &&& close@ == as_handles(old(self).made())
                    &&& failure == Error::Win32HandleTransfer(error)
                    &&& final(self).made() == old(self).made()
                },
            },
    {
        proof {
            use_type_invariant(&*self);
        }
        match outcome {
            Ok(value) => {
                let mut so_far = duplicate_into_peer(&[]);
                std::mem::swap(&mut so_far, self);
                let DuplicatingHandles { handles, mut values, mut trailer } = so_far;
                let ghost before = values@;
                let mut record = bytes::u64_to_le(value as u64);
                values.push(value as u64);
                trailer.append(&mut record);
                assert(values@.drop_last() =~= before);
                *self = DuplicatingHandles { handles, values, trailer };
                DuplicateStep::Continue
            },
            Err(error) => {
                proof {
                    law_records_read_back(self.values@);
                }
                DuplicateStep::Failed(
                    close_in_peer(self.trailer.as_slice()),
                    Error::Win32HandleTransfer(error),
                )
            },
        }
    }

    /// The number of handles to duplicate.
    pub fn count(&self) -> (count: usize)
        ensures
            count == self.handles().len(),
    {
        self.handles.len()
    }

    /// The trailer that names the duplicates.
    pub fn trailer(&self) -> (trailer: Vec<u8>)
        ensures
            trailer@ == records(self.made()),
    {
        proof {
            use_type_invariant(self);
        }
        slice_to_vec(self.trailer.as_slice())
    }
}

/// Starts to duplicate `handles` into the peer process.
pub fn duplicate_into_peer(handles: &[RawDescriptor]) -> (duplicating: DuplicatingHandles)
    ensures
        duplicating.handles() == handles@,
        duplicating.made() == Seq::<u64>::empty(),
{
    assert(records(Seq::empty()) =~= Seq::<u8>::empty());
    DuplicatingHandles { handles: slice_to_vec(handles), values: Vec::new(), trailer: Vec::new() }
}

/// The handles to close in the peer process: those that `trailer` names.
///
/// For unwinding a send that failed after its handles were already duplicated: the peer was never
/// told about them.
pub fn close_in_peer(trailer: &[u8]) -> (handles: Vec<usize>)
    ensures
        handles@ == as_handles(record_values(trailer@)),
{
    let values = read_records(trailer);
    let mut handles: Vec<usize> = Vec::new();
    while handles.len() < values.len()
        invariant
            handles@.len() <= values@.len(),
            forall|i: int| 0 <= i < handles@.len() ==> handles@[i] == values@[i] as usize,
        decreases values@.len() - handles@.len(),
    {
        handles.push(values[handles.len()] as usize);
    }
    assert(handles@ =~= as_handles(record_values(trailer@)));
    handles
}

/// A send that fails leaves the peer as it was: where the handles that the duplications made were
/// not open there before, closing the handles that the trailer names leaves open exactly what was
/// open before.
pub proof fn law_failed_send_leaves_the_peer_as_it_was(open: Set<usize>, made: Seq<usize>)
    requires
        forall|i: int| 0 <= i < made.len() ==> !open.contains(#[trigger] made[i]),
    ensures
        open.union(made.to_set()).difference(
            as_handles(record_values(records(as_values(made)))).to_set(),
        ) == open,
{
    law_records_read_back(as_values(made));
    let closed = as_handles(as_values(made));
    assert(closed =~= made);
    assert(open.union(made.to_set()).difference(made.to_set()) =~= open) by {
        assert forall|handle: usize| open.contains(handle) implies !made.to_set().contains(
            handle,
        ) by {
            if made.contains(handle) {
                let i = made.index_of(handle);
                assert(made[i] == handle);
            }
        }
    }
}

/// How an object of a message is taken, wherever the taking stands. Out of a peer process, the
/// handle that the next record names is moved over, and is never taken as it is. Where there is no
/// peer process, the handle of a record that is not null is taken as it is, and one of null is
/// refused. There is nothing left to do exactly where every record has its object.
pub proof fn law_records_are_taken_by_side<F>(taking: &TakingHandles<F>, step: TakeStep)
    requires
        call_ensures(TakingHandles::<F>::next, (taking,), step),
    ensures
        step is Done <==> taking.taken().len() == taking.named().len(),
        taking.taken().len() < taking.named().len() ==> {
            let handle = taking.named()[taking.taken().len() as int] as usize;
            &&& taking.from_peer() ==> step == TakeStep::Pull(handle) && !(step is Adopt)
            &&& !taking.from_peer() && handle != 0 ==> step == TakeStep::Adopt(handle)
            &&& !taking.from_peer() && handle == 0 ==> step is Refuse
        },
{
}

/// Splitting a trailer off a payload loses nothing: what is left in front of it and the records are
/// the payload. Record `i` is the little-endian number of the eight bytes at its place. There is no
/// trailer to split off exactly where the payload is shorter than the records.
pub proof fn law_trailers_are_split_off<F>(
    peer: bool,
    payload: &[u8],
    count: usize,
    taking: Result<TakingHandles<F>, Error>,
    i: int,
)
    requires
        call_ensures(take_handles::<F>, (peer, payload, count), taking),
    ensures
        taking is Err <==> 8 * count > payload@.len(),
        taking matches Err(error) ==> error == Error::InvalidMessage,
        taking matches Ok(taking) ==> {
            let place = payload@.len() - 8 * count + 8 * i;
            &&& taking.from_peer() == peer
            &&& taking.named().len() == count
            &&& taking.taken().len() == 0
            &&& taking.payload() + records(taking.named()) == payload@
            &&& 0 <= i < count ==> taking.named()[i] == bytes::le_value(
                payload@.subrange(place, place + 8),
            ) as u64
        },
{
    if let Ok(taking) = taking {
        let base_len = payload@.len() - 8 * count;
        let trailer = payload@.skip(base_len);
        law_records_write_back(trailer);
        assert(payload@.take(base_len) + trailer =~= payload@);
        if 0 <= i < count {
            assert(trailer.subrange(8 * i, 8 * i + 8) =~= payload@.subrange(
                base_len + 8 * i,
                base_len + 8 * i + 8,
            ));
        }
    }
}

/// The handles to close in the peer process are those of the values that went into the trailer, one
/// for each and in their order.
pub proof fn law_closed_handles_are_those_of_the_trailer(
    values: Seq<u64>,
    trailer: &[u8],
    handles: Vec<usize>,
    i: int,
)
    requires
        trailer@ == records(values),
        call_ensures(close_in_peer, (trailer,), handles),
    ensures
        handles@.len() == values.len(),
        0 <= i < values.len() ==> handles@[i] == values[i] as usize,
{
    law_records_read_back(values);
}

/// Handles are duplicated one after the other: the next one is the first that has no duplicate yet,
/// and there is none exactly where all have one. The trailer names the duplicates in that order.
pub proof fn law_handles_are_duplicated_in_order(
    duplicating: &DuplicatingHandles,
    next: Option<RawDescriptor>,
    trailer: Vec<u8>,
)
    requires
        call_ensures(DuplicatingHandles::next, (duplicating,), next),
        call_ensures(DuplicatingHandles::trailer, (duplicating,), trailer),
    ensures
        next is None <==> duplicating.made().len() == duplicating.handles().len(),
        next matches Some(handle) ==> {
            &&& duplicating.made().len() < duplicating.handles().len()
            &&& handle == duplicating.handles()[duplicating.made().len() as int]
        },
        record_values(trailer@) == duplicating.made(),
        trailer@.len() == 8 * duplicating.made().len(),
{
    law_records_read_back(duplicating.made());
}

/// An object that was taken is the next one, behind those taken before. One that could not be taken
/// is reported as a record without a live handle, with the error of the system, and nothing is
/// taken.
pub proof fn law_objects_are_taken_in_order<F>()
    ensures
        forall|taking: &mut TakingHandles<F>, file: F, result: Result<(), Error>| #[trigger]
            call_ensures(TakingHandles::<F>::on_taken, (taking, Ok(file)), result) ==> {
                &&& result is Ok
                &&& final(taking).taken() == taking.taken().push(file)
                &&& final(taking).named() == taking.named()
                &&& final(taking).payload() == taking.payload()
                &&& final(taking).from_peer() == taking.from_peer()
            },
        forall|taking: &mut TakingHandles<F>, error: IoError, result: Result<(), Error>| #[trigger]
            call_ensures(TakingHandles::<F>::on_taken, (taking, Err(error)), result) ==> {
                &&& result == Err::<(), Error>(Error::Win32InvalidHandle(error))
                &&& final(taking).taken() == taking.taken()
            },
{
}

/// A handle that was duplicated is the next one that the trailer names. Where one could not be
/// duplicated, every duplicate made before is to be closed again, each once and in their order, and
/// the failure is reported with the error of the system.
pub proof fn law_duplication_is_all_or_nothing()
    ensures
        forall|sending: &mut DuplicatingHandles, value: usize, step: DuplicateStep| #[trigger]
            call_ensures(DuplicatingHandles::on_duplicated, (sending, Ok(value)), step) ==> {
                &&& step is Continue
                &&& final(sending).made() == sending.made().push(value as u64)
                &&& final(sending).handles() == sending.handles()
            },
        forall|sending: &mut DuplicatingHandles, error: IoError, step: DuplicateStep| #[trigger]
            call_ensures(DuplicatingHandles::on_duplicated, (sending, Err(error)), step) ==> {
                &&& step matches DuplicateStep::Failed(close, failure)
                &&& failure == Error::Win32HandleTransfer(error)
                &&& close@.len() == sending.made().len()
                &&& forall|i: int|
                    0 <= i < close@.len() ==> #[trigger] close@[i] == sending.made()[i] as usize
            },
{
}

} // verus!
