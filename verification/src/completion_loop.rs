//! The completion-port loop of a worker thread.

use std::sync::Arc;

use vstd::prelude::*;

use crate::completion_backend::{Completion, LoopCall, VhostUserCompletionBackend};
use crate::error::IoError;
use crate::locks::share;
use crate::vring;
use crate::vring::VringT;

verus! {

/// Where a packet goes.
pub enum Route<O> {
    /// It is the kick of this ring of the worker.
    Kick(usize),
    /// It ends the loop.
    Exit,
    /// It is the device's.
    Device(Completion<O>),
}

/// What follows from a packet, or from a batch of them.
pub enum LoopStep {
    /// The loop goes on.
    Continue,
    /// The loop has come to its end.
    Exit,
}

/// Where a packet goes in a worker of `vrings` rings whose exit packet has the key `exit_key`.
pub open spec fn route_of<O>(completion: Completion<O>, vrings: int, exit_key: usize) -> Route<O> {
    match completion {
        Completion::Signal { key } => if key < vrings {
            Route::Kick(key)
        } else {
            Route::Device(completion)
        },
        Completion::Posted { key, .. } => if key == exit_key {
            Route::Exit
        } else {
            Route::Device(completion)
        },
        Completion::Operation(_) => Route::Device(completion),
    }
}

/// What the loop does with a packet.
pub enum Action<O> {
    /// Nothing: it is the kick of a ring that is not enabled.
    Drop,
    /// It hands the kick of this ring to the device.
    Kick(u16),
    /// It ends.
    Exit,
    /// It hands the packet to the device.
    Device(Completion<O>),
}

/// What the loop does with a packet, where `enabled` says whether the ring of a kick is enabled.
pub open spec fn action_of<O>(
    completion: Completion<O>,
    vrings: int,
    exit_key: usize,
    enabled: bool,
) -> Action<O> {
    match route_of(completion, vrings, exit_key) {
        Route::Kick(key) => if enabled {
            Action::Kick(key as u16)
        } else {
            Action::Drop
        },
        Route::Exit => Action::Exit,
        Route::Device(packet) => Action::Device(packet),
    }
}

/// The calls on the device that an action stands for: at most one.
pub open spec fn calls_for<O>(action: Action<O>) -> Seq<LoopCall<O>> {
    match action {
        Action::Kick(ring) => seq![LoopCall::Kick(ring)],
        Action::Device(packet) => seq![LoopCall::Completion(packet)],
        _ => Seq::empty(),
    }
}

/// The calls on the device that a batch of packets stands for, in their order, where `flags` says
/// of every packet whether its ring is enabled.
pub open spec fn calls_of<O>(
    completions: Seq<Completion<O>>,
    flags: Seq<bool>,
    vrings: int,
    exit_key: usize,
) -> Seq<LoopCall<O>>
    decreases completions.len(),
{
    if completions.len() == 0 {
        Seq::empty()
    } else {
        calls_of(completions.drop_last(), flags.drop_last(), vrings, exit_key) + calls_for(
            action_of(completions.last(), vrings, exit_key, flags.last()),
        )
    }
}

/// The outcome of a call of the device, as the loop takes it.
pub open spec fn step_after(outcome: Result<(), IoError>) -> Result<LoopStep, IoError> {
    match outcome {
        Ok(_) => Ok(LoopStep::Continue),
        Err(error) => Err(error),
    }
}

/// One worker thread's loop over a completion port.
///
/// Kicks reach the port under the index of the ring within this worker, and there is nothing left
/// to read of them. The loop stops on a packet posted under `num_queues()`. Everything else that
/// the port delivers goes to the device.
pub struct VringCompletionHandler<T: VhostUserCompletionBackend> {
    port: Arc<T::Port>,
    backend: T,
    vrings: Vec<T::Vring>,
    thread_id: usize,
    exit_key: usize,
}

impl<T: VhostUserCompletionBackend> VringCompletionHandler<T> {
    /// The port that the worker waits on.
    pub closed spec fn waits_on(self) -> Arc<T::Port> {
        self.port
    }

    /// The device.
    pub closed spec fn device(self) -> T {
        self.backend
    }

    /// The rings of the worker.
    pub closed spec fn rings(self) -> Seq<T::Vring> {
        self.vrings@
    }

    /// The number of the worker thread.
    pub closed spec fn thread(self) -> usize {
        self.thread_id
    }

    /// The key of the exit packet.
    pub closed spec fn exit(self) -> usize {
        self.exit_key
    }

    /// A fresh loop of worker thread `thread_id` over `port`: the device has been attached to the
    /// port for that thread, and has said how many queues it has.
    pub open spec fn is_new(
        self,
        backend: T,
        vrings: Seq<T::Vring>,
        thread_id: usize,
        port: Arc<T::Port>,
    ) -> bool {
        &&& self.waits_on() == port
        &&& self.device() == backend
        &&& self.rings() == vrings
        &&& self.thread() == thread_id
        &&& call_ensures(T::num_queues, (&backend,), self.exit())
        &&& call_ensures(T::attach, (&backend, thread_id, port), Ok(()))
    }

    /// A loop for worker thread `thread_id` over a fresh port, with the device attached to it.
    pub fn new(
        backend: T,
        vrings: Vec<T::Vring>,
        thread_id: usize,
        port: Result<T::Port, IoError>,
    ) -> (handler: Result<Self, IoError>)
        ensures
            match port {
                Err(error) => handler == Err::<Self, IoError>(error),
                Ok(port) => {
                    let shared = Arc::new(port);
                    match handler {
                        Err(error) => call_ensures(
                            T::attach,
                            (&backend, thread_id, shared),
                            Err(error),
                        ),
                        Ok(handler) => handler.is_new(backend, vrings@, thread_id, shared),
                    }
                },
            },
    {
        let port = match port {
            Ok(port) => Arc::new(port),
            Err(error) => {
                return Err(error);
            },
        };
        let exit_key: usize = backend.num_queues();
        match backend.attach(thread_id, share(&port)) {
            Ok(done) => {
                assert(done == ());
                Ok(VringCompletionHandler { port, backend, vrings, thread_id, exit_key })
            },
            Err(error) => Err(error),
        }
    }

    /// The port that this worker waits on.
    pub fn port(&self) -> (port: Arc<T::Port>)
        ensures
            port == self.waits_on(),
    {
        share(&self.port)
    }

    /// The loop may carry out `action` with the outcome `outcome`.
    ///
    /// What is dropped leaves the loop running, and the exit packet ends it. A kick and a packet
    /// of the device reach the device, and what the device answers is the outcome.
    pub open spec fn carries_out(
        self,
        action: Action<T::Operation>,
        outcome: Result<LoopStep, IoError>,
    ) -> bool {
        match action {
            Action::Drop => outcome == Ok::<LoopStep, IoError>(LoopStep::Continue),
            Action::Kick(ring) => exists|rings: &[T::Vring], answer: Result<(), IoError>|
                {
                    &&& rings@ == self.rings()
                    &&& #[trigger] call_ensures(
                        T::handle_kick,
                        (&self.device(), ring, rings, self.thread()),
                        answer,
                    )
                    &&& outcome == step_after(answer)
                },
            Action::Exit => outcome == Ok::<LoopStep, IoError>(LoopStep::Exit),
            Action::Device(packet) => exists|rings: &[T::Vring], answer: Result<(), IoError>|
                {
                    &&& rings@ == self.rings()
                    &&& #[trigger] call_ensures(
                        T::handle_completion,
                        (&self.device(), packet, rings, self.thread()),
                        answer,
                    )
                    &&& outcome == step_after(answer)
                },
        }
    }

    /// What the loop does with a packet, where `enabled` says whether its ring is enabled.
    pub open spec fn action(
        self,
        completion: Completion<T::Operation>,
        enabled: bool,
    ) -> Action<T::Operation> {
        action_of(completion, self.rings().len() as int, self.exit(), enabled)
    }

    /// The loop may take the packet `completion` with the outcome `outcome`.
    ///
    /// Of a kick it first asks whether the ring is enabled.
    pub open spec fn takes(
        self,
        completion: Completion<T::Operation>,
        outcome: Result<LoopStep, IoError>,
    ) -> bool {
        match completion {
            Completion::Signal { key } if key < self.rings().len() => exists|enabled: bool|
                {
                    &&& #[trigger] call_ensures(
                        <T::Vring as VringT>::is_enabled,
                        (&self.rings()[key as int],),
                        enabled,
                    )
                    &&& self.carries_out(self.action(completion, enabled), outcome)
                },
            _ => self.carries_out(self.action(completion, false), outcome),
        }
    }

    /// The loop may take a batch of packets with the outcome `outcome`, of which the first `n`
    /// let it go on: it takes them in their order, and stops at the first that does not.
    pub open spec fn takes_until(
        self,
        completions: Seq<Completion<T::Operation>>,
        n: int,
        outcome: Result<LoopStep, IoError>,
    ) -> bool {
        &&& 0 <= n <= completions.len()
        &&& forall|i: int|
            0 <= i < n ==> self.takes(
                #[trigger] completions[i],
                Ok::<LoopStep, IoError>(LoopStep::Continue),
            )
        &&& if n == completions.len() {
            outcome == Ok::<LoopStep, IoError>(LoopStep::Continue)
        } else {
            &&& self.takes(completions[n], outcome)
            &&& outcome != Ok::<LoopStep, IoError>(LoopStep::Continue)
        }
    }

    /// The loop made the call `call` on the device once it had made the calls `before`.
    pub closed spec fn made(
        self,
        before: Seq<LoopCall<T::Operation>>,
        call: LoopCall<T::Operation>,
    ) -> bool {
        exists|
            rings: &[T::Vring],
            prior: Ghost<Seq<LoopCall<T::Operation>>>,
            answer: Result<(), IoError>,
        |
            {
                &&& rings@ == self.rings()
                &&& prior@ == before
                &&& #[trigger] call_ensures(Self::hand_over, (&self, call, rings, prior), answer)
            }
    }

    /// The loop made the calls `calls` on the device, one after the other.
    pub open spec fn conversation(self, calls: Seq<LoopCall<T::Operation>>) -> bool {
        forall|i: int| 0 <= i < calls.len() ==> self.made(calls.take(i), #[trigger] calls[i])
    }

    /// Where the packet is the kick of a ring, the ring was asked and said `enabled`.
    pub open spec fn asked(self, completion: Completion<T::Operation>, enabled: bool) -> bool {
        match completion {
            Completion::Signal { key } if key < self.rings().len() => call_ensures(
                <T::Vring as VringT>::is_enabled,
                (&self.rings()[key as int],),
                enabled,
            ),
            _ => true,
        }
    }

    /// The calls that a batch of packets stands for.
    pub open spec fn calls(
        self,
        completions: Seq<Completion<T::Operation>>,
        flags: Seq<bool>,
    ) -> Seq<LoopCall<T::Operation>> {
        calls_of(completions, flags, self.rings().len() as int, self.exit())
    }

    /// The first `m` packets of a batch were dispatched: the rings of the kicks among them said
    /// `flags`, and the calls that the packets stand for were made, in their order.
    pub open spec fn dispatches(
        self,
        completions: Seq<Completion<T::Operation>>,
        m: int,
        flags: Seq<bool>,
    ) -> bool {
        &&& 0 <= m <= completions.len()
        &&& flags.len() == m
        &&& forall|i: int| 0 <= i < m ==> self.asked(#[trigger] completions[i], flags[i])
        &&& self.conversation(self.calls(completions.take(m), flags))
    }

    /// The device comes through this call of the loop without a panic.
    pub open spec fn device_bears(self, call: LoopCall<T::Operation>) -> bool {
        self.device().bears_in_loop(call, self.rings(), self.thread())
    }

    /// The loop comes through this packet without a panic: the device bears the call that the
    /// packet stands for, and the ring of a kick says whether it is enabled.
    pub open spec fn bears(self, completion: Completion<T::Operation>) -> bool {
        match completion {
            Completion::Signal { key } if key < self.rings().len() => {
                &&& self.rings()[key as int].answers()
                &&& self.device_bears(LoopCall::Kick(key as u16))
            },
            Completion::Posted { key, .. } if key == self.exit() => true,
            _ => self.device_bears(LoopCall::Completion(completion)),
        }
    }

    /// Makes a call on the device, once the calls `before` were made. `rings` are those of the
    /// worker.
    fn hand_over(
        &self,
        call: LoopCall<T::Operation>,
        rings: &[T::Vring],
        Ghost(before): Ghost<Seq<LoopCall<T::Operation>>>,
    ) -> (answer: Result<(), IoError>)
        requires
            rings@ == self.rings(),
            match call {
                LoopCall::Kick(ring) => vring::seen_enabled(ring, self.rings()),
                LoopCall::Completion(packet) => !packet.is_kick(self.rings().len() as int),
            },
        ensures
            match call {
                LoopCall::Kick(ring) => call_ensures(
                    T::handle_kick,
                    (&self.device(), ring, rings, self.thread()),
                    answer,
                ),
                LoopCall::Completion(packet) => call_ensures(
                    T::handle_completion,
                    (&self.device(), packet, rings, self.thread()),
                    answer,
                ),
            },
        no_unwind when self.device_bears(call)
    {
        match call {
            LoopCall::Kick(ring) => self.backend.handle_kick(ring, rings, self.thread_id),
            LoopCall::Completion(packet) => self.backend.handle_completion(
                packet,
                rings,
                self.thread_id,
            ),
        }
    }

    /// Where a packet goes.
    pub fn route(&self, completion: Completion<T::Operation>) -> (route: Route<T::Operation>)
        ensures
            route == route_of(completion, self.rings().len() as int, self.exit()),
        no_unwind
    {
        match completion {
            Completion::Signal { key } => if key < self.vrings.len() {
                Route::Kick(key)
            } else {
                Route::Device(Completion::Signal { key })
            },
            Completion::Posted { key, bytes, pointer } => if key == self.exit_key {
                Route::Exit
            } else {
                Route::Device(Completion::Posted { key, bytes, pointer })
            },
            Completion::Operation(operation) => Route::Device(Completion::Operation(operation)),
        }
    }

    /// Decides what to do with a packet, given whether its ring is enabled.
    pub fn decide(&self, completion: Completion<T::Operation>, enabled: bool) -> (action: Action<
        T::Operation,
    >)
        ensures
            action == action_of(completion, self.rings().len() as int, self.exit(), enabled),
        no_unwind
    {
        match self.route(completion) {
            Route::Kick(key) => if enabled {
                Action::Kick(key as u16)
            } else {
                Action::Drop
            },
            Route::Exit => Action::Exit,
            Route::Device(packet) => Action::Device(packet),
        }
    }

    /// Takes a packet that the port delivered, once the calls `before` were made on the device.
    /// `rings` are those of the worker.
    fn take_after(
        &self,
        completion: Completion<T::Operation>,
        rings: &[T::Vring],
        Ghost(before): Ghost<Seq<LoopCall<T::Operation>>>,
    ) -> (outcome: Result<LoopStep, IoError>)
        requires
            rings@ == self.rings(),
            self.conversation(before),
        ensures
            self.takes(completion, outcome),
            exists|enabled: bool|
                {
                    &&& #[trigger] self.asked(completion, enabled)
                    &&& self.conversation(before + calls_for(self.action(completion, enabled)))
                },
        no_unwind when self.bears(completion)
    {
        let enabled = match &completion {
            Completion::Signal { key } => if *key < self.vrings.len() {
                self.vrings[*key].is_enabled()
            } else {
                false
            },
            _ => false,
        };
        assert(self.asked(completion, enabled));
        let call = match self.decide(completion, enabled) {
            Action::Drop => {
                assert(before + Seq::<LoopCall<T::Operation>>::empty() =~= before);
                return Ok(LoopStep::Continue);
            },
            Action::Exit => {
                assert(before + Seq::<LoopCall<T::Operation>>::empty() =~= before);
                return Ok(LoopStep::Exit);
            },
            Action::Kick(ring) => LoopCall::Kick(ring),
            Action::Device(packet) => LoopCall::Completion(packet),
        };
        let ghost made = call;
        let answer = self.hand_over(call, rings, Ghost(before));
        proof {
            let calls = before + seq![made];
            assert(self.made(before, made));
            assert forall|i: int| 0 <= i < calls.len() implies self.made(
                calls.take(i),
                #[trigger] calls[i],
            ) by {
                if i < before.len() {
                    assert(calls.take(i) =~= before.take(i));
                    assert(calls[i] == before[i]);
                } else {
                    assert(calls.take(i) =~= before);
                }
            }
            assert(self.conversation(calls));
        }
        match answer {
            Ok(_) => Ok(LoopStep::Continue),
            Err(error) => Err(error),
        }
    }

    /// Takes a packet that the port delivered.
    pub fn take(&self, completion: Completion<T::Operation>) -> (outcome: Result<LoopStep, IoError>)
        ensures
            self.takes(completion, outcome),
            exists|enabled: bool|
                {
                    &&& #[trigger] self.asked(completion, enabled)
                    &&& self.conversation(calls_for(self.action(completion, enabled)))
                },
    {
        let ghost none = Seq::<LoopCall<T::Operation>>::empty();
        let outcome = self.take_after(completion, self.vrings.as_slice(), Ghost(none));
        proof {
            let enabled = choose|enabled: bool|
                {
                    &&& #[trigger] self.asked(completion, enabled)
                    &&& self.conversation(none + calls_for(self.action(completion, enabled)))
                };
            let calls = calls_for(self.action(completion, enabled));
            assert(none + calls =~= calls);
        }
        outcome
    }

    /// The loop comes through what a wait gave without a panic: it comes through every packet of a
    /// batch.
    pub open spec fn bears_batch(
        self,
        waited: Result<Vec<Completion<T::Operation>>, IoError>,
    ) -> bool {
        waited matches Ok(completions) ==> forall|i: int|
            0 <= i < completions@.len() ==> self.bears(#[trigger] completions@[i])
    }

    /// Takes what a wait on the port gave. `rings` are those of the worker.
    fn run_over(
        &self,
        waited: Result<Vec<Completion<T::Operation>>, IoError>,
        rings: &[T::Vring],
    ) -> (outcome: Result<LoopStep, IoError>)
        requires
            rings@ == self.rings(),
        ensures
            match waited {
                Err(error) => outcome == Err::<LoopStep, IoError>(error),
                Ok(completions) => exists|n: int, m: int, flags: Seq<bool>|
                    {
                        &&& #[trigger] self.takes_until(completions@, n, outcome)
                        &&& #[trigger] self.dispatches(completions@, m, flags)
                        &&& m == if n < completions@.len() {
                            n + 1
                        } else {
                            n
                        }
                    },
            },
        no_unwind when self.bears_batch(waited)
    {
        let mut rest = match waited {
            Ok(completions) => completions,
            Err(error) => {
                return Err(error);
            },
        };
        let ghost all = rest@;
        let mut i: usize = 0;
        let ghost mut flags: Seq<bool> = Seq::empty();
        assert(self.calls(all.take(0), flags) =~= Seq::empty());
        while i < rest.len()
            invariant
                waited matches Ok(batch) && batch@ == all,
                rings@ == self.rings(),
                i <= all.len(),
                rest@.len() == all.len(),
                forall|j: int| i <= j < all.len() ==> rest@[j] == #[trigger] all[j],
                forall|j: int|
                    0 <= j < i ==> self.takes(
                        #[trigger] all[j],
                        Ok::<LoopStep, IoError>(LoopStep::Continue),
                    ),
                self.dispatches(all, i as int, flags),
            decreases all.len() - i,
        {
            let mut completion = Completion::Signal { key: 0 };
            std::mem::swap(&mut completion, &mut rest[i]);
            assert(completion == all[i as int]);
            let ghost before = self.calls(all.take(i as int), flags);
            let outcome = self.take_after(completion, rings, Ghost(before));
            proof {
                let packet = all[i as int];
                let enabled = choose|enabled: bool|
                    {
                        &&& #[trigger] self.asked(packet, enabled)
                        &&& self.conversation(before + calls_for(self.action(packet, enabled)))
                    };
                let now = flags.push(enabled);
                assert(all.take(i + 1).drop_last() =~= all.take(i as int));
                assert(now.drop_last() =~= flags);
                assert(self.calls(all.take(i + 1), now) == before + calls_for(
                    self.action(packet, enabled),
                ));
                assert forall|j: int| 0 <= j < i + 1 implies self.asked(
                    #[trigger] all[j],
                    now[j],
                ) by {
                    if j < i {
                        assert(now[j] == flags[j]);
                    }
                }
                flags = now;
                assert(self.dispatches(all, i + 1, flags));
            }
            match outcome {
                Ok(LoopStep::Continue) => {},
                _ => {
                    assert(self.takes_until(all, i as int, outcome));
                    return outcome;
                },
            }
            i = i + 1;
        }
        assert(self.takes_until(all, i as int, Ok(LoopStep::Continue)));
        Ok(LoopStep::Continue)
    }

    /// Takes what a wait on the port gave: a batch of packets, or an error.
    ///
    /// The packets are taken in their order, up to the exit packet or the first that the device
    /// fails on. The rest of the batch is dropped.
    pub fn run(&self, waited: Result<Vec<Completion<T::Operation>>, IoError>) -> (outcome: Result<
        LoopStep,
        IoError,
    >)
        ensures
            match waited {
                Err(error) => outcome == Err::<LoopStep, IoError>(error),
                Ok(completions) => exists|n: int, m: int, flags: Seq<bool>|
                    {
                        &&& #[trigger] self.takes_until(completions@, n, outcome)
                        &&& #[trigger] self.dispatches(completions@, m, flags)
                        &&& m == if n < completions@.len() {
                            n + 1
                        } else {
                            n
                        }
                    },
            },
    {
        self.run_over(waited, self.vrings.as_slice())
    }

    /// The key under which the kick of ring `index` of this worker reaches the port.
    pub fn kick_key(&self, index: u64) -> (key: usize)
        ensures
            key == index as usize,
    {
        index as usize
    }

    /// The packet that asks the loop to return: its key, its number of bytes, and its pointer.
    pub fn exit_packet(&self) -> (packet: (usize, u32, usize))
        ensures
            packet == (self.exit(), 0u32, 0usize),
            route_of(
                Completion::<T::Operation>::Posted {
                    key: packet.0,
                    bytes: packet.1,
                    pointer: packet.2,
                },
                self.rings().len() as int,
                self.exit(),
            ) is Exit,
    {
        (self.exit_key, 0, 0)
    }
}

/// `ports` are those that `workers` wait on, in thread order.
pub open spec fn are_ports_of<T: VhostUserCompletionBackend>(
    workers: Seq<Arc<VringCompletionHandler<T>>>,
    ports: Seq<Arc<T::Port>>,
) -> bool {
    &&& ports.len() == workers.len()
    &&& forall|i: int| 0 <= i < workers.len() ==> #[trigger] ports[i] == workers[i].waits_on()
}

/// The ports that the workers wait on, in thread order.
pub fn get_ports<T: VhostUserCompletionBackend>(
    workers: &[Arc<VringCompletionHandler<T>>],
) -> (ports: Vec<Arc<T::Port>>)
    ensures
        are_ports_of(workers@, ports@),
{
    let mut ports: Vec<Arc<T::Port>> = Vec::new();
    while ports.len() < workers.len()
        invariant
            ports@.len() <= workers@.len(),
            forall|i: int|
                0 <= i < ports@.len() ==> #[trigger] ports@[i] == workers@[i].waits_on(),
        decreases workers@.len() - ports@.len(),
    {
        let i: usize = ports.len();
        ports.push(workers[i].port());
    }
    ports
}

/// Where there is one worker for every entry of the device's map from queues to worker threads,
/// each with its handle on the device and a port of its own, the ports that `get_ports` gives are
/// those that the device was attached to, one for every thread and in thread order; and it gives
/// the same ports every time.
pub proof fn law_ports_are_those_attached<T: VhostUserCompletionBackend>(
    backend: T,
    devices: Seq<T>,
    queues: Vec<u64>,
    rings: Seq<Seq<T::Vring>>,
    made: Seq<Arc<T::Port>>,
    workers: Seq<Arc<VringCompletionHandler<T>>>,
    ports: Seq<Arc<T::Port>>,
    later: Seq<Arc<T::Port>>,
)
    requires
        call_ensures(T::queues_per_thread, (&backend,), queues),
        workers.len() == queues@.len(),
        forall|i: int|
            0 <= i < workers.len() ==> (#[trigger] workers[i]).is_new(
                devices[i],
                rings[i],
                i as usize,
                made[i],
            ),
        are_ports_of(workers, ports),
        are_ports_of(workers, later),
    ensures
        ports.len() == queues@.len(),
        forall|i: int|
            #![trigger ports[i]]
            0 <= i < ports.len() ==> ports[i] == made[i] && call_ensures(
                T::attach,
                (&devices[i], i as usize, ports[i]),
                Ok(()),
            ),
        later == ports,
{
    assert forall|i: int| #![trigger ports[i]] 0 <= i < ports.len() implies ports[i] == made[i]
        && call_ensures(T::attach, (&devices[i], i as usize, ports[i]), Ok(())) by {
        assert(workers[i].is_new(devices[i], rings[i], i as usize, made[i]));
    }
    assert forall|i: int| 0 <= i < ports.len() implies later[i] == ports[i] by {
        assert(ports[i] == workers[i].waits_on());
    }
    assert(later =~= ports);
}

/// The keys above the number of queues are the device's: nothing that comes under one of them is
/// taken for a kick or for the end of the loop, and it reaches the device untouched.
pub proof fn law_device_keys_reach_the_device<O>(
    completion: Completion<O>,
    vrings: int,
    exit_key: usize,
)
    requires
        vrings <= exit_key,
        match completion {
            Completion::Signal { key } => key > exit_key,
            Completion::Posted { key, .. } => key > exit_key,
            Completion::Operation(_) => true,
        },
    ensures
        route_of(completion, vrings, exit_key) == Route::Device(completion),
{
}

/// The loop ends on a packet posted under its own key, and on nothing else.
pub proof fn law_only_the_exit_packet_ends_the_loop<O>(
    completion: Completion<O>,
    vrings: int,
    exit_key: usize,
)
    ensures
        route_of(completion, vrings, exit_key) is Exit <==> (completion matches Completion::Posted {
            key,
            ..
        } && key == exit_key),
{
}

/// The kick of a ring of the worker is taken for the kick of this ring.
pub proof fn law_kicks_find_their_ring<O>(index: usize, vrings: int, exit_key: usize)
    requires
        index < vrings,
    ensures
        route_of(Completion::<O>::Signal { key: index }, vrings, exit_key) == Route::<O>::Kick(
            index,
        ),
{
}

/// A kick reaches the device where its ring is enabled, as the kick of this ring. Where the ring is
/// not enabled it is dropped: the device sees nothing of it.
pub proof fn law_kicks_of_disabled_rings_are_dropped<O>(
    index: usize,
    vrings: int,
    exit_key: usize,
    enabled: bool,
)
    requires
        index < vrings,
    ensures
        action_of(Completion::<O>::Signal { key: index }, vrings, exit_key, enabled) == if enabled {
            Action::<O>::Kick(index as u16)
        } else {
            Action::Drop
        },
{
}

/// The calls of a batch are those of its packets one after the other: wherever a batch is cut in
/// two, the calls of the whole are those of the first part and then those of the second. So every
/// packet has its own calls, also where it is equal to another.
pub proof fn law_packets_are_dispatched_one_by_one<O>(
    first: Seq<Completion<O>>,
    second: Seq<Completion<O>>,
    first_flags: Seq<bool>,
    second_flags: Seq<bool>,
    vrings: int,
    exit_key: usize,
)
    requires
        first.len() == first_flags.len(),
        second.len() == second_flags.len(),
    ensures
        calls_of(first + second, first_flags + second_flags, vrings, exit_key) == calls_of(
            first,
            first_flags,
            vrings,
            exit_key,
        ) + calls_of(second, second_flags, vrings, exit_key),
    decreases second.len(),
{
    if second.len() == 0 {
        assert(first + second =~= first);
        assert(first_flags + second_flags =~= first_flags);
    } else {
        law_packets_are_dispatched_one_by_one(
            first,
            second.drop_last(),
            first_flags,
            second_flags.drop_last(),
            vrings,
            exit_key,
        );
        assert((first + second).drop_last() =~= first + second.drop_last());
        assert((first_flags + second_flags).drop_last() =~= first_flags
            + second_flags.drop_last());
    }
}

/// What a single packet makes the loop do on the device. The kick of an enabled ring is one call
/// of `handle_kick` for this ring, and the kick of a ring that is not enabled no call. The packet
/// posted under the exit key is no call. Anything else is one call of `handle_completion`, with
/// the packet as it came.
pub proof fn law_every_packet_is_at_most_one_call<O>(
    completion: Completion<O>,
    enabled: bool,
    vrings: int,
    exit_key: usize,
)
    ensures
        calls_of(seq![completion], seq![enabled], vrings, exit_key) == match completion {
            Completion::Signal { key } if key < vrings && enabled => seq![
                LoopCall::<O>::Kick(key as u16),
            ],
            Completion::Signal { key } if key < vrings => Seq::empty(),
            Completion::Posted { key, .. } if key == exit_key => Seq::empty(),
            _ => seq![LoopCall::Completion(completion)],
        },
{
    reveal_with_fuel(calls_of, 2);
    assert(seq![completion].drop_last() =~= Seq::empty());
    assert(calls_of(seq![completion], seq![enabled], vrings, exit_key) =~= calls_for(
        action_of(completion, vrings, exit_key, enabled),
    ));
}

/// The loop decides by the packet, by whether its ring is enabled, and by nothing else. The kick
/// of one of its rings is a kick where the ring is enabled, and is dropped where it is not. The
/// packet posted under the exit key ends the loop. Anything else is the device's, as it came.
pub proof fn law_packets_are_told_apart<T: VhostUserCompletionBackend>(
    handler: &VringCompletionHandler<T>,
    completion: Completion<T::Operation>,
    enabled: bool,
    route: Route<T::Operation>,
    action: Action<T::Operation>,
)
    requires
        call_ensures(VringCompletionHandler::<T>::route, (handler, completion), route),
        call_ensures(VringCompletionHandler::<T>::decide, (handler, completion, enabled), action),
    ensures
        ({
            let kicked = completion.is_kick(handler.rings().len() as int);
            let exits = completion matches Completion::Posted { key, .. } && key == handler.exit();
            &&& kicked <==> route is Kick
            &&& kicked && enabled <==> action is Kick
            &&& kicked && !enabled <==> action is Drop
            &&& exits <==> route is Exit
            &&& exits <==> action is Exit
            &&& route is Device ==> route == Route::Device(completion)
            &&& action is Device ==> action == Action::Device(completion)
        }),
        completion matches Completion::Signal { key } ==> {
            &&& completion.is_kick(handler.rings().len() as int) <==> key < handler.rings().len()
            &&& route is Kick ==> route == Route::<T::Operation>::Kick(key)
            &&& action is Kick ==> action == Action::<T::Operation>::Kick(key as u16)
        },
        !(completion is Signal) ==> !completion.is_kick(handler.rings().len() as int),
{
}

/// What the device answers decides whether the loop goes on: it does where the device is content,
/// and reports the failure of the device as it is.
pub proof fn law_answers_of_the_device_decide(answer: Result<(), IoError>)
    ensures
        answer is Ok <==> step_after(answer) == Ok::<LoopStep, IoError>(LoopStep::Continue),
        answer matches Err(error) ==> step_after(answer) == Err::<LoopStep, IoError>(error),
{
}

/// A call that the loop made reached the device, with the rings of the worker and its number.
pub proof fn law_calls_reach_the_device<T: VhostUserCompletionBackend>(
    handler: VringCompletionHandler<T>,
    before: Seq<LoopCall<T::Operation>>,
    call: LoopCall<T::Operation>,
)
    requires
        handler.made(before, call),
    ensures
        match call {
            LoopCall::Kick(ring) => exists|rings: &[T::Vring], answer: Result<(), IoError>|
                rings@ == handler.rings() && #[trigger] call_ensures(
                    T::handle_kick,
                    (&handler.device(), ring, rings, handler.thread()),
                    answer,
                ),
            LoopCall::Completion(packet) => exists|rings: &[T::Vring], answer: Result<(), IoError>|
                rings@ == handler.rings() && #[trigger] call_ensures(
                    T::handle_completion,
                    (&handler.device(), packet, rings, handler.thread()),
                    answer,
                ),
        },
{
    let (rings, prior, answer) = choose|
        rings: &[T::Vring],
        prior: Ghost<Seq<LoopCall<T::Operation>>>,
        answer: Result<(), IoError>,
    |
        {
            &&& rings@ == handler.rings()
            &&& prior@ == before
            &&& #[trigger] call_ensures(
                VringCompletionHandler::<T>::hand_over,
                (&handler, call, rings, prior),
                answer,
            )
        };
    match call {
        LoopCall::Kick(ring) => {
            assert(call_ensures(
                T::handle_kick,
                (&handler.device(), ring, rings, handler.thread()),
                answer,
            ));
        },
        LoopCall::Completion(packet) => {
            assert(call_ensures(
                T::handle_completion,
                (&handler.device(), packet, rings, handler.thread()),
                answer,
            ));
        },
    }
}

/// The call that packet `i` of a dispatched batch stands for was made, right after those of the
/// packets before it: `handle_kick` for the kick of an enabled ring, none for the kick of a ring
/// that is not enabled and for the exit packet, and `handle_completion` with the packet as it came
/// for anything else. So it is for every packet, also where it is equal to the one before it.
pub proof fn law_every_packet_is_called_in_its_turn<T: VhostUserCompletionBackend>(
    handler: VringCompletionHandler<T>,
    completions: Seq<Completion<T::Operation>>,
    m: int,
    flags: Seq<bool>,
    i: int,
)
    requires
        handler.dispatches(completions, m, flags),
        0 <= i < m,
    ensures
        ({
            let before = handler.calls(completions.take(i), flags.take(i));
            let after = handler.calls(completions.take(i + 1), flags.take(i + 1));
            &&& handler.asked(completions[i], flags[i])
            &&& match completions[i] {
                Completion::Signal { key } if key < handler.rings().len() && flags[i] => {
                    &&& handler.made(before, LoopCall::Kick(key as u16))
                    &&& after == before.push(LoopCall::Kick(key as u16))
                },
                Completion::Signal { key } if key < handler.rings().len() => after == before,
                Completion::Posted { key, .. } if key == handler.exit() => after == before,
                packet => {
                    &&& handler.made(before, LoopCall::Completion(packet))
                    &&& after == before.push(LoopCall::Completion(packet))
                },
            }
        }),
        handler.calls(completions.take(0), flags.take(0)).len() == 0,
{
    let vrings = handler.rings().len() as int;
    let exit_key = handler.exit();
    let before = handler.calls(completions.take(i), flags.take(i));
    let after = handler.calls(completions.take(i + 1), flags.take(i + 1));
    let own = calls_for(handler.action(completions[i], flags[i]));
    assert(completions.take(i + 1).drop_last() =~= completions.take(i));
    assert(flags.take(i + 1).drop_last() =~= flags.take(i));
    assert(after == before + own);
    let all = handler.calls(completions.take(m), flags);
    law_packets_are_dispatched_one_by_one(
        completions.take(i + 1),
        completions.subrange(i + 1, m),
        flags.take(i + 1),
        flags.subrange(i + 1, m),
        vrings,
        exit_key,
    );
    assert(completions.take(i + 1) + completions.subrange(i + 1, m) =~= completions.take(m));
    assert(flags.take(i + 1) + flags.subrange(i + 1, m) =~= flags);
    if own.len() > 0 {
        let at = before.len() as int;
        assert(all[at] == own[0]);
        assert(all.take(at) =~= before);
        assert(handler.made(all.take(at), all[at]));
        assert(before + own =~= before.push(own[0]));
    } else {
        assert(before + own =~= before);
    }
}

/// A batch is dispatched up to the packet that stops the loop, and no further: every packet before
/// it lets the loop go on, and where none stops it, all are dispatched. The exit packet stops the
/// loop for good, so nothing behind it reaches the device. A wait that failed is reported as it
/// failed.
pub proof fn law_batches_are_dispatched_up_to_the_stop<T: VhostUserCompletionBackend>(
    handler: &VringCompletionHandler<T>,
    waited: Result<Vec<Completion<T::Operation>>, IoError>,
    outcome: Result<LoopStep, IoError>,
)
    requires
        call_ensures(VringCompletionHandler::<T>::run, (handler, waited), outcome),
    ensures
        match waited {
            Err(error) => outcome == Err::<LoopStep, IoError>(error),
            Ok(batch) => exists|m: int, flags: Seq<bool>|
                {
                    &&& #[trigger] handler.dispatches(batch@, m, flags)
                    &&& m < batch@.len() ==> m > 0
                    &&& m < batch@.len() ==> outcome != Ok::<LoopStep, IoError>(LoopStep::Continue)
                    &&& outcome == Ok::<LoopStep, IoError>(LoopStep::Continue) ==> m
                        == batch@.len()
                    &&& forall|i: int|
                        0 <= i < m - 1 ==> handler.takes(
                            #[trigger] batch@[i],
                            Ok::<LoopStep, IoError>(LoopStep::Continue),
                        )
                    &&& m > 0 ==> handler.takes(batch@[m - 1], outcome)
                    &&& m == 0 ==> outcome == Ok::<LoopStep, IoError>(LoopStep::Continue)
                    &&& forall|i: int|
                        0 <= i < m ==> (#[trigger] batch@[i] matches Completion::Posted { key, .. }
                            && key == handler.exit() ==> {
                            &&& i == m - 1
                            &&& outcome == Ok::<LoopStep, IoError>(LoopStep::Exit)
                        })
                },
        },
{
    if let Ok(batch) = waited {
        let all = batch@;
        let (n, m, flags) = choose|n: int, m: int, flags: Seq<bool>|
            {
                &&& #[trigger] handler.takes_until(all, n, outcome)
                &&& #[trigger] handler.dispatches(all, m, flags)
                &&& m == if n < all.len() {
                    n + 1
                } else {
                    n
                }
            };
        assert(handler.dispatches(all, m, flags));
        if m > 0 && n == all.len() {
            assert(handler.takes(all[m - 1], outcome));
        }
        assert forall|i: int| 0 <= i < m implies (#[trigger] all[i] matches Completion::Posted {
            key,
            ..
        } && key == handler.exit() ==> {
            &&& i == m - 1
            &&& outcome == Ok::<LoopStep, IoError>(LoopStep::Exit)
        }) by {
            if i < n {
                assert(handler.takes(all[i], Ok::<LoopStep, IoError>(LoopStep::Continue)));
            }
        }
    }
}

/// The loop comes through a packet without a panic exactly where the device comes through the one
/// call that the packet stands for, and the ring of a kick through being asked.
pub proof fn law_packets_cost_one_call<T: VhostUserCompletionBackend>(
    handler: VringCompletionHandler<T>,
    completion: Completion<T::Operation>,
)
    ensures
        handler.bears(completion) <==> match completion {
            Completion::Signal { key } if key < handler.rings().len() =>
                handler.rings()[key as int].answers() && handler.device().bears_in_loop(
                LoopCall::Kick(key as u16),
                handler.rings(),
                handler.thread(),
            ),
            Completion::Posted { key, .. } if key == handler.exit() => true,
            packet => handler.device().bears_in_loop(
                LoopCall::Completion(packet),
                handler.rings(),
                handler.thread(),
            ),
        },
{
}

/// The packet that asks the loop to return is one that ends it, and the kick of a ring of the
/// worker comes under the index of the ring.
pub proof fn law_exit_packet_ends_the_loop<T: VhostUserCompletionBackend>(
    handler: &VringCompletionHandler<T>,
    packet: (usize, u32, usize),
    index: u64,
    key: usize,
)
    requires
        call_ensures(VringCompletionHandler::<T>::exit_packet, (handler,), packet),
        call_ensures(VringCompletionHandler::<T>::kick_key, (handler, index), key),
    ensures
        route_of(
            Completion::<T::Operation>::Posted {
                key: packet.0,
                bytes: packet.1,
                pointer: packet.2,
            },
            handler.rings().len() as int,
            handler.exit(),
        ) is Exit,
        index < handler.rings().len() <= usize::MAX ==> route_of(
            Completion::<T::Operation>::Signal { key },
            handler.rings().len() as int,
            handler.exit(),
        ) == Route::<T::Operation>::Kick(index as usize),
{
}

/// A loop that was made waits on the port that it was given, as the worker thread that it was made
/// for, over the rings that it was given; its device has been attached to the port for that thread;
/// and its exit key is the number of queues of the device. One that could not be made failed for
/// want of a port, or because the device would not be attached.
pub proof fn law_new_loops_are_attached<T: VhostUserCompletionBackend>(
    backend: T,
    vrings: Vec<T::Vring>,
    thread_id: usize,
    port: Result<T::Port, IoError>,
    handler: Result<VringCompletionHandler<T>, IoError>,
)
    requires
        call_ensures(
            VringCompletionHandler::<T>::new,
            (backend, vrings, thread_id, port),
            handler,
        ),
    ensures
        handler matches Ok(handler) ==> {
            &&& port matches Ok(port)
            &&& handler.waits_on() == Arc::new(port)
            &&& handler.device() == backend
            &&& handler.rings() == vrings@
            &&& handler.thread() == thread_id
            &&& call_ensures(T::num_queues, (&backend,), handler.exit())
            &&& call_ensures(T::attach, (&backend, thread_id, Arc::new(port)), Ok(()))
        },
        handler matches Err(error) ==> match port {
            Ok(port) => call_ensures(
                T::attach,
                (&backend, thread_id, Arc::new(port)),
                Err(error),
            ),
            Err(failure) => error == failure,
        },
{
}

} // verus!
