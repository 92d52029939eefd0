//! Devices that run on the completion-port loop.
//!
//! Besides the methods that the control channel calls, such a device has three that its loop
//! calls: `attach`, once for every worker thread and before its loop starts, with the port that
//! the thread waits on; `handle_kick`, when the kick of a ring comes; and `handle_completion`, for
//! everything else that the port delivers.
//!
//! Every packet that the port delivers carries a key, and the loop sorts by it. The keys from 0 to
//! `num_queues()` belong to the loop: a kick comes under the index of the ring within its worker,
//! and the exit packet under `num_queues()`. A device uses keys above that, and these come back
//! through `handle_completion`.

use std::sync::{
    Arc, Mutex, MutexGuard, RwLock, RwLockReadGuard, RwLockWriteGuard,
};

use vstd::prelude::*;

use crate::error::{ErrorKind, IoError};
use crate::locks;
use crate::vring;
use crate::vring::VringT;

verus! {

/// A packet that a port delivers.
#[derive(Debug)]
pub enum Completion<O> {
    /// A registered event was set.
    Signal { key: usize },
    /// Someone posted a packet.
    Posted { key: usize, bytes: u32, pointer: usize },
    /// An operation came to its end.
    Operation(O),
}

impl<O> Completion<O> {
    /// The packet is the kick of one of the `vrings` rings of a worker.
    pub open spec fn is_kick(self, vrings: int) -> bool {
        self matches Completion::Signal { key } && key < vrings
    }
}

/// The direction of a transfer of the state of a device.
#[derive(Clone, Copy, Debug, PartialEq, Eq, Structural)]
pub enum VhostTransferStateDirection {
    /// From the device.
    Save,
    /// To the device.
    Load,
}

/// The phase in which the state of a device is transferred.
#[derive(Clone, Copy, Debug, PartialEq, Eq, Structural)]
pub enum VhostTransferStatePhase {
    /// The device is stopped.
    Stopped,
}

/// The name of a shared object.
#[derive(Clone, Copy, Debug, PartialEq, Eq, Structural)]
pub struct VhostUserSharedMsg {
    pub uuid: u128,
}

/// A call of the control channel on a device, with what is handed over.
pub enum ControlCall<M, F> {
    NumQueues,
    MaxQueueSize,
    Features,
    AckedFeatures(u64),
    ProtocolFeatures,
    ResetDevice,
    SetEventIdx(bool),
    SetConfig(u32, Seq<u8>),
    UpdateMemory(M),
    GetSharedObject(VhostUserSharedMsg),
    SetDeviceState(VhostTransferStateDirection, VhostTransferStatePhase, F),
    CheckDeviceState,
    GetShmemConfig,
}

/// A call of the loop of a worker thread on a device.
pub enum LoopCall<O> {
    /// It hands the kick of this ring over.
    Kick(u16),
    /// It hands this packet over.
    Completion(Completion<O>),
}

/// A device on the completion-port loop that takes care of its own mutability.
pub trait VhostUserCompletionBackend: Send + Sync {
    /// The memory of the guest.
    type Memory;

    /// A ring of the device.
    type Vring: VringT;

    /// An object that the protocol passes between peers.
    type File;

    /// What a worker thread waits on.
    type Port;

    /// An operation that the device submits.
    type Operation;

    /// The configuration of shared memory regions.
    type ShMemConfig;

    /// The device comes through this call of the control channel without a panic.
    ///
    /// A device that says nothing may panic on any.
    open spec fn bears(&self, _call: ControlCall<Self::Memory, Self::File>) -> bool {
        false
    }

    /// The device comes through this call of worker thread `thread_id`, whose rings are `vrings`,
    /// without a panic.
    open spec fn bears_in_loop(
        &self,
        _call: LoopCall<Self::Operation>,
        _vrings: Seq<Self::Vring>,
        _thread_id: usize,
    ) -> bool {
        false
    }

    /// The device comes through being attached to `port` for worker thread `thread_id` without a
    /// panic.
    open spec fn bears_port(&self, _thread_id: usize, _port: Arc<Self::Port>) -> bool {
        false
    }

    /// The number of queues.
    fn num_queues(&self) -> (result: usize)
        no_unwind when self.bears(ControlCall::NumQueues)
    ;

    /// The largest size of a queue.
    fn max_queue_size(&self) -> (result: usize)
        no_unwind when self.bears(ControlCall::MaxQueueSize)
    ;

    /// The virtio features that the device offers.
    fn features(&self) -> (result: u64)
        no_unwind when self.bears(ControlCall::Features)
    ;

    /// Takes note of the virtio features that were agreed on.
    fn acked_features(&self, _features: u64)
        no_unwind when self.bears(ControlCall::AckedFeatures(_features))
    {
    }

    /// The vhost protocol features that the device offers.
    fn protocol_features(&self) -> (result: u64)
        no_unwind when self.bears(ControlCall::ProtocolFeatures)
    ;

    /// Resets the state of the device.
    fn reset_device(&self)
        no_unwind when self.bears(ControlCall::ResetDevice)
    {
    }

    /// Enables or disables the virtio EVENT_IDX feature.
    fn set_event_idx(&self, enabled: bool)
        no_unwind when self.bears(ControlCall::SetEventIdx(enabled))
    ;

    /// The configuration of the device, from `offset` on.
    fn get_config(&self, _offset: u32, _size: u32) -> (result: Vec<u8>)
        default_ensures
            result@ == Seq::<u8>::empty(),
    {
        Vec::new()
    }

    /// Sets the configuration of the device, from `offset` on.
    fn set_config(&self, _offset: u32, _buf: &[u8]) -> (result: Result<(), IoError>)
        default_ensures
            result == Ok::<(), IoError>(()),
        no_unwind when self.bears(ControlCall::SetConfig(_offset, _buf@))
    {
        Ok(())
    }

    /// Takes note of the regions of guest memory.
    fn update_memory(&self, mem: Self::Memory) -> (result: Result<(), IoError>)
        no_unwind when self.bears(ControlCall::UpdateMemory(mem))
    ;

    /// The object that is shared under `uuid`, for the frontend to use.
    fn get_shared_object(
        &self,
        _uuid: VhostUserSharedMsg,
    ) -> (result: Result<Self::File, IoError>)
        default_ensures
            result == Err::<Self::File, IoError>(
                IoError::SimpleMessage(
                    ErrorKind::Unsupported,
                    "back end does not support get shared object",
                ),
            ),
        no_unwind when self.bears(ControlCall::GetSharedObject(_uuid))
    {
        Err(
            IoError::SimpleMessage(
                ErrorKind::Unsupported,
                "back end does not support get shared object",
            ),
        )
    }

    /// The map from queues to worker threads.
    ///
    /// [2, 2, 4] means that the first two queues are handled by worker thread 0, the next two by
    /// worker thread 1, and the last four by worker thread 2.
    fn queues_per_thread(&self) -> (result: Vec<u64>)
        default_ensures
            result@ == seq![0xffff_ffffu64],
    {
        let mut queues: Vec<u64> = Vec::new();
        queues.push(0xffff_ffff);
        queues
    }

    /// Takes the port that worker thread `thread_index` waits on, before its loop starts.
    ///
    /// A device that submits operations of its own keeps the port, and uses it under keys above
    /// `num_queues()`.
    fn attach(
        &self,
        _thread_index: usize,
        _port: Arc<Self::Port>,
    ) -> (result: Result<(), IoError>)
        default_ensures
            result == Ok::<(), IoError>(()),
        no_unwind when self.bears_port(_thread_index, _port)
    {
        Ok(())
    }

    /// A kick came for `vrings[vring]`, which is enabled.
    ///
    /// `vrings` are the rings of worker thread `thread_id`. There is nothing left to read of the
    /// signal.
    fn handle_kick(
        &self,
        vring: u16,
        vrings: &[Self::Vring],
        thread_id: usize,
    ) -> (result: Result<(), IoError>)
        requires
            vring::seen_enabled(vring, vrings@),
        no_unwind when self.bears_in_loop(LoopCall::Kick(vring), vrings@, thread_id)
    ;

    /// The port delivered something other than a kick or the exit packet of the loop: an operation
    /// that this device submitted, a signal that it registered, or a packet under a key of its own.
    fn handle_completion(
        &self,
        completion: Completion<Self::Operation>,
        vrings: &[Self::Vring],
        thread_id: usize,
    ) -> (result: Result<(), IoError>)
        requires
            !completion.is_kick(vrings@.len() as int),
        no_unwind when self.bears_in_loop(LoopCall::Completion(completion), vrings@, thread_id)
    ;

    /// Starts to save the state of the device to `file`, or to load it from there.
    fn set_device_state_fd(
        &self,
        _direction: VhostTransferStateDirection,
        _phase: VhostTransferStatePhase,
        _file: Self::File,
    ) -> (result: Result<Option<Self::File>, IoError>)
        default_ensures
            result == Err::<Option<Self::File>, IoError>(
                IoError::SimpleMessage(
                    ErrorKind::Unsupported,
                    "back end does not support state transfer",
                ),
            ),
        no_unwind when self.bears(ControlCall::SetDeviceState(_direction, _phase, _file))
    {
        Err(
            IoError::SimpleMessage(
                ErrorKind::Unsupported,
                "back end does not support state transfer",
            ),
        )
    }

    /// The outcome of the last transfer of the state of the device.
    fn check_device_state(&self) -> (result: Result<(), IoError>)
        default_ensures
            result == Err::<(), IoError>(
                IoError::SimpleMessage(
                    ErrorKind::Unsupported,
                    "back end does not support state transfer",
                ),
            ),
        no_unwind when self.bears(ControlCall::CheckDeviceState)
    {
        Err(
            IoError::SimpleMessage(
                ErrorKind::Unsupported,
                "back end does not support state transfer",
            ),
        )
    }

    /// The shared memory regions of the device.
    fn get_shmem_config(&self) -> (result: Result<Self::ShMemConfig, IoError>)
        default_ensures
            result == Err::<Self::ShMemConfig, IoError>(
                IoError::SimpleMessage(
                    ErrorKind::Unsupported,
                    "back end does not support shared memory regions",
                ),
            ),
        no_unwind when self.bears(ControlCall::GetShmemConfig)
    {
        Err(
            IoError::SimpleMessage(
                ErrorKind::Unsupported,
                "back end does not support shared memory regions",
            ),
        )
    }
}

/// A device on the completion-port loop that leaves mutability to a lock around it.
pub trait VhostUserCompletionBackendMut: Send + Sync + Sized {
    /// The memory of the guest.
    type Memory;

    /// A ring of the device.
    type Vring: VringT;

    /// An object that the protocol passes between peers.
    type File;

    /// What a worker thread waits on.
    type Port;

    /// An operation that the device submits.
    type Operation;

    /// The configuration of shared memory regions.
    type ShMemConfig;

    /// The number of queues.
    fn num_queues(&self) -> (result: usize);

    /// The largest size of a queue.
    fn max_queue_size(&self) -> (result: usize);

    /// The virtio features that the device offers.
    fn features(&self) -> (result: u64);

    /// Takes note of the virtio features that were agreed on.
    fn acked_features(&mut self, _features: u64)
        default_ensures
            *final(self) == *old(self),
    {
    }

    /// The vhost protocol features that the device offers.
    fn protocol_features(&self) -> (result: u64);

    /// Resets the state of the device.
    fn reset_device(&mut self)
        default_ensures
            *final(self) == *old(self),
    {
    }

    /// Enables or disables the virtio EVENT_IDX feature.
    fn set_event_idx(&mut self, enabled: bool);

    /// The configuration of the device, from `offset` on.
    fn get_config(&self, _offset: u32, _size: u32) -> (result: Vec<u8>)
        default_ensures
            result@ == Seq::<u8>::empty(),
    {
        Vec::new()
    }

    /// Sets the configuration of the device, from `offset` on.
    fn set_config(&mut self, _offset: u32, _buf: &[u8]) -> (result: Result<(), IoError>)
        default_ensures
            result == Ok::<(), IoError>(()),
            *final(self) == *old(self),
    {
        Ok(())
    }

    /// Takes note of the regions of guest memory.
    fn update_memory(&mut self, mem: Self::Memory) -> (result: Result<(), IoError>);

    /// The object that is shared under `uuid`, for the frontend to use.
    fn get_shared_object(
        &mut self,
        _uuid: VhostUserSharedMsg,
    ) -> (result: Result<Self::File, IoError>)
        default_ensures
            result == Err::<Self::File, IoError>(
                IoError::SimpleMessage(
                    ErrorKind::Unsupported,
                    "back end does not support get shared object",
                ),
            ),
            *final(self) == *old(self),
    {
        Err(
            IoError::SimpleMessage(
                ErrorKind::Unsupported,
                "back end does not support get shared object",
            ),
        )
    }

    /// The map from queues to worker threads.
    ///
    /// [2, 2, 4] means that the first two queues are handled by worker thread 0, the next two by
    /// worker thread 1, and the last four by worker thread 2.
    fn queues_per_thread(&self) -> (result: Vec<u64>)
        default_ensures
            result@ == seq![0xffff_ffffu64],
    {
        let mut queues: Vec<u64> = Vec::new();
        queues.push(0xffff_ffff);
        queues
    }

    /// Takes the port that worker thread `thread_index` waits on, before its loop starts.
    ///
    /// A device that submits operations of its own keeps the port, and uses it under keys above
    /// `num_queues()`.
    fn attach(
        &mut self,
        _thread_index: usize,
        _port: Arc<Self::Port>,
    ) -> (result: Result<(), IoError>)
        default_ensures
            result == Ok::<(), IoError>(()),
            *final(self) == *old(self),
    {
        Ok(())
    }

    /// A kick came for `vrings[vring]`, which is enabled.
    ///
    /// `vrings` are the rings of worker thread `thread_id`. There is nothing left to read of the
    /// signal.
    fn handle_kick(
        &mut self,
        vring: u16,
        vrings: &[Self::Vring],
        thread_id: usize,
    ) -> (result: Result<(), IoError>)
        requires
            vring::seen_enabled(vring, vrings@),
    ;

    /// The port delivered something other than a kick or the exit packet of the loop: an operation
    /// that this device submitted, a signal that it registered, or a packet under a key of its own.
    fn handle_completion(
        &mut self,
        completion: Completion<Self::Operation>,
        vrings: &[Self::Vring],
        thread_id: usize,
    ) -> (result: Result<(), IoError>)
        requires
            !completion.is_kick(vrings@.len() as int),
    ;

    /// Starts to save the state of the device to `file`, or to load it from there.
    fn set_device_state_fd(
        &mut self,
        _direction: VhostTransferStateDirection,
        _phase: VhostTransferStatePhase,
        _file: Self::File,
    ) -> (result: Result<Option<Self::File>, IoError>)
        default_ensures
            result == Err::<Option<Self::File>, IoError>(
                IoError::SimpleMessage(
                    ErrorKind::Unsupported,
                    "back end does not support state transfer",
                ),
            ),
            *final(self) == *old(self),
    {
        Err(
            IoError::SimpleMessage(
                ErrorKind::Unsupported,
                "back end does not support state transfer",
            ),
        )
    }

    /// The outcome of the last transfer of the state of the device.
    fn check_device_state(&self) -> (result: Result<(), IoError>)
        default_ensures
            result == Err::<(), IoError>(
                IoError::SimpleMessage(
                    ErrorKind::Unsupported,
                    "back end does not support state transfer",
                ),
            ),
    {
        Err(
            IoError::SimpleMessage(
                ErrorKind::Unsupported,
                "back end does not support state transfer",
            ),
        )
    }

    /// The shared memory regions of the device.
    fn get_shmem_config(&self) -> (result: Result<Self::ShMemConfig, IoError>)
        default_ensures
            result == Err::<Self::ShMemConfig, IoError>(
                IoError::SimpleMessage(
                    ErrorKind::Unsupported,
                    "back end does not support shared memory regions",
                ),
            ),
    {
        Err(
            IoError::SimpleMessage(
                ErrorKind::Unsupported,
                "back end does not support shared memory regions",
            ),
        )
    }
}

impl<T: VhostUserCompletionBackend> VhostUserCompletionBackend for Arc<T> {
    type Memory = T::Memory;

    type Vring = T::Vring;

    type File = T::File;

    type Port = T::Port;

    type Operation = T::Operation;

    type ShMemConfig = T::ShMemConfig;

    open spec fn bears(&self, call: ControlCall<Self::Memory, Self::File>) -> bool {
        (**self).bears(call)
    }

    open spec fn bears_in_loop(
        &self,
        call: LoopCall<Self::Operation>,
        vrings: Seq<Self::Vring>,
        thread_id: usize,
    ) -> bool {
        (**self).bears_in_loop(call, vrings, thread_id)
    }

    open spec fn bears_port(&self, thread_id: usize, port: Arc<Self::Port>) -> bool {
        (**self).bears_port(thread_id, port)
    }

    fn num_queues(&self) -> (result: usize)
        ensures
            call_ensures(T::num_queues, (&**self,), result),
    {
        (**self).num_queues()
    }

    fn max_queue_size(&self) -> (result: usize)
        ensures
            call_ensures(T::max_queue_size, (&**self,), result),
    {
        (**self).max_queue_size()
    }

    fn features(&self) -> (result: u64)
        ensures
            call_ensures(T::features, (&**self,), result),
    {
        (**self).features()
    }

    fn acked_features(&self, features: u64)
        ensures
            call_ensures(T::acked_features, (&**self, features), ()),
    {
        (**self).acked_features(features)
    }

    fn protocol_features(&self) -> (result: u64)
        ensures
            call_ensures(T::protocol_features, (&**self,), result),
    {
        (**self).protocol_features()
    }

    fn reset_device(&self)
        ensures
            call_ensures(T::reset_device, (&**self,), ()),
    {
        (**self).reset_device()
    }

    fn set_event_idx(&self, enabled: bool)
        ensures
            call_ensures(T::set_event_idx, (&**self, enabled), ()),
    {
        (**self).set_event_idx(enabled)
    }

    fn get_config(&self, offset: u32, size: u32) -> (result: Vec<u8>)
        ensures
            call_ensures(T::get_config, (&**self, offset, size), result),
    {
        (**self).get_config(offset, size)
    }

    fn set_config(&self, offset: u32, buf: &[u8]) -> (result: Result<(), IoError>)
        ensures
            call_ensures(T::set_config, (&**self, offset, buf), result),
    {
        (**self).set_config(offset, buf)
    }

    fn update_memory(&self, mem: Self::Memory) -> (result: Result<(), IoError>)
        ensures
            call_ensures(T::update_memory, (&**self, mem), result),
    {
        (**self).update_memory(mem)
    }

    fn get_shared_object(&self, uuid: VhostUserSharedMsg) -> (result: Result<Self::File, IoError>)
        ensures
            call_ensures(T::get_shared_object, (&**self, uuid), result),
    {
        (**self).get_shared_object(uuid)
    }

    fn queues_per_thread(&self) -> (result: Vec<u64>)
        ensures
            call_ensures(T::queues_per_thread, (&**self,), result),
    {
        (**self).queues_per_thread()
    }

    fn attach(&self, thread_index: usize, port: Arc<Self::Port>) -> (result: Result<(), IoError>)
        ensures
            call_ensures(T::attach, (&**self, thread_index, port), result),
    {
        (**self).attach(thread_index, port)
    }

    fn handle_kick(
        &self,
        vring: u16,
        vrings: &[Self::Vring],
        thread_id: usize,
    ) -> (result: Result<(), IoError>)
        ensures
            call_ensures(T::handle_kick, (&**self, vring, vrings, thread_id), result),
    {
        (**self).handle_kick(vring, vrings, thread_id)
    }

    fn handle_completion(
        &self,
        completion: Completion<Self::Operation>,
        vrings: &[Self::Vring],
        thread_id: usize,
    ) -> (result: Result<(), IoError>)
        ensures
            call_ensures(T::handle_completion, (&**self, completion, vrings, thread_id), result),
    {
        (**self).handle_completion(completion, vrings, thread_id)
    }

    fn set_device_state_fd(
        &self,
        direction: VhostTransferStateDirection,
        phase: VhostTransferStatePhase,
        file: Self::File,
    ) -> (result: Result<Option<Self::File>, IoError>)
        ensures
            call_ensures(T::set_device_state_fd, (&**self, direction, phase, file), result),
    {
        (**self).set_device_state_fd(direction, phase, file)
    }

    fn check_device_state(&self) -> (result: Result<(), IoError>)
        ensures
            call_ensures(T::check_device_state, (&**self,), result),
    {
        (**self).check_device_state()
    }

    fn get_shmem_config(&self) -> (result: Result<Self::ShMemConfig, IoError>)
        ensures
            call_ensures(T::get_shmem_config, (&**self,), result),
    {
        (**self).get_shmem_config()
    }
}

impl<T: VhostUserCompletionBackendMut> VhostUserCompletionBackend for Mutex<T> {
    type Memory = T::Memory;

    type Vring = T::Vring;

    type File = T::File;

    type Port = T::Port;

    type Operation = T::Operation;

    type ShMemConfig = T::ShMemConfig;

    fn num_queues(&self) -> (result: usize)
        ensures
            exists|guard: MutexGuard<'_, T>, device: &T|
                {
                    &&& locks::locks_with(self, guard)
                    &&& #[trigger] locks::mutex_shows(guard, device)
                    &&& #[trigger] call_ensures(T::num_queues, (device,), result)
                },
    {
        let guard = locks::lock(self);
        let device = locks::locked(&guard);
        device.num_queues()
    }

    fn max_queue_size(&self) -> (result: usize)
        ensures
            exists|guard: MutexGuard<'_, T>, device: &T|
                {
                    &&& locks::locks_with(self, guard)
                    &&& #[trigger] locks::mutex_shows(guard, device)
                    &&& #[trigger] call_ensures(T::max_queue_size, (device,), result)
                },
    {
        let guard = locks::lock(self);
        let device = locks::locked(&guard);
        device.max_queue_size()
    }

    fn features(&self) -> (result: u64)
        ensures
            exists|guard: MutexGuard<'_, T>, device: &T|
                {
                    &&& locks::locks_with(self, guard)
                    &&& #[trigger] locks::mutex_shows(guard, device)
                    &&& #[trigger] call_ensures(T::features, (device,), result)
                },
    {
        let guard = locks::lock(self);
        let device = locks::locked(&guard);
        device.features()
    }

    fn acked_features(&self, features: u64)
        ensures
            exists|guard: MutexGuard<'_, T>, value: &mut T, device: &mut T|
                {
                    &&& locks::locks_with(self, guard)
                    &&& #[trigger] locks::mutex_gives(guard, value)
                    &&& *device == *value && *final(device) == *final(value)
                    &&& #[trigger] call_ensures(T::acked_features, (device, features), ())
                },
    {
        let mut guard = locks::lock(self);
        let device = locks::locked_to_change(&mut guard);
        device.acked_features(features)
    }

    fn protocol_features(&self) -> (result: u64)
        ensures
            exists|guard: MutexGuard<'_, T>, device: &T|
                {
                    &&& locks::locks_with(self, guard)
                    &&& #[trigger] locks::mutex_shows(guard, device)
                    &&& #[trigger] call_ensures(T::protocol_features, (device,), result)
                },
    {
        let guard = locks::lock(self);
        let device = locks::locked(&guard);
        device.protocol_features()
    }

    fn reset_device(&self)
        ensures
            exists|guard: MutexGuard<'_, T>, value: &mut T, device: &mut T|
                {
                    &&& locks::locks_with(self, guard)
                    &&& #[trigger] locks::mutex_gives(guard, value)
                    &&& *device == *value && *final(device) == *final(value)
                    &&& #[trigger] call_ensures(T::reset_device, (device,), ())
                },
    {
        let mut guard = locks::lock(self);
        let device = locks::locked_to_change(&mut guard);
        device.reset_device()
    }

    fn set_event_idx(&self, enabled: bool)
        ensures
            exists|guard: MutexGuard<'_, T>, value: &mut T, device: &mut T|
                {
                    &&& locks::locks_with(self, guard)
                    &&& #[trigger] locks::mutex_gives(guard, value)
                    &&& *device == *value && *final(device) == *final(value)
                    &&& #[trigger] call_ensures(T::set_event_idx, (device, enabled), ())
                },
    {
        let mut guard = locks::lock(self);
        let device = locks::locked_to_change(&mut guard);
        device.set_event_idx(enabled)
    }

    fn get_config(&self, offset: u32, size: u32) -> (result: Vec<u8>)
        ensures
            exists|guard: MutexGuard<'_, T>, device: &T|
                {
                    &&& locks::locks_with(self, guard)
                    &&& #[trigger] locks::mutex_shows(guard, device)
                    &&& #[trigger] call_ensures(T::get_config, (device, offset, size), result)
                },
    {
        let guard = locks::lock(self);
        let device = locks::locked(&guard);
        device.get_config(offset, size)
    }

    fn set_config(&self, offset: u32, buf: &[u8]) -> (result: Result<(), IoError>)
        ensures
            exists|guard: MutexGuard<'_, T>, value: &mut T, device: &mut T|
                {
                    &&& locks::locks_with(self, guard)
                    &&& #[trigger] locks::mutex_gives(guard, value)
                    &&& *device == *value && *final(device) == *final(value)
                    &&& #[trigger] call_ensures(T::set_config, (device, offset, buf), result)
                },
    {
        let mut guard = locks::lock(self);
        let device = locks::locked_to_change(&mut guard);
        device.set_config(offset, buf)
    }

    fn update_memory(&self, mem: Self::Memory) -> (result: Result<(), IoError>)
        ensures
            exists|guard: MutexGuard<'_, T>, value: &mut T, device: &mut T|
                {
                    &&& locks::locks_with(self, guard)
                    &&& #[trigger] locks::mutex_gives(guard, value)
                    &&& *device == *value && *final(device) == *final(value)
                    &&& #[trigger] call_ensures(T::update_memory, (device, mem), result)
                },
    {
        let mut guard = locks::lock(self);
        let device = locks::locked_to_change(&mut guard);
        device.update_memory(mem)
    }

    fn get_shared_object(&self, uuid: VhostUserSharedMsg) -> (result: Result<Self::File, IoError>)
        ensures
            exists|guard: MutexGuard<'_, T>, value: &mut T, device: &mut T|
                {
                    &&& locks::locks_with(self, guard)
                    &&& #[trigger] locks::mutex_gives(guard, value)
                    &&& *device == *value && *final(device) == *final(value)
                    &&& #[trigger] call_ensures(T::get_shared_object, (device, uuid), result)
                },
    {
        let mut guard = locks::lock(self);
        let device = locks::locked_to_change(&mut guard);
        device.get_shared_object(uuid)
    }

    fn queues_per_thread(&self) -> (result: Vec<u64>)
        ensures
            exists|guard: MutexGuard<'_, T>, device: &T|
                {
                    &&& locks::locks_with(self, guard)
                    &&& #[trigger] locks::mutex_shows(guard, device)
                    &&& #[trigger] call_ensures(T::queues_per_thread, (device,), result)
                },
    {
        let guard = locks::lock(self);
        let device = locks::locked(&guard);
        device.queues_per_thread()
    }

    fn attach(&self, thread_index: usize, port: Arc<Self::Port>) -> (result: Result<(), IoError>)
        ensures
            exists|guard: MutexGuard<'_, T>, value: &mut T, device: &mut T|
                {
                    &&& locks::locks_with(self, guard)
                    &&& #[trigger] locks::mutex_gives(guard, value)
                    &&& *device == *value && *final(device) == *final(value)
                    &&& #[trigger] call_ensures(T::attach, (device, thread_index, port), result)
                },
    {
        let mut guard = locks::lock(self);
        let device = locks::locked_to_change(&mut guard);
        device.attach(thread_index, port)
    }

    fn handle_kick(
        &self,
        vring: u16,
        vrings: &[Self::Vring],
        thread_id: usize,
    ) -> (result: Result<(), IoError>)
        ensures
            exists|guard: MutexGuard<'_, T>, value: &mut T, device: &mut T|
                {
                    &&& locks::locks_with(self, guard)
                    &&& #[trigger] locks::mutex_gives(guard, value)
                    &&& *device == *value && *final(device) == *final(value)
                    &&& #[trigger] call_ensures(
                        T::handle_kick,
                        (device, vring, vrings, thread_id),
                        result,
                    )
                },
    {
        let mut guard = locks::lock(self);
        let device = locks::locked_to_change(&mut guard);
        device.handle_kick(vring, vrings, thread_id)
    }

    fn handle_completion(
        &self,
        completion: Completion<Self::Operation>,
        vrings: &[Self::Vring],
        thread_id: usize,
    ) -> (result: Result<(), IoError>)
        ensures
            exists|guard: MutexGuard<'_, T>, value: &mut T, device: &mut T|
                {
                    &&& locks::locks_with(self, guard)
                    &&& #[trigger] locks::mutex_gives(guard, value)
                    &&& *device == *value && *final(device) == *final(value)
                    &&& #[trigger] call_ensures(
                        T::handle_completion,
                        (device, completion, vrings, thread_id),
                        result,
                    )
                },
    {
        let mut guard = locks::lock(self);
        let device = locks::locked_to_change(&mut guard);
        device.handle_completion(completion, vrings, thread_id)
    }

    fn set_device_state_fd(
        &self,
        direction: VhostTransferStateDirection,
        phase: VhostTransferStatePhase,
        file: Self::File,
    ) -> (result: Result<Option<Self::File>, IoError>)
        ensures
            exists|guard: MutexGuard<'_, T>, value: &mut T, device: &mut T|
                {
                    &&& locks::locks_with(self, guard)
                    &&& #[trigger] locks::mutex_gives(guard, value)
                    &&& *device == *value && *final(device) == *final(value)
                    &&& #[trigger] call_ensures(
                        T::set_device_state_fd,
                        (device, direction, phase, file),
                        result,
                    )
                },
    {
        let mut guard = locks::lock(self);
        let device = locks::locked_to_change(&mut guard);
        device.set_device_state_fd(direction, phase, file)
    }

    fn check_device_state(&self) -> (result: Result<(), IoError>)
        ensures
            exists|guard: MutexGuard<'_, T>, device: &T|
                {
                    &&& locks::locks_with(self, guard)
                    &&& #[trigger] locks::mutex_shows(guard, device)
                    &&& #[trigger] call_ensures(T::check_device_state, (device,), result)
                },
    {
        let guard = locks::lock(self);
        let device = locks::locked(&guard);
        device.check_device_state()
    }

    fn get_shmem_config(&self) -> (result: Result<Self::ShMemConfig, IoError>)
        ensures
            exists|guard: MutexGuard<'_, T>, device: &T|
                {
                    &&& locks::locks_with(self, guard)
                    &&& #[trigger] locks::mutex_shows(guard, device)
                    &&& #[trigger] call_ensures(T::get_shmem_config, (device,), result)
                },
    {
        let guard = locks::lock(self);
        let device = locks::locked(&guard);
        device.get_shmem_config()
    }
}

impl<T: VhostUserCompletionBackendMut> VhostUserCompletionBackend for RwLock<T> {
    type Memory = T::Memory;

    type Vring = T::Vring;

    type File = T::File;

    type Port = T::Port;

    type Operation = T::Operation;

    type ShMemConfig = T::ShMemConfig;

    fn num_queues(&self) -> (result: usize)
        ensures
            exists|guard: RwLockReadGuard<'_, T>, device: &T|
                {
                    &&& locks::reads_with(self, guard)
                    &&& #[trigger] locks::lock_shows(guard, device)
                    &&& #[trigger] call_ensures(T::num_queues, (device,), result)
                },
    {
        let guard = locks::read(self);
        let device = locks::shared(&guard);
        device.num_queues()
    }

    fn max_queue_size(&self) -> (result: usize)
        ensures
            exists|guard: RwLockReadGuard<'_, T>, device: &T|
                {
                    &&& locks::reads_with(self, guard)
                    &&& #[trigger] locks::lock_shows(guard, device)
                    &&& #[trigger] call_ensures(T::max_queue_size, (device,), result)
                },
    {
        let guard = locks::read(self);
        let device = locks::shared(&guard);
        device.max_queue_size()
    }

    fn features(&self) -> (result: u64)
        ensures
            exists|guard: RwLockReadGuard<'_, T>, device: &T|
                {
                    &&& locks::reads_with(self, guard)
                    &&& #[trigger] locks::lock_shows(guard, device)
                    &&& #[trigger] call_ensures(T::features, (device,), result)
                },
    {
        let guard = locks::read(self);
        let device = locks::shared(&guard);
        device.features()
    }

    fn acked_features(&self, features: u64)
        ensures
            exists|guard: RwLockWriteGuard<'_, T>, value: &mut T, device: &mut T|
                {
                    &&& locks::writes_with(self, guard)
                    &&& #[trigger] locks::lock_gives(guard, value)
                    &&& *device == *value && *final(device) == *final(value)
                    &&& #[trigger] call_ensures(T::acked_features, (device, features), ())
                },
    {
        let mut guard = locks::write(self);
        let device = locks::exclusive(&mut guard);
        device.acked_features(features)
    }

    fn protocol_features(&self) -> (result: u64)
        ensures
            exists|guard: RwLockReadGuard<'_, T>, device: &T|
                {
                    &&& locks::reads_with(self, guard)
                    &&& #[trigger] locks::lock_shows(guard, device)
                    &&& #[trigger] call_ensures(T::protocol_features, (device,), result)
                },
    {
        let guard = locks::read(self);
        let device = locks::shared(&guard);
        device.protocol_features()
    }

    fn reset_device(&self)
        ensures
            exists|guard: RwLockWriteGuard<'_, T>, value: &mut T, device: &mut T|
                {
                    &&& locks::writes_with(self, guard)
                    &&& #[trigger] locks::lock_gives(guard, value)
                    &&& *device == *value && *final(device) == *final(value)
                    &&& #[trigger] call_ensures(T::reset_device, (device,), ())
                },
    {
        let mut guard = locks::write(self);
        let device = locks::exclusive(&mut guard);
        device.reset_device()
    }

    fn set_event_idx(&self, enabled: bool)
        ensures
            exists|guard: RwLockWriteGuard<'_, T>, value: &mut T, device: &mut T|
                {
                    &&& locks::writes_with(self, guard)
                    &&& #[trigger] locks::lock_gives(guard, value)
                    &&& *device == *value && *final(device) == *final(value)
                    &&& #[trigger] call_ensures(T::set_event_idx, (device, enabled), ())
                },
    {
        let mut guard = locks::write(self);
        let device = locks::exclusive(&mut guard);
        device.set_event_idx(enabled)
    }

    fn get_config(&self, offset: u32, size: u32) -> (result: Vec<u8>)
        ensures
            exists|guard: RwLockReadGuard<'_, T>, device: &T|
                {
                    &&& locks::reads_with(self, guard)
                    &&& #[trigger] locks::lock_shows(guard, device)
                    &&& #[trigger] call_ensures(T::get_config, (device, offset, size), result)
                },
    {
        let guard = locks::read(self);
        let device = locks::shared(&guard);
        device.get_config(offset, size)
    }

    fn set_config(&self, offset: u32, buf: &[u8]) -> (result: Result<(), IoError>)
        ensures
            exists|guard: RwLockWriteGuard<'_, T>, value: &mut T, device: &mut T|
                {
                    &&& locks::writes_with(self, guard)
                    &&& #[trigger] locks::lock_gives(guard, value)
                    &&& *device == *value && *final(device) == *final(value)
                    &&& #[trigger] call_ensures(T::set_config, (device, offset, buf), result)
                },
    {
        let mut guard = locks::write(self);
        let device = locks::exclusive(&mut guard);
        device.set_config(offset, buf)
    }

    fn update_memory(&self, mem: Self::Memory) -> (result: Result<(), IoError>)
        ensures
            exists|guard: RwLockWriteGuard<'_, T>, value: &mut T, device: &mut T|
                {
                    &&& locks::writes_with(self, guard)
                    &&& #[trigger] locks::lock_gives(guard, value)
                    &&& *device == *value && *final(device) == *final(value)
                    &&& #[trigger] call_ensures(T::update_memory, (device, mem), result)
                },
    {
        let mut guard = locks::write(self);
        let device = locks::exclusive(&mut guard);
        device.update_memory(mem)
    }

    fn get_shared_object(&self, uuid: VhostUserSharedMsg) -> (result: Result<Self::File, IoError>)
        ensures
            exists|guard: RwLockWriteGuard<'_, T>, value: &mut T, device: &mut T|
                {
                    &&& locks::writes_with(self, guard)
                    &&& #[trigger] locks::lock_gives(guard, value)
                    &&& *device == *value && *final(device) == *final(value)
                    &&& #[trigger] call_ensures(T::get_shared_object, (device, uuid), result)
                },
    {
        let mut guard = locks::write(self);
        let device = locks::exclusive(&mut guard);
        device.get_shared_object(uuid)
    }

    fn queues_per_thread(&self) -> (result: Vec<u64>)
        ensures
            exists|guard: RwLockReadGuard<'_, T>, device: &T|
                {
                    &&& locks::reads_with(self, guard)
                    &&& #[trigger] locks::lock_shows(guard, device)
                    &&& #[trigger] call_ensures(T::queues_per_thread, (device,), result)
                },
    {
        let guard = locks::read(self);
        let device = locks::shared(&guard);
        device.queues_per_thread()
    }

    fn attach(&self, thread_index: usize, port: Arc<Self::Port>) -> (result: Result<(), IoError>)
        ensures
            exists|guard: RwLockWriteGuard<'_, T>, value: &mut T, device: &mut T|
                {
                    &&& locks::writes_with(self, guard)
                    &&& #[trigger] locks::lock_gives(guard, value)
                    &&& *device == *value && *final(device) == *final(value)
                    &&& #[trigger] call_ensures(T::attach, (device, thread_index, port), result)
                },
    {
        let mut guard = locks::write(self);
        let device = locks::exclusive(&mut guard);
        device.attach(thread_index, port)
    }

    fn handle_kick(
        &self,
        vring: u16,
        vrings: &[Self::Vring],
        thread_id: usize,
    ) -> (result: Result<(), IoError>)
        ensures
            exists|guard: RwLockWriteGuard<'_, T>, value: &mut T, device: &mut T|
                {
                    &&& locks::writes_with(self, guard)
                    &&& #[trigger] locks::lock_gives(guard, value)
                    &&& *device == *value && *final(device) == *final(value)
                    &&& #[trigger] call_ensures(
                        T::handle_kick,
                        (device, vring, vrings, thread_id),
                        result,
                    )
                },
    {
        let mut guard = locks::write(self);
        let device = locks::exclusive(&mut guard);
        device.handle_kick(vring, vrings, thread_id)
    }

    fn handle_completion(
        &self,
        completion: Completion<Self::Operation>,
        vrings: &[Self::Vring],
        thread_id: usize,
    ) -> (result: Result<(), IoError>)
        ensures
            exists|guard: RwLockWriteGuard<'_, T>, value: &mut T, device: &mut T|
                {
                    &&& locks::writes_with(self, guard)
                    &&& #[trigger] locks::lock_gives(guard, value)
                    &&& *device == *value && *final(device) == *final(value)
                    &&& #[trigger] call_ensures(
                        T::handle_completion,
                        (device, completion, vrings, thread_id),
                        result,
                    )
                },
    {
        let mut guard = locks::write(self);
        let device = locks::exclusive(&mut guard);
        device.handle_completion(completion, vrings, thread_id)
    }

    fn set_device_state_fd(
        &self,
        direction: VhostTransferStateDirection,
        phase: VhostTransferStatePhase,
        file: Self::File,
    ) -> (result: Result<Option<Self::File>, IoError>)
        ensures
            exists|guard: RwLockWriteGuard<'_, T>, value: &mut T, device: &mut T|
                {
                    &&& locks::writes_with(self, guard)
                    &&& #[trigger] locks::lock_gives(guard, value)
                    &&& *device == *value && *final(device) == *final(value)
                    &&& #[trigger] call_ensures(
                        T::set_device_state_fd,
                        (device, direction, phase, file),
                        result,
                    )
                },
    {
        let mut guard = locks::write(self);
        let device = locks::exclusive(&mut guard);
        device.set_device_state_fd(direction, phase, file)
    }

    fn check_device_state(&self) -> (result: Result<(), IoError>)
        ensures
            exists|guard: RwLockReadGuard<'_, T>, device: &T|
                {
                    &&& locks::reads_with(self, guard)
                    &&& #[trigger] locks::lock_shows(guard, device)
                    &&& #[trigger] call_ensures(T::check_device_state, (device,), result)
                },
    {
        let guard = locks::read(self);
        let device = locks::shared(&guard);
        device.check_device_state()
    }

    fn get_shmem_config(&self) -> (result: Result<Self::ShMemConfig, IoError>)
        ensures
            exists|guard: RwLockReadGuard<'_, T>, device: &T|
                {
                    &&& locks::reads_with(self, guard)
                    &&& #[trigger] locks::lock_shows(guard, device)
                    &&& #[trigger] call_ensures(T::get_shmem_config, (device,), result)
                },
    {
        let guard = locks::read(self);
        let device = locks::shared(&guard);
        device.get_shmem_config()
    }
}

} // verus!
