//! Devices that run on the epoll loop.

use vstd::prelude::*;

use crate::completion_backend::{
    ControlCall, VhostTransferStateDirection, VhostTransferStatePhase, VhostUserSharedMsg,
};
use crate::error::{ErrorKind, IoError};
use crate::vring::VringT;

verus! {

/// A device on the epoll loop, as the control channel sees it.
pub trait VhostUserBackend: Send + Sync {
    /// The memory of the guest.
    type Memory;

    /// A ring of the device.
    type Vring: VringT;

    /// An object that the protocol passes between peers.
    type File;

    /// The configuration of shared memory regions.
    type ShMemConfig;

    /// The channel on which the device sends requests of its own.
    type Backend;

    /// The channel on which the device sends its GPU messages.
    type GpuBackend;

    /// The device comes through this call of the control channel without a panic.
    ///
    /// A device that says nothing may panic on any.
    open spec fn bears(&self, _call: ControlCall<Self::Memory, Self::File>) -> bool {
        false
    }

    /// The device comes through being given this channel for its own requests without a panic.
    open spec fn bears_backend(&self, _backend: Self::Backend) -> bool {
        false
    }

    /// The device comes through being given this channel for its GPU messages without a panic.
    open spec fn bears_gpu_backend(&self, _gpu_backend: Self::GpuBackend) -> bool {
        false
    }

    /// The number of queues.
    fn num_queues(&self) -> (result: usize)
        no_unwind when self.bears(ControlCall::NumQueues)
    ;

    /// The largest size of a queue.
    fn max_queue_size(&self) -> (result: usize)
        no_unwind when self.bears(ControlCall::MaxQueueSize)
    ;

    /// The virtio features that the device offers.
    fn features(&self) -> (result: u64)
        no_unwind when self.bears(ControlCall::Features)
    ;

    /// Takes note of the virtio features that were agreed on.
    fn acked_features(&self, _features: u64)
        no_unwind when self.bears(ControlCall::AckedFeatures(_features))
    {
    }

    /// The vhost protocol features that the device offers.
    fn protocol_features(&self) -> (result: u64)
        no_unwind when self.bears(ControlCall::ProtocolFeatures)
    ;

    /// Resets the state of the device.
    fn reset_device(&self)
        no_unwind when self.bears(ControlCall::ResetDevice)
    {
    }

    /// Enables or disables the virtio EVENT_IDX feature.
    fn set_event_idx(&self, enabled: bool)
        no_unwind when self.bears(ControlCall::SetEventIdx(enabled))
    ;

    /// The configuration of the device, from `offset` on.
    fn get_config(&self, _offset: u32, _size: u32) -> (result: Vec<u8>)
        default_ensures
            result@ == Seq::<u8>::empty(),
    {
        Vec::new()
    }

    /// Sets the configuration of the device, from `offset` on.
    fn set_config(&self, _offset: u32, _buf: &[u8]) -> (result: Result<(), IoError>)
        default_ensures
            result == Ok::<(), IoError>(()),
        no_unwind when self.bears(ControlCall::SetConfig(_offset, _buf@))
    {
        Ok(())
    }

    /// Takes note of the regions of guest memory.
    fn update_memory(&self, mem: Self::Memory) -> (result: Result<(), IoError>)
        no_unwind when self.bears(ControlCall::UpdateMemory(mem))
    ;

    /// The object that is shared under `uuid`, for the frontend to use.
    fn get_shared_object(
        &self,
        _uuid: VhostUserSharedMsg,
    ) -> (result: Result<Self::File, IoError>)
        default_ensures
            result == Err::<Self::File, IoError>(
                IoError::SimpleMessage(
                    ErrorKind::Unsupported,
                    "back end does not support get shared object",
                ),
            ),
        no_unwind when self.bears(ControlCall::GetSharedObject(_uuid))
    {
        Err(
            IoError::SimpleMessage(
                ErrorKind::Unsupported,
                "back end does not support get shared object",
            ),
        )
    }

    /// The map from queues to worker threads.
    ///
    /// [2, 2, 4] means that the first two queues are handled by worker thread 0, the next two by
    /// worker thread 1, and the last four by worker thread 2.
    fn queues_per_thread(&self) -> (result: Vec<u64>)
        default_ensures
            result@ == seq![0xffff_ffffu64],
    {
        let mut queues: Vec<u64> = Vec::new();
        queues.push(0xffff_ffff);
        queues
    }

    /// Starts to save the state of the device to `file`, or to load it from there.
    fn set_device_state_fd(
        &self,
        _direction: VhostTransferStateDirection,
        _phase: VhostTransferStatePhase,
        _file: Self::File,
    ) -> (result: Result<Option<Self::File>, IoError>)
        default_ensures
            result == Err::<Option<Self::File>, IoError>(
                IoError::SimpleMessage(
                    ErrorKind::Unsupported,
                    "back end does not support state transfer",
                ),
            ),
        no_unwind when self.bears(ControlCall::SetDeviceState(_direction, _phase, _file))
    {
        Err(
            IoError::SimpleMessage(
                ErrorKind::Unsupported,
                "back end does not support state transfer",
            ),
        )
    }

    /// The outcome of the last transfer of the state of the device.
    fn check_device_state(&self) -> (result: Result<(), IoError>)
        default_ensures
            result == Err::<(), IoError>(
                IoError::SimpleMessage(
                    ErrorKind::Unsupported,
                    "back end does not support state transfer",
                ),
            ),
        no_unwind when self.bears(ControlCall::CheckDeviceState)
    {
        Err(
            IoError::SimpleMessage(
                ErrorKind::Unsupported,
                "back end does not support state transfer",
            ),
        )
    }

    /// The shared memory regions of the device.
    fn get_shmem_config(&self) -> (result: Result<Self::ShMemConfig, IoError>)
        default_ensures
            result == Err::<Self::ShMemConfig, IoError>(
                IoError::SimpleMessage(
                    ErrorKind::Unsupported,
                    "back end does not support shared memory regions",
                ),
            ),
        no_unwind when self.bears(ControlCall::GetShmemConfig)
    {
        Err(
            IoError::SimpleMessage(
                ErrorKind::Unsupported,
                "back end does not support shared memory regions",
            ),
        )
    }

    /// Takes the channel on which the device sends requests of its own.
    fn set_backend_req_fd(&self, backend: Self::Backend)
        no_unwind when self.bears_backend(backend)
    ;

    /// Takes the channel on which the device sends its GPU messages.
    fn set_gpu_socket(&self, gpu_backend: Self::GpuBackend) -> (result: Result<(), IoError>)
        no_unwind when self.bears_gpu_backend(gpu_backend)
    ;
}

} // verus!
