//! The half of a device that the control channel talks to, whichever loop the device runs on.

use std::marker::PhantomData;
use std::sync::Arc;

use vstd::prelude::*;

use crate::backend::VhostUserBackend;
use crate::completion_backend::{
    ControlCall, VhostTransferStateDirection, VhostTransferStatePhase, VhostUserCompletionBackend,
    VhostUserSharedMsg,
};
use crate::completion_loop::VringCompletionHandler;
use crate::error::IoError;
use crate::vring::VringT;

verus! {

/// The epoll loop over a device.
pub struct VringEpollHandler<T> {
    pub device: PhantomData<T>,
}

/// The methods that every device has, whichever loop it runs on.
///
/// Nothing implements this by hand. Every `VhostUserBackend` is a
/// `ProtocolBackend<VringEpollHandler<Self>>`, and every `VhostUserCompletionBackend` is a
/// `ProtocolBackend<VringCompletionHandler<Self>>`. The parameter is what lets the two coexist.
pub trait ProtocolBackend<W>: Send + Sync {
    /// The memory of the guest.
    type Memory;

    /// A ring of the device.
    type Vring: VringT;

    /// An object that the protocol passes between peers.
    type File;

    /// The configuration of shared memory regions.
    type ShMemConfig;

    /// The call comes through without a panic.
    spec fn passes(&self, call: ControlCall<Self::Memory, Self::File>) -> bool;

    /// The number of queues.
    fn num_queues(&self) -> (result: usize)
        no_unwind when self.passes(ControlCall::NumQueues)
    ;

    /// The largest size of a queue.
    fn max_queue_size(&self) -> (result: usize)
        no_unwind when self.passes(ControlCall::MaxQueueSize)
    ;

    /// The virtio features that the device offers.
    fn features(&self) -> (result: u64)
        no_unwind when self.passes(ControlCall::Features)
    ;

    /// Takes note of the virtio features that were agreed on.
    fn acked_features(&self, features: u64)
        no_unwind when self.passes(ControlCall::AckedFeatures(features))
    ;

    /// The vhost protocol features that the device offers.
    fn protocol_features(&self) -> (result: u64)
        no_unwind when self.passes(ControlCall::ProtocolFeatures)
    ;

    /// Resets the state of the device.
    fn reset_device(&self)
        no_unwind when self.passes(ControlCall::ResetDevice)
    ;

    /// Enables or disables the virtio EVENT_IDX feature.
    fn set_event_idx(&self, enabled: bool)
        no_unwind when self.passes(ControlCall::SetEventIdx(enabled))
    ;

    /// The configuration of the device, from `offset` on.
    fn get_config(&self, offset: u32, size: u32) -> (result: Vec<u8>);

    /// Sets the configuration of the device, from `offset` on.
    fn set_config(&self, offset: u32, buf: &[u8]) -> (result: Result<(), IoError>)
        no_unwind when self.passes(ControlCall::SetConfig(offset, buf@))
    ;

    /// Takes note of the regions of guest memory.
    fn update_memory(&self, mem: Self::Memory) -> (result: Result<(), IoError>)
        no_unwind when self.passes(ControlCall::UpdateMemory(mem))
    ;

    /// The object that is shared under `uuid`, for the frontend to use.
    fn get_shared_object(&self, uuid: VhostUserSharedMsg) -> (result: Result<Self::File, IoError>)
        no_unwind when self.passes(ControlCall::GetSharedObject(uuid))
    ;

    /// The map from queues to worker threads.
    ///
    /// [2, 2, 4] means that the first two queues are handled by worker thread 0, the next two by
    /// worker thread 1, and the last four by worker thread 2.
    fn queues_per_thread(&self) -> (result: Vec<u64>);

    /// Starts to save the state of the device to `file`, or to load it from there.
    fn set_device_state_fd(
        &self,
        direction: VhostTransferStateDirection,
        phase: VhostTransferStatePhase,
        file: Self::File,
    ) -> (result: Result<Option<Self::File>, IoError>)
        no_unwind when self.passes(ControlCall::SetDeviceState(direction, phase, file))
    ;

    /// The outcome of the last transfer of the state of the device.
    fn check_device_state(&self) -> (result: Result<(), IoError>)
        no_unwind when self.passes(ControlCall::CheckDeviceState)
    ;

    /// The shared memory regions of the device.
    fn get_shmem_config(&self) -> (result: Result<Self::ShMemConfig, IoError>)
        no_unwind when self.passes(ControlCall::GetShmemConfig)
    ;
}

/// The methods that a device has beyond those where objects are passed as descriptors.
pub trait PosixProtocolBackend<W>: Send + Sync {
    /// The channel on which the device sends requests of its own.
    type Backend;

    /// The channel on which the device sends its GPU messages.
    type GpuBackend;

    /// Handing over this channel for the requests of the device comes through without a panic.
    spec fn passes_backend(&self, backend: Self::Backend) -> bool;

    /// Handing over this channel for the GPU messages of the device comes through without a panic.
    spec fn passes_gpu_backend(&self, gpu_backend: Self::GpuBackend) -> bool;

    /// Takes the channel on which the device sends requests of its own.
    fn set_backend_req_fd(&self, backend: Self::Backend)
        no_unwind when self.passes_backend(backend)
    ;

    /// Takes the channel on which the device sends its GPU messages.
    fn set_gpu_socket(&self, gpu_backend: Self::GpuBackend) -> (result: Result<(), IoError>)
        no_unwind when self.passes_gpu_backend(gpu_backend)
    ;
}

impl<T: VhostUserBackend> ProtocolBackend<VringEpollHandler<T>> for T {
    type Memory = T::Memory;

    type Vring = T::Vring;

    type File = T::File;

    type ShMemConfig = T::ShMemConfig;

    open spec fn passes(&self, call: ControlCall<Self::Memory, Self::File>) -> bool {
        VhostUserBackend::bears(self, call)
    }

    fn num_queues(&self) -> (result: usize)
        ensures
            call_ensures(<T as VhostUserBackend>::num_queues, (self,), result),
    {
        VhostUserBackend::num_queues(self)
    }

    fn max_queue_size(&self) -> (result: usize)
        ensures
            call_ensures(<T as VhostUserBackend>::max_queue_size, (self,), result),
    {
        VhostUserBackend::max_queue_size(self)
    }

    fn features(&self) -> (result: u64)
        ensures
            call_ensures(<T as VhostUserBackend>::features, (self,), result),
    {
        VhostUserBackend::features(self)
    }

    fn acked_features(&self, features: u64)
        ensures
            call_ensures(<T as VhostUserBackend>::acked_features, (self, features), ()),
    {
        VhostUserBackend::acked_features(self, features)
    }

    fn protocol_features(&self) -> (result: u64)
        ensures
            call_ensures(<T as VhostUserBackend>::protocol_features, (self,), result),
    {
        VhostUserBackend::protocol_features(self)
    }

    fn reset_device(&self)
        ensures
            call_ensures(<T as VhostUserBackend>::reset_device, (self,), ()),
    {
        VhostUserBackend::reset_device(self)
    }

    fn set_event_idx(&self, enabled: bool)
        ensures
            call_ensures(<T as VhostUserBackend>::set_event_idx, (self, enabled), ()),
    {
        VhostUserBackend::set_event_idx(self, enabled)
    }

    fn get_config(&self, offset: u32, size: u32) -> (result: Vec<u8>)
        ensures
            call_ensures(<T as VhostUserBackend>::get_config, (self, offset, size), result),
    {
        VhostUserBackend::get_config(self, offset, size)
    }

    fn set_config(&self, offset: u32, buf: &[u8]) -> (result: Result<(), IoError>)
        ensures
            call_ensures(<T as VhostUserBackend>::set_config, (self, offset, buf), result),
    {
        VhostUserBackend::set_config(self, offset, buf)
    }

    fn update_memory(&self, mem: Self::Memory) -> (result: Result<(), IoError>)
        ensures
            call_ensures(<T as VhostUserBackend>::update_memory, (self, mem), result),
    {
        VhostUserBackend::update_memory(self, mem)
    }

    fn get_shared_object(&self, uuid: VhostUserSharedMsg) -> (result: Result<Self::File, IoError>)
        ensures
            call_ensures(<T as VhostUserBackend>::get_shared_object, (self, uuid), result),
    {
        VhostUserBackend::get_shared_object(self, uuid)
    }

    fn queues_per_thread(&self) -> (result: Vec<u64>)
        ensures
            call_ensures(<T as VhostUserBackend>::queues_per_thread, (self,), result),
    {
        VhostUserBackend::queues_per_thread(self)
    }

    fn set_device_state_fd(
        &self,
        direction: VhostTransferStateDirection,
        phase: VhostTransferStatePhase,
        file: Self::File,
    ) -> (result: Result<Option<Self::File>, IoError>)
        ensures
            call_ensures(
                <T as VhostUserBackend>::set_device_state_fd,
                (self, direction, phase, file),
                result,
            ),
    {
        VhostUserBackend::set_device_state_fd(self, direction, phase, file)
    }

    fn check_device_state(&self) -> (result: Result<(), IoError>)
        ensures
            call_ensures(<T as VhostUserBackend>::check_device_state, (self,), result),
    {
        VhostUserBackend::check_device_state(self)
    }

    fn get_shmem_config(&self) -> (result: Result<Self::ShMemConfig, IoError>)
        ensures
            call_ensures(<T as VhostUserBackend>::get_shmem_config, (self,), result),
    {
        VhostUserBackend::get_shmem_config(self)
    }
}

impl<T: VhostUserBackend> PosixProtocolBackend<VringEpollHandler<T>> for T {
    type Backend = T::Backend;

    type GpuBackend = T::GpuBackend;

    open spec fn passes_backend(&self, backend: Self::Backend) -> bool {
        VhostUserBackend::bears_backend(self, backend)
    }

    open spec fn passes_gpu_backend(&self, gpu_backend: Self::GpuBackend) -> bool {
        VhostUserBackend::bears_gpu_backend(self, gpu_backend)
    }

    fn set_backend_req_fd(&self, backend: Self::Backend)
        ensures
            call_ensures(<T as VhostUserBackend>::set_backend_req_fd, (self, backend), ()),
    {
        VhostUserBackend::set_backend_req_fd(self, backend)
    }

    fn set_gpu_socket(&self, gpu_backend: Self::GpuBackend) -> (result: Result<(), IoError>)
        ensures
            call_ensures(<T as VhostUserBackend>::set_gpu_socket, (self, gpu_backend), result),
    {
        VhostUserBackend::set_gpu_socket(self, gpu_backend)
    }
}

impl<T: VhostUserCompletionBackend> ProtocolBackend<VringCompletionHandler<T>> for T {
    type Memory = T::Memory;

    type Vring = T::Vring;

    type File = T::File;

    type ShMemConfig = T::ShMemConfig;

    open spec fn passes(&self, call: ControlCall<Self::Memory, Self::File>) -> bool {
        VhostUserCompletionBackend::bears(self, call)
    }

    fn num_queues(&self) -> (result: usize)
        ensures
            call_ensures(<T as VhostUserCompletionBackend>::num_queues, (self,), result),
    {
        VhostUserCompletionBackend::num_queues(self)
    }

    fn max_queue_size(&self) -> (result: usize)
        ensures
            call_ensures(<T as VhostUserCompletionBackend>::max_queue_size, (self,), result),
    {
        VhostUserCompletionBackend::max_queue_size(self)
    }

    fn features(&self) -> (result: u64)
        ensures
            call_ensures(<T as VhostUserCompletionBackend>::features, (self,), result),
    {
        VhostUserCompletionBackend::features(self)
    }

    fn acked_features(&self, features: u64)
        ensures
            call_ensures(<T as VhostUserCompletionBackend>::acked_features, (self, features), ()),
    {
        VhostUserCompletionBackend::acked_features(self, features)
    }

    fn protocol_features(&self) -> (result: u64)
        ensures
            call_ensures(<T as VhostUserCompletionBackend>::protocol_features, (self,), result),
    {
        VhostUserCompletionBackend::protocol_features(self)
    }

    fn reset_device(&self)
        ensures
            call_ensures(<T as VhostUserCompletionBackend>::reset_device, (self,), ()),
    {
        VhostUserCompletionBackend::reset_device(self)
    }

    fn set_event_idx(&self, enabled: bool)
        ensures
            call_ensures(<T as VhostUserCompletionBackend>::set_event_idx, (self, enabled), ()),
    {
        VhostUserCompletionBackend::set_event_idx(self, enabled)
    }

    fn get_config(&self, offset: u32, size: u32) -> (result: Vec<u8>)
        ensures
            call_ensures(
                <T as VhostUserCompletionBackend>::get_config,
                (self, offset, size),
                result,
            ),
    {
        VhostUserCompletionBackend::get_config(self, offset, size)
    }

    fn set_config(&self, offset: u32, buf: &[u8]) -> (result: Result<(), IoError>)
        ensures
            call_ensures(
                <T as VhostUserCompletionBackend>::set_config,
                (self, offset, buf),
                result,
            ),
    {
        VhostUserCompletionBackend::set_config(self, offset, buf)
    }

    fn update_memory(&self, mem: Self::Memory) -> (result: Result<(), IoError>)
        ensures
            call_ensures(<T as VhostUserCompletionBackend>::update_memory, (self, mem), result),
    {
        VhostUserCompletionBackend::update_memory(self, mem)
    }

    fn get_shared_object(&self, uuid: VhostUserSharedMsg) -> (result: Result<Self::File, IoError>)
        ensures
            call_ensures(
                <T as VhostUserCompletionBackend>::get_shared_object,
                (self, uuid),
                result,
            ),
    {
        VhostUserCompletionBackend::get_shared_object(self, uuid)
    }

    fn queues_per_thread(&self) -> (result: Vec<u64>)
        ensures
            call_ensures(<T as VhostUserCompletionBackend>::queues_per_thread, (self,), result),
    {
        VhostUserCompletionBackend::queues_per_thread(self)
    }

    fn set_device_state_fd(
        &self,
        direction: VhostTransferStateDirection,
        phase: VhostTransferStatePhase,
        file: Self::File,
    ) -> (result: Result<Option<Self::File>, IoError>)
        ensures
            call_ensures(
                <T as VhostUserCompletionBackend>::set_device_state_fd,
                (self, direction, phase, file),
                result,
            ),
    {
        VhostUserCompletionBackend::set_device_state_fd(self, direction, phase, file)
    }

    fn check_device_state(&self) -> (result: Result<(), IoError>)
        ensures
            call_ensures(<T as VhostUserCompletionBackend>::check_device_state, (self,), result),
    {
        VhostUserCompletionBackend::check_device_state(self)
    }

    fn get_shmem_config(&self) -> (result: Result<Self::ShMemConfig, IoError>)
        ensures
            call_ensures(<T as VhostUserCompletionBackend>::get_shmem_config, (self,), result),
    {
        VhostUserCompletionBackend::get_shmem_config(self)
    }
}

/// A call of the control channel is the call of the same name on the device: it comes through
/// without a panic exactly where that call does, with the same arguments.
pub proof fn law_control_calls_panic_where_the_device_does<T: VhostUserBackend>(
    device: &T,
    call: ControlCall<T::Memory, T::File>,
    backend: T::Backend,
    gpu_backend: T::GpuBackend,
)
    ensures
        <T as ProtocolBackend<VringEpollHandler<T>>>::passes(device, call) <==> <T as
            VhostUserBackend>::bears(device, call),
        <T as PosixProtocolBackend<VringEpollHandler<T>>>::passes_backend(device, backend) <==> <T
            as VhostUserBackend>::bears_backend(device, backend),
        <T as PosixProtocolBackend<VringEpollHandler<T>>>::passes_gpu_backend(
            device,
            gpu_backend,
        ) <==> <T as VhostUserBackend>::bears_gpu_backend(device, gpu_backend),
{
}

/// A call of the control channel is the call of the same name on a device on the completion-port
/// loop: it comes through without a panic exactly where that call does, with the same arguments.
/// A shared pointer to a device bears what the device bears.
pub proof fn law_control_calls_panic_where_the_completion_device_does<
    T: VhostUserCompletionBackend,
>(device: &T, shared: &Arc<T>, call: ControlCall<T::Memory, T::File>)
    requires
        **shared == *device,
    ensures
        <T as ProtocolBackend<VringCompletionHandler<T>>>::passes(device, call) <==> <T as
            VhostUserCompletionBackend>::bears(device, call),
        <Arc<T> as VhostUserCompletionBackend>::bears(shared, call) <==> <T as
            VhostUserCompletionBackend>::bears(device, call),
{
}

/// A call of the control channel reaches the device, with the arguments that it was made with.
pub proof fn law_control_calls_reach_the_device<T: VhostUserBackend>(
    device: &T,
    features: u64,
    enabled: bool,
    offset: u32,
    buf: &[u8],
    outcome: Result<(), IoError>,
)
    ensures
        call_ensures(
            <T as ProtocolBackend<VringEpollHandler<T>>>::acked_features,
            (device, features),
            (),
        ) ==> call_ensures(<T as VhostUserBackend>::acked_features, (device, features), ()),
        call_ensures(
            <T as ProtocolBackend<VringEpollHandler<T>>>::set_event_idx,
            (device, enabled),
            (),
        ) ==> call_ensures(<T as VhostUserBackend>::set_event_idx, (device, enabled), ()),
        call_ensures(
            <T as ProtocolBackend<VringEpollHandler<T>>>::set_config,
            (device, offset, buf),
            outcome,
        ) ==> call_ensures(<T as VhostUserBackend>::set_config, (device, offset, buf), outcome),
        call_ensures(<T as ProtocolBackend<VringEpollHandler<T>>>::reset_device, (device,), ())
            ==> call_ensures(<T as VhostUserBackend>::reset_device, (device,), ()),
{
}

} // verus!
