//! Devices and the loop that runs them.

use std::sync::{Arc, Mutex, RwLock};

use vhost_user::backend::VhostUserBackend;
use vhost_user::completion_backend::{
    Completion, VhostTransferStateDirection, VhostTransferStatePhase, VhostUserCompletionBackend,
    VhostUserCompletionBackendMut, VhostUserSharedMsg,
};
use vhost_user::completion_loop::{get_ports, Action, LoopStep, Route, VringCompletionHandler};
use vhost_user::error::{ErrorKind, IoError};
use vhost_user::protocol;
use vhost_user::vring::VringT;

/// A ring that may be enabled.
#[derive(Clone)]
struct Vring {
    enabled: Arc<Mutex<bool>>,
}

impl Vring {
    fn new() -> Self {
        Vring { enabled: Arc::new(Mutex::new(false)) }
    }

    fn set_enabled(&self, enabled: bool) {
        *self.enabled.lock().unwrap() = enabled;
    }
}

impl VringT for Vring {
    fn is_enabled(&self) -> bool {
        *self.enabled.lock().unwrap()
    }
}

/// A port: the events that are registered with it, each with its key, and the packets in it.
struct Port {
    registered: Mutex<Vec<(u32, usize)>>,
    packets: Mutex<Vec<Completion<u8>>>,
}

impl Port {
    fn new() -> Self {
        Port { registered: Mutex::new(Vec::new()), packets: Mutex::new(Vec::new()) }
    }

    fn register(&self, event: u32, key: usize) -> Result<(), ErrorKind> {
        let mut registered = self.registered.lock().unwrap();
        if registered.iter().any(|(e, _)| *e == event) {
            return Err(ErrorKind::AlreadyExists);
        }
        registered.push((event, key));
        Ok(())
    }

    fn unregister(&self, event: u32) -> Result<(), ErrorKind> {
        let mut registered = self.registered.lock().unwrap();
        let before = registered.len();
        registered.retain(|(e, _)| *e != event);
        if registered.len() == before {
            return Err(ErrorKind::NotFound);
        }
        Ok(())
    }

    fn notify(&self, event: u32) {
        for (e, key) in self.registered.lock().unwrap().iter() {
            if *e == event {
                self.packets.lock().unwrap().push(Completion::Signal { key: *key });
            }
        }
    }

    fn post(&self, packet: (usize, u32, usize)) {
        let (key, bytes, pointer) = packet;
        self.packets.lock().unwrap().push(Completion::Posted { key, bytes, pointer });
    }

    fn wait(&self) -> Vec<Completion<u8>> {
        self.packets.lock().unwrap().drain(..).collect()
    }
}

/// A device that counts kicks and completions, and keeps the ports it was attached to.
struct MockCompletionBackend {
    events: u64,
    completions: u64,
    event_idx: bool,
    acked_features: u64,
    ports: Vec<Arc<Port>>,
    failure: Option<IoError>,
}

impl MockCompletionBackend {
    fn new() -> Self {
        MockCompletionBackend {
            events: 0,
            completions: 0,
            event_idx: false,
            acked_features: 0,
            ports: Vec::new(),
            failure: None,
        }
    }

    fn answer(&self) -> Result<(), IoError> {
        match &self.failure {
            Some(error) => Err(error.clone()),
            None => Ok(()),
        }
    }
}

impl VhostUserCompletionBackendMut for MockCompletionBackend {
    type Memory = u64;
    type Vring = Vring;
    type File = i64;
    type Port = Port;
    type Operation = u8;
    type ShMemConfig = u32;

    fn num_queues(&self) -> usize {
        2
    }

    fn max_queue_size(&self) -> usize {
        256
    }

    fn features(&self) -> u64 {
        0xffff_ffff_ffff_ffff
    }

    fn acked_features(&mut self, features: u64) {
        self.acked_features = features;
    }

    fn protocol_features(&self) -> u64 {
        0xf_ffff
    }

    fn reset_device(&mut self) {
        self.event_idx = false;
        self.events = 0;
        self.completions = 0;
        self.acked_features = 0;
    }

    fn set_event_idx(&mut self, enabled: bool) {
        self.event_idx = enabled;
    }

    fn get_config(&self, offset: u32, size: u32) -> Vec<u8> {
        assert_eq!(offset, 0x200);
        assert_eq!(size, 8);

        vec![0xa5u8; 8]
    }

    fn set_config(&mut self, offset: u32, buf: &[u8]) -> Result<(), IoError> {
        assert_eq!(offset, 0x200);
        assert_eq!(buf.len(), 8);
        assert_eq!(buf, &[0xa5u8; 8]);

        Ok(())
    }

    fn update_memory(&mut self, _mem: u64) -> Result<(), IoError> {
        Ok(())
    }

    fn get_shared_object(&mut self, _uuid: VhostUserSharedMsg) -> Result<i64, IoError> {
        Ok(3)
    }

    fn queues_per_thread(&self) -> Vec<u64> {
        vec![1, 1]
    }

    fn attach(&mut self, _thread_index: usize, port: Arc<Port>) -> Result<(), IoError> {
        self.ports.push(port);
        self.answer()
    }

    fn handle_kick(&mut self, _vring: u16, _vrings: &[Vring], _thread_id: usize) -> Result<(), IoError> {
        self.events += 1;

        self.answer()
    }

    fn handle_completion(
        &mut self,
        _completion: Completion<u8>,
        _vrings: &[Vring],
        _thread_id: usize,
    ) -> Result<(), IoError> {
        self.completions += 1;

        self.answer()
    }
}

/// A device that does no more than it has to.
struct PlainBackend;

impl VhostUserCompletionBackendMut for PlainBackend {
    type Memory = u64;
    type Vring = Vring;
    type File = i64;
    type Port = Port;
    type Operation = u8;
    type ShMemConfig = u32;

    fn num_queues(&self) -> usize {
        1
    }

    fn max_queue_size(&self) -> usize {
        2
    }

    fn features(&self) -> u64 {
        3
    }

    fn protocol_features(&self) -> u64 {
        4
    }

    fn set_event_idx(&mut self, _enabled: bool) {}

    fn update_memory(&mut self, _mem: u64) -> Result<(), IoError> {
        Err(IoError::Os(12))
    }

    fn handle_kick(&mut self, _vring: u16, _vrings: &[Vring], _thread_id: usize) -> Result<(), IoError> {
        Ok(())
    }

    fn handle_completion(
        &mut self,
        _completion: Completion<u8>,
        _vrings: &[Vring],
        _thread_id: usize,
    ) -> Result<(), IoError> {
        Ok(())
    }
}

type Backend = Arc<Mutex<MockCompletionBackend>>;

/// One worker over one vring, with the device and vring handed back for the test to drive.
fn handler() -> (Backend, VringCompletionHandler<Backend>, Vring) {
    let vring = Vring::new();
    let backend = Arc::new(Mutex::new(MockCompletionBackend::new()));
    let handler =
        VringCompletionHandler::new(backend.clone(), vec![vring.clone()], 0x1, Ok(Port::new()))
            .ok()
            .unwrap();
    (backend, handler, vring)
}

#[test]
fn test_new_mock_backend_mutex() {
    let backend = Arc::new(Mutex::new(MockCompletionBackend::new()));

    assert_eq!(backend.num_queues(), 2);
    assert_eq!(backend.max_queue_size(), 256);
    assert_eq!(backend.features(), 0xffff_ffff_ffff_ffff);
    assert_eq!(backend.protocol_features(), 0xf_ffff);
    assert_eq!(backend.queues_per_thread(), [1, 1]);

    assert_eq!(backend.get_config(0x200, 8), vec![0xa5; 8]);
    backend.set_config(0x200, &[0xa5; 8]).unwrap();

    backend.acked_features(0xffff);
    assert_eq!(backend.lock().unwrap().acked_features, 0xffff);

    backend.set_event_idx(true);
    assert!(backend.lock().unwrap().event_idx);

    let port = Arc::new(Port::new());
    backend.attach(0, port).unwrap();
    assert_eq!(backend.lock().unwrap().ports.len(), 1);

    let uuid = VhostUserSharedMsg { uuid: 0x1234 };
    assert_eq!(backend.get_shared_object(uuid).unwrap(), 3);

    backend.update_memory(0x100000).unwrap();

    let vring = Vring::new();
    backend.handle_kick(0x1, std::slice::from_ref(&vring), 0).unwrap();
    backend.handle_completion(Completion::Operation(9), &[vring], 0).unwrap();
    assert_eq!(backend.lock().unwrap().events, 1);
    assert_eq!(backend.lock().unwrap().completions, 1);

    backend.reset_device();
    assert!(backend.lock().unwrap().events == 0);
    assert!(!backend.lock().unwrap().event_idx);
    assert!(backend.lock().unwrap().acked_features == 0);
}

#[test]
fn test_new_mock_backend_rwlock() {
    let backend = Arc::new(RwLock::new(MockCompletionBackend::new()));

    assert_eq!(backend.num_queues(), 2);
    assert_eq!(backend.max_queue_size(), 256);
    assert_eq!(backend.features(), 0xffff_ffff_ffff_ffff);
    assert_eq!(backend.protocol_features(), 0xf_ffff);
    assert_eq!(backend.queues_per_thread(), [1, 1]);

    assert_eq!(backend.get_config(0x200, 8), vec![0xa5; 8]);
    backend.set_config(0x200, &[0xa5; 8]).unwrap();

    backend.acked_features(0xffff);
    assert_eq!(backend.read().unwrap().acked_features, 0xffff);

    backend.set_event_idx(true);
    assert!(backend.read().unwrap().event_idx);

    let port = Arc::new(Port::new());
    backend.attach(0, port).unwrap();
    assert_eq!(backend.read().unwrap().ports.len(), 1);

    backend.update_memory(0x100000).unwrap();

    let uuid = VhostUserSharedMsg { uuid: 0x1234 };
    backend.get_shared_object(uuid).unwrap();

    let vring = Vring::new();
    backend.handle_kick(0x1, std::slice::from_ref(&vring), 0).unwrap();
    backend
        .handle_completion(Completion::Posted { key: 7, bytes: 0, pointer: 0 }, &[vring], 0)
        .unwrap();
    assert_eq!(backend.read().unwrap().events, 1);
    assert_eq!(backend.read().unwrap().completions, 1);

    backend.reset_device();
    assert!(backend.read().unwrap().events == 0);
    assert!(!backend.read().unwrap().event_idx);
    assert!(backend.read().unwrap().acked_features == 0);
}

#[test]
fn plain_devices_have_defaults() {
    let mutex = Mutex::new(PlainBackend);
    let rwlock = RwLock::new(PlainBackend);
    assert_eq!(mutex.get_config(0, 8), Vec::<u8>::new());
    assert!(mutex.set_config(0, &[1]).is_ok());
    assert_eq!(mutex.queues_per_thread(), [0xffff_ffff]);
    assert!(mutex.attach(0, Arc::new(Port::new())).is_ok());
    mutex.acked_features(1);
    mutex.reset_device();

    let uuid = VhostUserSharedMsg { uuid: 1 };
    assert!(matches!(
        mutex.get_shared_object(uuid),
        Err(IoError::SimpleMessage(
            ErrorKind::Unsupported,
            "back end does not support get shared object"
        ))
    ));
    assert!(matches!(
        mutex.set_device_state_fd(
            VhostTransferStateDirection::Save,
            VhostTransferStatePhase::Stopped,
            1
        ),
        Err(IoError::SimpleMessage(
            ErrorKind::Unsupported,
            "back end does not support state transfer"
        ))
    ));
    assert!(matches!(
        rwlock.check_device_state(),
        Err(IoError::SimpleMessage(
            ErrorKind::Unsupported,
            "back end does not support state transfer"
        ))
    ));
    assert!(matches!(
        rwlock.get_shmem_config(),
        Err(IoError::SimpleMessage(
            ErrorKind::Unsupported,
            "back end does not support shared memory regions"
        ))
    ));
    assert!(matches!(rwlock.update_memory(1), Err(IoError::Os(12))));
}

/// A device on the epoll loop.
struct EpollBackend;

impl VhostUserBackend for EpollBackend {
    type Memory = u64;
    type Vring = Vring;
    type File = i64;
    type ShMemConfig = u32;
    type Backend = u8;
    type GpuBackend = u8;

    fn num_queues(&self) -> usize {
        3
    }

    fn max_queue_size(&self) -> usize {
        64
    }

    fn features(&self) -> u64 {
        5
    }

    fn protocol_features(&self) -> u64 {
        6
    }

    fn set_event_idx(&self, _enabled: bool) {}

    fn update_memory(&self, mem: u64) -> Result<(), IoError> {
        if mem == 0 {
            Err(IoError::Os(22))
        } else {
            Ok(())
        }
    }

    fn set_backend_req_fd(&self, _backend: u8) {}

    fn set_gpu_socket(&self, gpu_backend: u8) -> Result<(), IoError> {
        if gpu_backend == 0 {
            Err(IoError::Os(1))
        } else {
            Ok(())
        }
    }
}

/// What the control channel sees of a device.
fn seen<W, T: protocol::ProtocolBackend<W>>(device: &T) -> (usize, usize, u64, u64, Vec<u64>) {
    (
        device.num_queues(),
        device.max_queue_size(),
        device.features(),
        device.protocol_features(),
        device.queues_per_thread(),
    )
}

fn set_gpu_socket<W, T: protocol::PosixProtocolBackend<W>>(
    device: &T,
    gpu: T::GpuBackend,
) -> Result<(), IoError> {
    device.set_gpu_socket(gpu)
}

#[test]
fn the_control_channel_sees_both_kinds_of_devices() {
    type Epoll = protocol::VringEpollHandler<EpollBackend>;
    type Completions = VringCompletionHandler<Backend>;
    assert_eq!(seen::<Epoll, _>(&EpollBackend), (3, 64, 5, 6, vec![0xffff_ffff]));
    let backend: Backend = Arc::new(Mutex::new(MockCompletionBackend::new()));
    assert_eq!(
        seen::<Completions, _>(&backend),
        (2, 256, u64::MAX, 0xf_ffff, vec![1, 1])
    );
    assert!(set_gpu_socket::<Epoll, _>(&EpollBackend, 1).is_ok());
    assert!(matches!(set_gpu_socket::<Epoll, _>(&EpollBackend, 0), Err(IoError::Os(1))));
    assert!(matches!(
        protocol::ProtocolBackend::<Epoll>::update_memory(&EpollBackend, 0),
        Err(IoError::Os(22))
    ));
}

#[test]
fn test_vring_completion_handler() {
    let (backend, handler, _vring) = handler();

    // The device was attached to this worker's port before anything ran.
    let ports = backend.lock().unwrap().ports.to_vec();
    assert_eq!(ports.len(), 1);
    assert!(
        Arc::ptr_eq(&ports[0], &handler.port()),
        "attach was given a different port from the one the loop waits on"
    );

    let consumer = 17;
    let port = handler.port();
    port.register(consumer, handler.kick_key(0)).unwrap();
    // Register an already registered kick.
    assert_eq!(
        port.register(consumer, handler.kick_key(0)).unwrap_err(),
        ErrorKind::AlreadyExists
    );
    port.unregister(consumer).unwrap();
    // Unregister an already unregistered kick.
    assert_eq!(port.unregister(consumer).unwrap_err(), ErrorKind::NotFound);

    // An exit posted before `run` is picked up by it.
    port.post(handler.exit_packet());
    assert!(matches!(handler.run(Ok(port.wait())), Ok(LoopStep::Exit)));
}

#[test]
fn test_dispatch_by_key() {
    let (backend, handler, vring) = handler();
    let port = handler.port();
    let kick = 17;
    port.register(kick, handler.kick_key(0)).unwrap();
    let run = || handler.run(Ok(port.wait()));

    // A kick on a vring that is not enabled is dropped, not delivered.
    port.notify(kick);
    assert!(matches!(run(), Ok(LoopStep::Continue)));
    assert_eq!(backend.lock().unwrap().events, 0);

    vring.set_enabled(true);
    port.notify(kick);
    assert!(matches!(run(), Ok(LoopStep::Continue)));
    assert_eq!(backend.lock().unwrap().events, 1);

    // A packet under a device key goes to handle_completion, not the kick path, and
    // nothing about it is mistaken for the exit.
    port.post((backend.num_queues() + 1, 0, 0));
    assert!(matches!(run(), Ok(LoopStep::Continue)));
    assert_eq!(backend.lock().unwrap().completions, 1);
    assert_eq!(backend.lock().unwrap().events, 1);

    port.post(handler.exit_packet());
    assert!(matches!(run(), Ok(LoopStep::Exit)));
    port.unregister(kick).unwrap();
}

#[test]
fn packets_are_taken_in_order_until_the_exit() {
    let (backend, handler, vring) = handler();
    vring.set_enabled(true);
    let batch = vec![
        Completion::Signal { key: 0 },
        Completion::Operation(1),
        Completion::Posted { key: 2, bytes: 0, pointer: 0 },
        Completion::Signal { key: 0 },
    ];
    assert!(matches!(handler.run(Ok(batch)), Ok(LoopStep::Exit)));
    assert_eq!(backend.lock().unwrap().events, 1);
    assert_eq!(backend.lock().unwrap().completions, 1);
}

#[test]
fn failures_of_the_device_end_the_loop() {
    let (backend, handler, vring) = handler();
    vring.set_enabled(true);
    backend.lock().unwrap().failure = Some(IoError::Os(5));
    let batch = vec![Completion::Signal { key: 0 }, Completion::Operation(1)];
    assert!(matches!(handler.run(Ok(batch)), Err(IoError::Os(5))));
    assert_eq!(backend.lock().unwrap().completions, 0);
    assert!(matches!(handler.take(Completion::Operation(1)), Err(IoError::Os(5))));
    assert!(matches!(handler.run(Err(IoError::Os(6))), Err(IoError::Os(6))));
}

#[test]
fn routes() {
    let (_, handler, _) = handler();
    assert!(matches!(handler.route(Completion::Signal { key: 0 }), Route::Kick(0)));
    assert!(matches!(
        handler.route(Completion::Signal { key: 1 }),
        Route::Device(Completion::Signal { key: 1 })
    ));
    // The key of the exit packet means the end only where it was posted.
    assert!(matches!(
        handler.route(Completion::Signal { key: 2 }),
        Route::Device(Completion::Signal { key: 2 })
    ));
    assert!(matches!(
        handler.route(Completion::Posted { key: 2, bytes: 1, pointer: 3 }),
        Route::Exit
    ));
    assert!(matches!(
        handler.route(Completion::Posted { key: 3, bytes: 1, pointer: 3 }),
        Route::Device(Completion::Posted { key: 3, bytes: 1, pointer: 3 })
    ));
    assert!(matches!(
        handler.route(Completion::Operation(4)),
        Route::Device(Completion::Operation(4))
    ));
    assert_eq!(handler.kick_key(5), 5);
    assert_eq!(handler.exit_packet(), (2, 0, 0));
}

#[test]
fn decisions() {
    let (_, handler, _) = handler();
    let kick = || Completion::Signal { key: 0 };
    assert!(matches!(handler.decide(kick(), true), Action::Kick(0)));
    assert!(matches!(handler.decide(kick(), false), Action::Drop));
    for enabled in [true, false] {
        assert!(matches!(
            handler.decide(Completion::Posted { key: 2, bytes: 0, pointer: 0 }, enabled),
            Action::Exit
        ));
        assert!(matches!(
            handler.decide(Completion::Signal { key: 1 }, enabled),
            Action::Device(Completion::Signal { key: 1 })
        ));
        assert!(matches!(
            handler.decide(Completion::Operation(4), enabled),
            Action::Device(Completion::Operation(4))
        ));
    }
}

#[test]
fn a_dropped_kick_reaches_no_method_of_the_device() {
    let (backend, handler, _vring) = handler();
    // Whatever the device would answer, it is not asked.
    backend.lock().unwrap().failure = Some(IoError::Os(5));
    assert!(matches!(handler.take(Completion::Signal { key: 0 }), Ok(LoopStep::Continue)));
    assert_eq!(backend.lock().unwrap().events, 0);
    assert_eq!(backend.lock().unwrap().completions, 0);
}

#[test]
fn a_worker_needs_its_port_and_its_device() {
    let backend = Arc::new(Mutex::new(MockCompletionBackend::new()));
    let failed = VringCompletionHandler::new(backend.clone(), Vec::new(), 0, Err(IoError::Os(8)));
    assert!(matches!(failed, Err(IoError::Os(8))));
    assert_eq!(backend.lock().unwrap().ports.len(), 0);

    backend.lock().unwrap().failure = Some(IoError::Os(9));
    let failed = VringCompletionHandler::new(backend.clone(), Vec::new(), 0, Ok(Port::new()));
    assert!(matches!(failed, Err(IoError::Os(9))));
}

#[test]
fn ports_come_in_thread_order() {
    let backend: Backend = Arc::new(Mutex::new(MockCompletionBackend::new()));
    let worker = |thread_id| {
        let worker =
            VringCompletionHandler::new(backend.clone(), Vec::new(), thread_id, Ok(Port::new()));
        Arc::new(worker.ok().unwrap())
    };
    let workers = [worker(0), worker(1)];
    let ports = get_ports(&workers);
    assert_eq!(ports.len(), backend.queues_per_thread().len());
    // The device was attached to exactly those ports, and they stay the same.
    let attached = backend.lock().unwrap().ports.to_vec();
    assert_eq!(attached.len(), 2);
    let later = get_ports(&workers);
    for ((port, attached), later) in ports.iter().zip(&attached).zip(&later) {
        assert!(Arc::ptr_eq(port, attached));
        assert!(Arc::ptr_eq(port, later));
    }
    assert!(Arc::ptr_eq(&ports[0], &workers[0].port()));
    assert!(Arc::ptr_eq(&ports[1], &workers[1].port()));
}
