//! The daemon.

use std::sync::Arc;

use vhost_user::daemon;
use vhost_user::daemon::{
    judge, AcceptStep, ConnectionState, ServeOutcome, ShutdownHandle, VhostUserDaemon, WaitStep,
};
use vhost_user::error;
use vhost_user::error::IoError;

/// The error of a handler.
type HandlerError = u8;
/// What a thread that panicked leaves.
type Panic = &'static str;
type Error = daemon::Error<HandlerError, Panic>;
/// A daemon with two workers as its handler, numbered threads, and numbered connections.
type Daemon = VhostUserDaemon<Vec<&'static str>, u32, u64>;

fn new_daemon() -> Daemon {
    let workers = vec!["worker 0", "worker 1"];
    let daemon: Result<Daemon, Error> = Daemon::new("test".to_owned(), Ok(workers));
    daemon.ok().unwrap()
}

fn new_completion_daemon() -> Daemon {
    let workers = vec!["worker 0", "worker 1"];
    let daemon: Result<Daemon, Error> = Daemon::new_completion("test".to_owned(), Ok(workers));
    daemon.ok().unwrap()
}

/// Starts to serve connection `conn` on thread `thread`.
fn start_daemon(daemon: &mut Daemon, conn: u64, thread: u32) -> Result<(), Error> {
    let state = Daemon::prepare(Ok(conn))?;
    daemon.start_daemon(state, Ok(thread))
}

/// Listens, accepts connection `conn`, and starts to serve it.
fn start(daemon: &mut Daemon, conn: u64, thread: u32) -> Result<(), Error> {
    Daemon::start::<(), HandlerError, Panic>(Ok(()))?;
    let mut attempts = vec![Ok(Some(conn)), Ok(None), Ok(None)];
    let accepted = loop {
        match Daemon::accept::<u64, HandlerError, Panic>(attempts.pop().unwrap()) {
            AcceptStep::Again => {}
            AcceptStep::Done(accepted) => break accepted,
        }
    };
    start_daemon(daemon, accepted?, thread)
}

/// Waits for the thread of the daemon, which serves requests with the outcomes `requests`.
fn wait(daemon: &mut Daemon, requests: &[Result<(), error::Error>]) -> Result<(), Error> {
    match daemon.wait() {
        WaitStep::Done => Ok(()),
        WaitStep::Join(_) => {
            let mut ended = None;
            for request in requests {
                assert!(ended.is_none());
                ended = Daemon::after_request::<HandlerError, Panic>(request.clone());
            }
            daemon.on_joined(Ok(ended.unwrap()))
        }
    }
}

/// Serve one connection that hangs up at once: `wait` reports the partial message, and a
/// second `wait` has nothing to report.
fn start_and_wait(daemon: &mut Daemon) {
    start(daemon, 1, 1).unwrap();
    // Above process generates a `HandleRequest(PartialMessage)` error.
    wait(daemon, &[Ok(()), Err(error::Error::PartialMessage)]).unwrap_err();
    wait(daemon, &[]).unwrap();
}

/// The same as `start_and_wait`, with the daemon connecting out as a client.
fn start_client_and_wait(daemon: &mut Daemon) {
    let conn: Result<u64, Error> = Daemon::start_client(Ok(1));
    start_daemon(daemon, conn.unwrap(), 1).unwrap();
    // Above process generates a `HandleRequest(PartialMessage)` error.
    wait(daemon, &[Err(error::Error::PartialMessage)]).unwrap_err();
    wait(daemon, &[]).unwrap();
}

/// A shutdown requested while a client is connected makes `wait` return `Ok`, and the daemon
/// can then serve another connection.
fn shutdown_while_connected(daemon: &mut Daemon) {
    start(daemon, 1, 1).unwrap();

    let handle = daemon.shutdown_handle().expect("daemon started");
    assert_eq!(*handle.shutdown(), 1);

    wait(daemon, &[Err(error::Error::PartialMessage)]).unwrap();
    assert!(daemon.shutdown_handle().is_none());

    start(daemon, 2, 2).unwrap();
    wait(daemon, &[Err(error::Error::PartialMessage)]).unwrap_err();
    assert!(daemon.shutdown_handle().is_none());
}

/// Requesting shutdown twice is harmless.
fn double_shutdown(daemon: &mut Daemon) {
    start(daemon, 1, 1).unwrap();

    let handle = daemon.shutdown_handle().expect("daemon started");
    handle.shutdown();
    handle.shutdown();

    wait(daemon, &[Err(error::Error::PartialMessage)]).unwrap();
}

#[test]
fn lib_test_new_daemon() {
    let mut daemon = new_daemon();
    assert_eq!(daemon.get_handler().len(), 2);
    assert_eq!(daemon.thread_name(), "test");
    start_and_wait(&mut daemon);

    let mut daemon = new_completion_daemon();
    assert_eq!(daemon.get_handler().len(), 2);
    start_and_wait(&mut daemon);
}

#[test]
fn lib_test_new_daemon_client() {
    let mut daemon = new_daemon();
    assert_eq!(daemon.get_handler().len(), 2);
    start_client_and_wait(&mut daemon);

    let mut daemon = new_completion_daemon();
    assert_eq!(daemon.get_handler().len(), 2);
    start_client_and_wait(&mut daemon);
}

#[test]
fn lib_test_daemon_serve() {
    let mut daemon = new_daemon();
    let mut exit_events = vec![false; 2];
    let bound: Result<(), Error> = Daemon::serve_on(Ok(()));
    bound.unwrap();

    // Check that no exit events got triggered yet.
    assert_eq!(exit_events, [false, false]);

    start(&mut daemon, 1, 1).unwrap();
    // disconnect immediately again
    let waited = wait(&mut daemon, &[Err(error::Error::Disconnected)]);
    assert!(matches!(waited, Err(Error::HandleRequest(error::Error::Disconnected))));
    let served = Daemon::serve(ServeOutcome::Waited(waited));
    for exit_event in &mut exit_events {
        *exit_event = served.send_exit_event;
    }
    served.result.unwrap();

    // Check that exit events got triggered
    assert_eq!(exit_events, [true, true]);
}

#[test]
fn lib_test_shutdown_while_connected() {
    shutdown_while_connected(&mut new_daemon());
    shutdown_while_connected(&mut new_completion_daemon());
}

#[test]
fn lib_test_double_shutdown() {
    double_shutdown(&mut new_daemon());
    double_shutdown(&mut new_completion_daemon());
}

#[test]
fn test_shutdown_handle_is_send_sync() {
    fn assert_send_sync<T: Send + Sync>() {}
    assert_send_sync::<ShutdownHandle<u64>>();
}

#[test]
fn a_shutdown_can_be_requested_of_the_daemon() {
    let mut daemon = new_daemon();
    assert!(daemon.request_shutdown().is_none());
    start(&mut daemon, 4, 1).unwrap();
    let handle = daemon.request_shutdown().unwrap();
    assert_eq!(*handle.clone().shutdown(), 4);
    wait(&mut daemon, &[Err(error::Error::InvalidMessage)]).unwrap();
}

#[test]
fn a_shutdown_ends_only_its_own_connection() {
    let mut daemon = new_daemon();
    start(&mut daemon, 1, 1).unwrap();
    let handle = daemon.shutdown_handle().unwrap();
    wait(&mut daemon, &[Err(error::Error::Disconnected)]).unwrap_err();
    start(&mut daemon, 2, 2).unwrap();
    handle.shutdown();
    wait(&mut daemon, &[Err(error::Error::Disconnected)]).unwrap_err();
}

#[test]
fn a_broken_connection_is_a_regular_end() {
    let mut daemon = new_daemon();
    start(&mut daemon, 1, 1).unwrap();
    wait(&mut daemon, &[Err(error::Error::SocketBroken(IoError::Os(32)))]).unwrap();
}

#[test]
fn a_panic_is_reported() {
    let mut daemon = new_daemon();
    start(&mut daemon, 1, 1).unwrap();
    assert!(matches!(daemon.wait(), WaitStep::Join(1)));
    let result: Result<(), Error> = daemon.on_joined(Err("panic"));
    assert!(matches!(result, Err(Error::WaitDaemon("panic"))));
    // The connection is let go by the next wait.
    assert!(daemon.shutdown_handle().is_some());
    assert!(matches!(daemon.wait(), WaitStep::Done));
    assert!(daemon.shutdown_handle().is_none());
}

#[test]
fn starting_can_fail() {
    let daemon: Result<Daemon, Error> = Daemon::new("test".to_owned(), Err(7));
    assert!(matches!(daemon, Err(Error::NewVhostUserHandler(7))));
    let daemon: Result<Daemon, Error> = Daemon::new_completion("test".to_owned(), Err(8));
    assert!(matches!(daemon, Err(Error::NewVhostUserHandler(8))));

    let failure = error::Error::SocketError(IoError::Os(1));
    let client: Result<u64, Error> = Daemon::start_client(Err(failure.clone()));
    assert!(matches!(client, Err(Error::CreateBackendReqHandler(error::Error::SocketError(_)))));
    let listener: Result<u64, Error> = Daemon::start(Err(failure.clone()));
    assert!(matches!(listener, Err(Error::CreateBackendListener(error::Error::SocketError(_)))));
    let listener: Result<u64, Error> = Daemon::serve_on(Err(failure.clone()));
    assert!(matches!(listener, Err(Error::CreateVhostUserListener(error::Error::SocketError(_)))));
    let step = Daemon::accept::<u64, HandlerError, Panic>(Err(failure.clone()));
    assert!(matches!(step, AcceptStep::Done(Err(Error::CreateBackendListener(_)))));
    let state: Result<Arc<ConnectionState<u64>>, Error> = Daemon::prepare(Err(IoError::Os(2)));
    assert!(matches!(state, Err(Error::StartDaemon(IoError::Os(2)))));

    let mut daemon = new_daemon();
    let state: Result<Arc<ConnectionState<u64>>, Error> = Daemon::prepare(Ok(1));
    let result: Result<(), Error> = daemon.start_daemon(state.ok().unwrap(), Err(IoError::Os(3)));
    assert!(matches!(result, Err(Error::StartDaemon(IoError::Os(3)))));
    assert!(daemon.shutdown_handle().is_none());
    assert!(matches!(daemon.wait(), WaitStep::Done));
}

#[test]
fn closing_lets_the_connection_go() {
    let mut daemon = new_daemon();
    assert!(daemon.close().is_none());
    start(&mut daemon, 6, 1).unwrap();
    assert_eq!(*daemon.close().unwrap().conn(), 6);
    assert!(daemon.close().is_none());
}

#[test]
fn ends_of_threads_are_judged() {
    type Ended = Result<(), Error>;
    let failed = |failure| -> Ended { Err(Error::HandleRequest(failure)) };
    let broken = error::Error::SocketBroken(IoError::Os(32));
    assert!(judge::<HandlerError, Panic>(Ok(()), false).is_ok());
    assert!(judge(failed(broken), false).is_ok());
    assert!(judge(failed(error::Error::Disconnected), false).is_err());
    assert!(judge(failed(error::Error::Disconnected), true).is_ok());
    assert!(matches!(
        judge::<HandlerError, Panic>(Err(Error::WaitDaemon("panic")), true),
        Err(Error::WaitDaemon("panic"))
    ));
    let serve = |waited: Ended| {
        let served = Daemon::serve(ServeOutcome::Waited(waited));
        assert!(served.send_exit_event);
        served.result
    };
    assert!(serve(failed(error::Error::PartialMessage)).is_ok());
    assert!(serve(failed(error::Error::Disconnected)).is_ok());
    assert!(serve(failed(error::Error::InvalidMessage)).is_err());
    assert!(serve(Ok(())).is_ok());
    let served = Daemon::serve(ServeOutcome::<HandlerError, Panic>::NotStarted(
        Error::HandleRequest(error::Error::Disconnected),
    ));
    assert!(!served.send_exit_event);
    assert!(served.result.is_err());
}

#[test]
fn errors_have_messages() {
    let transport = || error::Error::Disconnected;
    let message = |error: Error| error.message("cause");
    assert_eq!(
        message(Error::NewVhostUserHandler(1)),
        "cannot create vhost user handler: cause"
    );
    assert_eq!(
        message(Error::CreateBackendListener(transport())),
        "cannot create backend listener: cause"
    );
    assert_eq!(
        message(Error::CreateBackendReqHandler(transport())),
        "cannot create backend req handler: cause"
    );
    assert_eq!(
        message(Error::CreateVhostUserListener(transport())),
        "cannot create vhost-user listener: cause"
    );
    assert_eq!(
        message(Error::StartDaemon(IoError::Os(1))),
        "failed to start daemon: cause"
    );
    assert_eq!(message(Error::WaitDaemon("panic")), "failed to wait for daemon exit");
    assert_eq!(
        message(Error::HandleRequest(transport())),
        "failed to handle request: cause"
    );
}
