//! The daemon that runs a vhost-user backend.
//!
//! The daemon serves one connection at a time on a thread of its own. This module keeps the state
//! of that connection and decides what its outcomes mean. The sockets and the threads are the
//! caller's: `H` is the handler of requests, `S` a connection, and `J` a running thread.

use std::sync::atomic::{AtomicBool, Ordering};
use std::sync::Arc;

use vstd::prelude::*;
use vstd::string::*;

use crate::error;
use crate::error::IoError;
use crate::latch::Latch;
use crate::locks::share;

verus! {

/// Errors of the daemon. `E` is an error of the handler, `P` what a thread that panicked leaves.
#[derive(Debug)]
pub enum Error<E, P> {
    /// Failed to create a new handler.
    NewVhostUserHandler(E),
    /// Failed to create the listener of the backend.
    CreateBackendListener(error::Error),
    /// Failed to create the handler of requests.
    CreateBackendReqHandler(error::Error),
    /// Failed to create the socket to listen on.
    CreateVhostUserListener(error::Error),
    /// Failed to start the thread of the daemon.
    StartDaemon(IoError),
    /// Failed to wait for the thread of the daemon.
    WaitDaemon(P),
    /// Failed to handle a request.
    HandleRequest(error::Error),
}

impl<E, P> Error<E, P> {
    /// What is said of the error, before the words of the error behind it. Of a thread that
    /// panicked nothing more is said.
    pub open spec fn prefix(self) -> Seq<char> {
        match self {
            Error::NewVhostUserHandler(_) => "cannot create vhost user handler: "@,
            Error::CreateBackendListener(_) => "cannot create backend listener: "@,
            Error::CreateBackendReqHandler(_) => "cannot create backend req handler: "@,
            Error::CreateVhostUserListener(_) => "cannot create vhost-user listener: "@,
            Error::StartDaemon(_) => "failed to start daemon: "@,
            Error::WaitDaemon(_) => "failed to wait for daemon exit"@,
            Error::HandleRequest(_) => "failed to handle request: "@,
        }
    }

    /// The error in words, given the words of the error behind it.
    pub fn message(&self, cause: &str) -> (message: String)
        ensures
            message@ == if self is WaitDaemon {
                self.prefix()
            } else {
                self.prefix() + cause@
            },
    {
        let prefix = match self {
            Error::NewVhostUserHandler(_) => "cannot create vhost user handler: ",
            Error::CreateBackendListener(_) => "cannot create backend listener: ",
            Error::CreateBackendReqHandler(_) => "cannot create backend req handler: ",
            Error::CreateVhostUserListener(_) => "cannot create vhost-user listener: ",
            Error::StartDaemon(_) => "failed to start daemon: ",
            Error::WaitDaemon(_) => {
                return "failed to wait for daemon exit".to_owned();
            },
            Error::HandleRequest(_) => "failed to handle request: ",
        };
        prefix.to_owned().concat(cause)
    }
}

/// A connection, and whether someone asked for its end.
pub struct ConnectionState<S> {
    conn: S,
    shutdown_requested: Latch,
}

impl<S> ConnectionState<S> {
    /// The connection.
    pub closed spec fn connection(self) -> S {
        self.conn
    }

    /// The flag that says whether someone asked for the end of the connection.
    pub closed spec fn flag(self) -> AtomicBool {
        self.shutdown_requested.flag()
    }

    /// The connection, for the thread that serves it to shut down when it is done.
    pub fn conn(&self) -> (conn: &S)
        ensures
            *conn == self.connection(),
    {
        &self.conn
    }
}

/// A handle to ask for the end of a running daemon from any thread.
///
/// It may be used more than once, and after the connection has gone.
pub struct ShutdownHandle<S> {
    state: Arc<ConnectionState<S>>,
}

impl<S> ShutdownHandle<S> {
    /// The connection whose end the handle asks for.
    pub closed spec fn state(self) -> ConnectionState<S> {
        *self.state
    }

    /// Takes note that the daemon is to shut down, and gives the connection to shut down.
    pub fn shutdown(&self) -> (conn: &S)
        ensures
            *conn == self.state().connection(),
            call_ensures(AtomicBool::store, (&self.state().flag(), true, Ordering::Release), ()),
    {
        self.state.shutdown_requested.raise();
        &self.state.conn
    }
}

impl<S> Clone for ShutdownHandle<S> {
    fn clone(&self) -> (handle: Self)
        ensures
            handle == *self,
    {
        ShutdownHandle { state: share(&self.state) }
    }
}

/// What to wait for.
pub enum WaitStep<J> {
    /// Join this thread, and report the outcome to `on_joined`.
    Join(J),
    /// No thread is running: the waiting is over.
    Done,
}

/// What follows from an attempt to accept a connection.
pub enum AcceptStep<C, E, P> {
    /// Nobody is there yet: try again.
    Again,
    /// The attempts are over.
    Done(Result<C, Error<E, P>>),
}

/// What a wait reports of a thread that ended with `ended`, where `requested` says whether someone
/// had asked for its end.
///
/// A broken connection is the regular end of a thread. Where its end was asked for, so is every
/// request that failed.
pub open spec fn judged<E, P>(ended: Result<(), Error<E, P>>, requested: bool) -> Result<
    (),
    Error<E, P>,
> {
    match ended {
        Err(Error::HandleRequest(error::Error::SocketBroken(_))) => Ok(()),
        Err(Error::HandleRequest(_)) if requested => Ok(()),
        _ => ended,
    }
}

/// What a wait reports of a thread that ended.
pub fn judge<E, P>(ended: Result<(), Error<E, P>>, requested: bool) -> (result: Result<
    (),
    Error<E, P>,
>)
    ensures
        result == judged(ended, requested),
{
    match ended {
        Err(Error::HandleRequest(error)) => match error {
            error::Error::SocketBroken(_) => Ok(()),
            error => if requested {
                Ok(())
            } else {
                Err(Error::HandleRequest(error))
            },
        },
        ended => ended,
    }
}

/// How far serving a connection got.
pub enum ServeOutcome<E, P> {
    /// The connection could not be started.
    NotStarted(Error<E, P>),
    /// The connection was started, and waiting for its end gave this.
    Waited(Result<(), Error<E, P>>),
}

/// How serving a connection ends: whether the worker threads are to be asked to exit, and what is
/// reported.
pub struct Served<E, P> {
    pub send_exit_event: bool,
    pub result: Result<(), Error<E, P>>,
}

/// What serving a connection reports where waiting for its end gave `waited`: that the peer went
/// away, in the middle of a message or not, is how guests quit.
pub open spec fn reported<E, P>(waited: Result<(), Error<E, P>>) -> Result<(), Error<E, P>> {
    match waited {
        Err(Error::HandleRequest(error::Error::Disconnected)) => Ok(()),
        Err(Error::HandleRequest(error::Error::PartialMessage)) => Ok(()),
        _ => waited,
    }
}

/// How serving a connection ends. Once it was started, the worker threads exit whatever came of
/// it.
pub open spec fn served<E, P>(outcome: ServeOutcome<E, P>) -> Served<E, P> {
    match outcome {
        ServeOutcome::NotStarted(error) => Served { send_exit_event: false, result: Err(error) },
        ServeOutcome::Waited(waited) => Served {
            send_exit_event: true,
            result: reported(waited),
        },
    }
}

/// Where a daemon stands: the thread that serves requests, if there is one to wait for, and the
/// connection that is being served.
pub struct DaemonView<J, S> {
    pub thread: Option<J>,
    pub connection: Option<ConnectionState<S>>,
}

impl<J, S> DaemonView<J, S> {
    /// A daemon that has nothing to do.
    pub open spec fn idle() -> Self {
        DaemonView { thread: None, connection: None }
    }

    /// Where the outcome of starting a thread for a connection leaves a daemon.
    pub open spec fn after_start(
        self,
        state: ConnectionState<S>,
        spawned: Result<J, IoError>,
    ) -> Self {
        match spawned {
            Ok(thread) => DaemonView { thread: Some(thread), connection: Some(state) },
            Err(_) => self,
        }
    }

    /// Where the start of a wait leaves a daemon, and what to wait for.
    pub open spec fn after_wait(self) -> (Self, WaitStep<J>) {
        match self.thread {
            Some(thread) => (DaemonView { thread: None, ..self }, WaitStep::Join(thread)),
            None => (Self::idle(), WaitStep::Done),
        }
    }

    /// Where the end of its thread leaves a daemon.
    pub open spec fn after_join(self, panicked: bool) -> Self {
        if panicked {
            self
        } else {
            DaemonView { connection: None, ..self }
        }
    }
}

/// A daemon that serves requests on a thread of its own.
pub struct VhostUserDaemon<H, J, S> {
    name: String,
    handler: H,
    main_thread: Option<J>,
    conn_state: Option<Arc<ConnectionState<S>>>,
}

impl<H, J, S> View for VhostUserDaemon<H, J, S> {
    type V = DaemonView<J, S>;

    closed spec fn view(&self) -> DaemonView<J, S> {
        DaemonView {
            thread: self.main_thread,
            connection: match self.conn_state {
                Some(state) => Some(*state),
                None => None,
            },
        }
    }
}

impl<H, J, S> VhostUserDaemon<H, J, S> {
    /// The name of the thread that serves requests.
    pub closed spec fn name(self) -> Seq<char> {
        self.name@
    }

    /// The handler of requests.
    pub closed spec fn handler(self) -> H {
        self.handler
    }

    /// Another daemon has the same name and the same handler.
    pub open spec fn same_service(self, other: Self) -> bool {
        self.name() == other.name() && self.handler() == other.handler()
    }

    /// Creates the daemon of a device on the epoll loop, given the outcome of creating its
    /// handler.
    ///
    /// * NewVhostUserHandler: the handler could not be created.
    pub fn new<E, P>(name: String, handler: Result<H, E>) -> (daemon: Result<Self, Error<E, P>>)
        ensures
            match handler {
                Ok(handler) => {
                    &&& daemon matches Ok(daemon)
                    &&& daemon.name() == name@
                    &&& daemon.handler() == handler
                    &&& daemon@ == DaemonView::<J, S>::idle()
                },
                Err(error) => daemon == Err::<Self, Error<E, P>>(Error::NewVhostUserHandler(error)),
            },
    {
        match handler {
            Ok(handler) => Ok(
                VhostUserDaemon { name, handler, main_thread: None, conn_state: None },
            ),
            Err(error) => Err(Error::NewVhostUserHandler(error)),
        }
    }

    /// Creates the daemon of a device on the completion-port loop, given the outcome of creating
    /// its handler.
    ///
    /// * NewVhostUserHandler: the handler could not be created.
    pub fn new_completion<E, P>(name: String, handler: Result<H, E>) -> (daemon: Result<
        Self,
        Error<E, P>,
    >)
        ensures
            match handler {
                Ok(handler) => {
                    &&& daemon matches Ok(daemon)
                    &&& daemon.name() == name@
                    &&& daemon.handler() == handler
                    &&& daemon@ == DaemonView::<J, S>::idle()
                },
                Err(error) => daemon == Err::<Self, Error<E, P>>(Error::NewVhostUserHandler(error)),
            },
    {
        Self::new(name, handler)
    }

    /// The handler of requests.
    pub fn get_handler(&self) -> (handler: &H)
        ensures
            *handler == self.handler(),
    {
        &self.handler
    }

    /// The name for the thread that serves requests.
    pub fn thread_name(&self) -> (name: String)
        ensures
            name@ == self.name(),
    {
        self.name.clone()
    }

    fn reset_connection_state(&mut self)
        ensures
            final(self).same_service(*old(self)),
            final(self)@ == old(self)@.after_join(false),
    {
        self.conn_state = None;
    }

    /// Judges the attempt to connect to a frontend.
    ///
    /// * CreateBackendReqHandler: there is no connection.
    pub fn start_client<C, E, P>(connected: Result<C, error::Error>) -> (handler: Result<
        C,
        Error<E, P>,
    >)
        ensures
            handler == match connected {
                Ok(handler) => Ok::<C, Error<E, P>>(handler),
                Err(error) => Err(Error::CreateBackendReqHandler(error)),
            },
    {
        match connected {
            Ok(handler) => Ok(handler),
            Err(error) => Err(Error::CreateBackendReqHandler(error)),
        }
    }

    /// Judges the attempt to listen for frontends.
    ///
    /// * CreateBackendListener: there is no listener.
    pub fn start<L, E, P>(listening: Result<L, error::Error>) -> (listener: Result<L, Error<E, P>>)
        ensures
            listener == match listening {
                Ok(listener) => Ok::<L, Error<E, P>>(listener),
                Err(error) => Err(Error::CreateBackendListener(error)),
            },
    {
        match listening {
            Ok(listener) => Ok(listener),
            Err(error) => Err(Error::CreateBackendListener(error)),
        }
    }

    /// Judges an attempt to accept a connection: attempts go on until one comes or one fails.
    ///
    /// * CreateBackendListener: the attempt failed.
    pub fn accept<C, E, P>(accepted: Result<Option<C>, error::Error>) -> (step: AcceptStep<C, E, P>)
        ensures
            step == match accepted {
                Ok(Some(handler)) => AcceptStep::Done(Ok::<C, Error<E, P>>(handler)),
                Ok(None) => AcceptStep::Again,
                Err(error) => AcceptStep::Done(Err(Error::CreateBackendListener(error))),
            },
    {
        match accepted {
            Ok(Some(handler)) => AcceptStep::Done(Ok(handler)),
            Ok(None) => AcceptStep::Again,
            Err(error) => AcceptStep::Done(Err(Error::CreateBackendListener(error))),
        }
    }

    /// Prepares to serve a connection, given the outcome of cloning it. Nobody has asked for its
    /// end yet.
    ///
    /// * StartDaemon: the connection could not be cloned.
    pub fn prepare<E, P>(cloned: Result<S, IoError>) -> (state: Result<
        Arc<ConnectionState<S>>,
        Error<E, P>,
    >)
        ensures
            match cloned {
                Ok(conn) => {
                    &&& state matches Ok(state)
                    &&& state.connection() == conn
                    &&& call_ensures(AtomicBool::new, (false,), state.flag())
                },
                Err(error) => state == Err::<Arc<ConnectionState<S>>, Error<E, P>>(
                    Error::StartDaemon(error),
                ),
            },
    {
        match cloned {
            Ok(conn) => Ok(
                Arc::new(ConnectionState { conn, shutdown_requested: Latch::new() }),
            ),
            Err(error) => Err(Error::StartDaemon(error)),
        }
    }

    /// Takes note of the outcome of starting the thread that serves the connection.
    ///
    /// * StartDaemon: the thread could not be started. Nothing has changed.
    pub fn start_daemon<E, P>(
        &mut self,
        state: Arc<ConnectionState<S>>,
        spawned: Result<J, IoError>,
    ) -> (result: Result<(), Error<E, P>>)
        ensures
            final(self).same_service(*old(self)),
            final(self)@ == old(self)@.after_start(*state, spawned),
            result == match spawned {
                Ok(_) => Ok::<(), Error<E, P>>(()),
                Err(error) => Err(Error::StartDaemon(error)),
            },
    {
        match spawned {
            Ok(thread) => {
                self.conn_state = Some(state);
                self.main_thread = Some(thread);
                Ok(())
            },
            Err(error) => Err(Error::StartDaemon(error)),
        }
    }

    /// Judges a request that the thread handled: `None` where the next one may follow, or what the
    /// thread ends with.
    pub fn after_request<E, P>(handled: Result<(), error::Error>) -> (ended: Option<
        Result<(), Error<E, P>>,
    >)
        ensures
            ended == match handled {
                Ok(_) => None::<Result<(), Error<E, P>>>,
                Err(error) => Some(Err(Error::HandleRequest(error))),
            },
    {
        match handled {
            Ok(_) => None,
            Err(error) => Some(Err(Error::HandleRequest(error))),
        }
    }

    /// What to wait for, for the thread that serves requests to end. Where there is none, the
    /// daemon is not connected any more.
    pub fn wait(&mut self) -> (step: WaitStep<J>)
        ensures
            final(self).same_service(*old(self)),
            (final(self)@, step) == old(self)@.after_wait(),
    {
        match self.main_thread.take() {
            Some(thread) => WaitStep::Join(thread),
            None => {
                self.reset_connection_state();
                WaitStep::Done
            },
        }
    }

    /// Judges the end of the thread that served requests. Unless it panicked, the daemon is not
    /// connected any more.
    ///
    /// * WaitDaemon: the thread panicked.
    /// * HandleRequest: a request failed, the connection was not broken, and nobody asked for the
    ///   end of the daemon.
    pub fn on_joined<E, P>(
        &mut self,
        joined: Result<Result<(), Error<E, P>>, P>,
    ) -> (result: Result<(), Error<E, P>>)
        ensures
            final(self).same_service(*old(self)),
            final(self)@ == old(self)@.after_join(joined is Err),
            match joined {
                Ok(ended) => exists|requested: bool|
                    {
                        &&& result == #[trigger] judged(ended, requested)
                        &&& match old(self)@.connection {
                            Some(state) => call_ensures(
                                AtomicBool::load,
                                (&state.flag(), Ordering::Acquire),
                                requested,
                            ),
                            None => !requested,
                        }
                    },
                Err(panic) => result == Err::<(), Error<E, P>>(Error::WaitDaemon(panic)),
            },
    {
        match joined {
            Ok(ended) => {
                let requested = match &self.conn_state {
                    Some(state) => state.shutdown_requested.is_raised(),
                    None => false,
                };
                let result = judge(ended, requested);
                self.reset_connection_state();
                result
            },
            Err(panic) => Err(Error::WaitDaemon(panic)),
        }
    }

    /// A handle to shut the daemon down, or `None` where it is not connected.
    pub fn shutdown_handle(&self) -> (handle: Option<ShutdownHandle<S>>)
        ensures
            match handle {
                Some(handle) => self@.connection == Some(handle.state()),
                None => self@.connection is None,
            },
    {
        match &self.conn_state {
            Some(state) => Some(ShutdownHandle { state: share(state) }),
            None => None,
        }
    }

    /// Takes note that the daemon is to shut down: a handle on the connection to shut down, or
    /// `None` where the daemon is not connected.
    pub fn request_shutdown(&self) -> (handle: Option<ShutdownHandle<S>>)
        ensures
            match handle {
                Some(handle) => {
                    &&& self@.connection == Some(handle.state())
                    &&& call_ensures(
                        AtomicBool::store,
                        (&handle.state().flag(), true, Ordering::Release),
                        (),
                    )
                },
                None => self@.connection is None,
            },
    {
        match self.shutdown_handle() {
            Some(handle) => {
                handle.shutdown();
                Some(handle)
            },
            None => None,
        }
    }

    /// Judges the attempt to make the socket to serve on.
    ///
    /// * CreateVhostUserListener: there is no socket.
    pub fn serve_on<L, E, P>(bound: Result<L, error::Error>) -> (listener: Result<L, Error<E, P>>)
        ensures
            listener == match bound {
                Ok(listener) => Ok::<L, Error<E, P>>(listener),
                Err(error) => Err(Error::CreateVhostUserListener(error)),
            },
    {
        match bound {
            Ok(listener) => Ok(listener),
            Err(error) => Err(Error::CreateVhostUserListener(error)),
        }
    }

    /// Decides how serving a connection ends.
    pub fn serve<E, P>(outcome: ServeOutcome<E, P>) -> (end: Served<E, P>)
        ensures
            end == served(outcome),
    {
        let waited = match outcome {
            ServeOutcome::NotStarted(error) => {
                return Served { send_exit_event: false, result: Err(error) };
            },
            ServeOutcome::Waited(waited) => waited,
        };
        let result = match waited {
            Err(Error::HandleRequest(error)) => match error {
                error::Error::Disconnected => Ok(()),
                error::Error::PartialMessage => Ok(()),
                error => Err(Error::HandleRequest(error)),
            },
            waited => waited,
        };
        Served { send_exit_event: true, result }
    }

    /// Lets go of the connection when the daemon goes: the one to shut down, if there is one.
    pub fn close(&mut self) -> (state: Option<Arc<ConnectionState<S>>>)
        ensures
            final(self).same_service(*old(self)),
            final(self)@ == old(self)@.after_join(false),
            match state {
                Some(state) => old(self)@.connection == Some(*state),
                None => old(self)@.connection is None,
            },
    {
        self.conn_state.take()
    }
}

/// Once a wait has seen the thread of a daemon end, the daemon is not connected. Whether or not
/// the thread panicked, another wait has nothing to wait for, and leaves the daemon idle.
pub proof fn law_second_wait_has_nothing_to_wait_for<J, S>(
    daemon: DaemonView<J, S>,
    panicked: bool,
)
    ensures
        daemon.after_wait().0.after_join(false) == DaemonView::<J, S>::idle(),
        daemon.after_wait().0.after_join(panicked).after_wait() == (
            DaemonView::<J, S>::idle(),
            WaitStep::<J>::Done,
        ),
{
}

/// A daemon whose thread has ended can serve another connection: what it is after a start does not
/// depend on what was served before, and a wait waits for the thread of the new connection.
pub proof fn law_daemon_serves_again<J, S>(
    daemon: DaemonView<J, S>,
    state: ConnectionState<S>,
    thread: J,
)
    ensures
        ({
            let again = daemon.after_wait().0.after_join(false).after_start(state, Ok(thread));
            &&& again == DaemonView::<J, S>::idle().after_start(state, Ok(thread))
            &&& again.connection == Some(state)
            &&& again.after_wait().1 == WaitStep::Join(thread)
        }),
{
}

/// A start that failed leaves a daemon as it was.
pub proof fn law_failed_start_changes_nothing<J, S>(
    daemon: DaemonView<J, S>,
    state: ConnectionState<S>,
    error: IoError,
)
    ensures
        daemon.after_start(state, Err(error)) == daemon,
{
}

/// A shutdown handle that was taken while a daemon is connected reaches the wait for that
/// connection: the flag that the handle sets is the one that the wait reads when the thread has
/// ended, however often and through whichever clone it is set.
pub proof fn law_shutdown_reaches_the_wait<J, S>(
    daemon: DaemonView<J, S>,
    handle: ShutdownHandle<S>,
)
    requires
        daemon.thread is Some,
        daemon.connection == Some(handle.state()),
    ensures
        daemon.after_wait().0.connection matches Some(state) && state.flag()
            == handle.state().flag(),
{
}

/// Where the end of the daemon was asked for, no request that failed on the way is reported.
pub proof fn law_requested_shutdown_is_no_failure<E, P>(failure: error::Error)
    ensures
        judged::<E, P>(Err(Error::HandleRequest(failure)), true) == Ok::<(), Error<E, P>>(()),
{
}

/// A wait reports a failure exactly where the thread failed on a request over a connection that is
/// not broken, with nobody having asked for its end.
pub proof fn law_unrequested_failures_are_reported<E, P>(failure: error::Error)
    ensures
        judged::<E, P>(Err(Error::HandleRequest(failure)), false) == if failure is SocketBroken {
            Ok::<(), Error<E, P>>(())
        } else {
            Err(Error::HandleRequest(failure))
        },
        judged::<E, P>(Ok(()), false) == Ok::<(), Error<E, P>>(()),
{
}

/// A guest that quits is no failure of serving it, however it quits: by hanging up, in the middle
/// of a message or not, or by breaking the connection.
pub proof fn law_quitting_guests_are_no_failure<E, P>(failure: error::Error, requested: bool)
    requires
        failure is Disconnected || failure is PartialMessage || failure is SocketBroken,
    ensures
        reported(judged::<E, P>(Err(Error::HandleRequest(failure)), requested)) == Ok::<
            (),
            Error<E, P>,
        >(()),
{
}

/// Serving reports success exactly where the wait did, or where the guest hung up, in the middle
/// of a message or not. Any other outcome of the wait is reported as it is, and the worker threads
/// are asked to exit whatever it was.
pub proof fn law_serving_reports_what_the_wait_gave<H, J, S, E, P>(
    waited: Result<(), Error<E, P>>,
    end: Served<E, P>,
)
    requires
        call_ensures(
            VhostUserDaemon::<H, J, S>::serve::<E, P>,
            (ServeOutcome::Waited(waited),),
            end,
        ),
    ensures
        end.send_exit_event,
        end.result is Ok <==> (waited is Ok || (waited matches Err(Error::HandleRequest(failure))
            && (failure is Disconnected || failure is PartialMessage))),
        end.result is Err ==> end.result == waited,
{
}

/// A connection that could not be started is reported as it failed, and no worker thread is asked
/// to exit on its account.
pub proof fn law_failed_starts_are_reported<H, J, S, E, P>(
    failure: Error<E, P>,
    end: Served<E, P>,
)
    requires
        call_ensures(
            VhostUserDaemon::<H, J, S>::serve::<E, P>,
            (ServeOutcome::NotStarted(failure),),
            end,
        ),
    ensures
        end.result == Err::<(), Error<E, P>>(failure),
        !end.send_exit_event,
{
}

/// A wait reports success exactly where the thread ended well, or failed on a request over a broken
/// connection, or failed on a request after its end was asked for. Any other end is reported as it
/// is.
pub proof fn law_waits_report_how_the_thread_ended<E, P>(
    ended: Result<(), Error<E, P>>,
    requested: bool,
    result: Result<(), Error<E, P>>,
)
    requires
        call_ensures(judge::<E, P>, (ended, requested), result),
    ensures
        result is Ok <==> (ended is Ok || (ended matches Err(Error::HandleRequest(failure)) && (
        requested || failure is SocketBroken))),
        result is Err ==> result == ended,
{
}

/// A thread that panicked leaves the connection of its daemon for the next wait to let go, and any
/// other end lets it go at once. Neither brings a thread back.
pub proof fn law_panics_keep_the_connection<J, S>(daemon: DaemonView<J, S>)
    ensures
        daemon.after_join(true) == daemon,
        daemon.after_join(false).connection is None,
        daemon.after_join(false).thread == daemon.thread,
{
}

/// A wait joins the thread that a daemon has, once: it takes the thread away and keeps the
/// connection, for the end of the thread to be judged by it.
pub proof fn law_waits_join_the_thread_once<J, S>(daemon: DaemonView<J, S>)
    ensures
        daemon.after_wait().0.thread is None,
        match daemon.after_wait().1 {
            WaitStep::Join(thread) => {
                &&& daemon.thread == Some(thread)
                &&& daemon.after_wait().0.connection == daemon.connection
            },
            WaitStep::Done => daemon.thread is None && daemon.after_wait().0.connection is None,
        },
{
}

/// Once the end of a connected daemon was asked for, the flag of its connection has been set, and
/// the wait for that connection reads this flag: where it reads it set, no request that failed is
/// reported.
pub proof fn law_request_reaches_the_wait<H, J, S, E, P>(
    daemon: &VhostUserDaemon<H, J, S>,
    state: ConnectionState<S>,
    handle: Option<ShutdownHandle<S>>,
)
    requires
        daemon@.connection == Some(state),
        call_ensures(VhostUserDaemon::<H, J, S>::request_shutdown, (daemon,), handle),
    ensures
        handle matches Some(handle) && handle.state() == state,
        call_ensures(AtomicBool::store, (&state.flag(), true, Ordering::Release), ()),
        forall|
            waiting: &mut VhostUserDaemon<H, J, S>,
            failure: error::Error,
            result: Result<(), Error<E, P>>,
        |
            {
                &&& waiting@.connection == Some(state)
                &&& !call_ensures(
                    AtomicBool::load,
                    (&state.flag(), Ordering::Acquire),
                    false,
                )
                &&& #[trigger] call_ensures(
                    VhostUserDaemon::<H, J, S>::on_joined::<E, P>,
                    (waiting, Ok(Err(Error::HandleRequest(failure)))),
                    result,
                )
            } ==> result == Ok::<(), Error<E, P>>(()),
{
}

/// What could not be had is reported under the step that it failed at, with the error behind it,
/// and what could be had is handed on.
pub proof fn law_failed_steps_name_themselves<H, J, S, C, E, P>(
    outcome: Result<C, error::Error>,
    client: Result<C, Error<E, P>>,
    listener: Result<C, Error<E, P>>,
    socket: Result<C, Error<E, P>>,
)
    requires
        call_ensures(VhostUserDaemon::<H, J, S>::start_client::<C, E, P>, (outcome,), client),
        call_ensures(VhostUserDaemon::<H, J, S>::start::<C, E, P>, (outcome,), listener),
        call_ensures(VhostUserDaemon::<H, J, S>::serve_on::<C, E, P>, (outcome,), socket),
    ensures
        match outcome {
            Ok(got) => {
                &&& client == Ok::<C, Error<E, P>>(got)
                &&& listener == Ok::<C, Error<E, P>>(got)
                &&& socket == Ok::<C, Error<E, P>>(got)
            },
            Err(error) => {
                &&& client == Err::<C, Error<E, P>>(Error::CreateBackendReqHandler(error))
                &&& listener == Err::<C, Error<E, P>>(Error::CreateBackendListener(error))
                &&& socket == Err::<C, Error<E, P>>(Error::CreateVhostUserListener(error))
            },
        },
{
}

/// Attempts to accept a connection go on exactly while nobody is there and none has failed; and the
/// thread of a connection goes on exactly while its requests are handled.
pub proof fn law_attempts_and_requests_go_on<H, J, S, C, E, P>(
    accepted: Result<Option<C>, error::Error>,
    step: AcceptStep<C, E, P>,
    handled: Result<(), error::Error>,
    ended: Option<Result<(), Error<E, P>>>,
)
    requires
        call_ensures(VhostUserDaemon::<H, J, S>::accept::<C, E, P>, (accepted,), step),
        call_ensures(VhostUserDaemon::<H, J, S>::after_request::<E, P>, (handled,), ended),
    ensures
        step is Again <==> (accepted matches Ok(there) && there is None),
        accepted matches Err(error) ==> step == AcceptStep::<C, E, P>::Done(
            Err(Error::CreateBackendListener(error)),
        ),
        accepted matches Ok(Some(handler)) ==> step == AcceptStep::<C, E, P>::Done(Ok(handler)),
        ended is None <==> handled is Ok,
        handled matches Err(error) ==> ended == Some(
            Err::<(), Error<E, P>>(Error::HandleRequest(error)),
        ),
{
}

/// A daemon that was made has the name and the handler that it was given, and nothing to do; one
/// whose handler could not be made is none.
pub proof fn law_new_daemons_are_idle<H, J, S, E, P>(
    name: String,
    handler: Result<H, E>,
    daemon: Result<VhostUserDaemon<H, J, S>, Error<E, P>>,
)
    requires
        call_ensures(VhostUserDaemon::<H, J, S>::new::<E, P>, (name, handler), daemon)
            || call_ensures(
            VhostUserDaemon::<H, J, S>::new_completion::<E, P>,
            (name, handler),
            daemon,
        ),
    ensures
        daemon is Ok <==> handler is Ok,
        match (handler, daemon) {
            (Ok(handler), Ok(daemon)) => {
                &&& daemon.name() == name@
                &&& daemon.handler() == handler
                &&& daemon@.thread is None
                &&& daemon@.connection is None
            },
            (Err(error), Err(failure)) => failure == Error::<E, P>::NewVhostUserHandler(error),
            _ => false,
        },
{
}

/// A connection is prepared with nobody having asked for its end; one that could not be cloned is
/// reported as a start that failed. A handle on a connected daemon is one on its connection, and a
/// daemon that is not connected has none.
pub proof fn law_handles_belong_to_the_connection<H, J, S, E, P>(
    cloned: Result<S, IoError>,
    state: Result<Arc<ConnectionState<S>>, Error<E, P>>,
    daemon: &VhostUserDaemon<H, J, S>,
    handle: Option<ShutdownHandle<S>>,
)
    requires
        call_ensures(VhostUserDaemon::<H, J, S>::prepare::<E, P>, (cloned,), state),
        call_ensures(VhostUserDaemon::<H, J, S>::shutdown_handle, (daemon,), handle),
    ensures
        match cloned {
            Ok(conn) => {
                &&& state matches Ok(state)
                &&& state.connection() == conn
                &&& call_ensures(AtomicBool::new, (false,), state.flag())
            },
            Err(error) => state == Err::<Arc<ConnectionState<S>>, Error<E, P>>(
                Error::StartDaemon(error),
            ),
        },
        handle is Some <==> daemon@.connection is Some,
        handle matches Some(handle) ==> daemon@.connection == Some(handle.state()),
{
}

/// A daemon whose thread was started has that thread to wait for and that connection, and one whose
/// thread could not be started is what it was. A wait gives the thread out, once, and keeps the
/// connection until the thread has ended. A daemon that goes gives its connection out. Through all
/// of it a daemon keeps its name and its handler.
pub proof fn law_daemon_keeps_its_connection_until_the_end<H, J, S, E, P>()
    ensures
        forall|
            daemon: &mut VhostUserDaemon<H, J, S>,
            state: Arc<ConnectionState<S>>,
            spawned: Result<J, IoError>,
            result: Result<(), Error<E, P>>,
        | #[trigger]
            call_ensures(
                VhostUserDaemon::<H, J, S>::start_daemon::<E, P>,
                (daemon, state, spawned),
                result,
            ) ==> {
                &&& final(daemon).same_service(*daemon)
                &&& result is Ok <==> spawned is Ok
                &&& spawned matches Ok(thread) ==> {
                    &&& final(daemon)@.thread == Some(thread)
                    &&& final(daemon)@.connection == Some(*state)
                }
                &&& spawned matches Err(error) ==> {
                    &&& final(daemon)@ == daemon@
                    &&& result == Err::<(), Error<E, P>>(Error::StartDaemon(error))
                }
            },
        forall|daemon: &mut VhostUserDaemon<H, J, S>, step: WaitStep<J>| #[trigger]
            call_ensures(VhostUserDaemon::<H, J, S>::wait, (daemon,), step) ==> {
                &&& final(daemon).same_service(*daemon)
                &&& final(daemon)@.thread is None
                &&& step is Done <==> daemon@.thread is None
                &&& step matches WaitStep::Join(thread) ==> daemon@.thread == Some(thread)
                &&& step is Join ==> final(daemon)@.connection == daemon@.connection
                &&& step is Done ==> final(daemon)@.connection is None
            },
        forall|daemon: &mut VhostUserDaemon<H, J, S>, state: Option<Arc<ConnectionState<S>>>|
            #[trigger] call_ensures(VhostUserDaemon::<H, J, S>::close, (daemon,), state) ==> {
                &&& final(daemon).same_service(*daemon)
                &&& final(daemon)@.connection is None
                &&& state is Some <==> daemon@.connection is Some
                &&& state matches Some(state) ==> daemon@.connection == Some(*state)
            },
{
}

/// A thread that panicked is reported with what it left, and leaves the daemon connected; any other
/// end of the thread ends the connection.
pub proof fn law_panics_are_reported<H, J, S, E, P>()
    ensures
        forall|
            daemon: &mut VhostUserDaemon<H, J, S>,
            joined: Result<Result<(), Error<E, P>>, P>,
            result: Result<(), Error<E, P>>,
        | #[trigger]
            call_ensures(
                VhostUserDaemon::<H, J, S>::on_joined::<E, P>,
                (daemon, joined),
                result,
            ) ==> {
                &&& final(daemon).same_service(*daemon)
                &&& joined is Ok ==> final(daemon)@.connection is None
                &&& joined matches Err(panic) ==> {
                    &&& result == Err::<(), Error<E, P>>(Error::WaitDaemon(panic))
                    &&& final(daemon)@ == daemon@
                }
                &&& joined matches Ok(ended) ==> {
                    &&& ended is Ok ==> result is Ok
                    &&& result is Err ==> result == ended
                }
            },
{
}

} // verus!
