# vhost-user

The transport of the vhost-user protocol and the device side of it, written in Verus.

The library under `src/` does no I/O. It decides what is handed to a socket, a kernel or a thread,
and what their answers mean. Each longer operation is a small machine: the caller asks what to do
next, does it, and reports the outcome.

* `bytes`, `message`, `error`: the form of messages on the wire, and the errors of the transport.
* `connection`: endpoints and listeners. `connection::sending` is the way out of a message,
  `connection::unix` the way in where objects are passed as descriptors, and
  `connection::windows` both ways where they are passed as handle records.
* `win32`: the handle records.
* `backend`, `completion_backend`, `protocol`, `vring`, `locks`: devices, and what the control
  channel sees of them.
* `completion_loop`: the loop of a worker thread over a completion port.
* `daemon`: the daemon that serves connections.

`app/` runs these on sockets, handles and threads.
