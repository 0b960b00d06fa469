//! The decisions of the service, apart from its sockets.
//!
//! A [`Client`] stands for one accepted connection. The program around it
//! reads from the socket, tells the client what came of it, and does what the
//! client answers: send bytes, read on, or leave. A [`Server`] stands for the
//! listener: it keeps the running flag and says what to do with what the
//! listener hands over. Neither holds a socket, so every step is a plain
//! function of the state and the event.

use crate::dispatch::{reply_to, respond};
use vstd::prelude::*;

verus! {

/// How many bytes one read may bring: a request is taken to arrive whole in a
/// single read of at most this size.
pub const BUFFER_SIZE: usize = 512;

/// How long the listener rests after each attempt to accept, in milliseconds.
pub const ACCEPT_PAUSE_MILLIS: u64 = 100;

/// Where a connection stands.
#[derive(Clone, Copy, Debug, PartialEq, Eq, Structural)]
pub enum Connection {
    /// Requests are read and answered.
    Open,
    /// The peer has closed its side; the connection ended in good order.
    Closed,
    /// Reading or sending failed; the connection ended with that error.
    Failed,
}

/// What the program around a connection reports to it.
#[derive(Clone, Copy, Debug)]
pub enum Event<'a> {
    /// A read returned these bytes; none means that the peer has closed.
    Received(&'a [u8]),
    /// A read failed.
    ReadFailed,
    /// Writing or flushing a reply failed.
    SendFailed,
}

/// What an [`Event`] says.
pub enum EventView {
    Received(Seq<u8>),
    ReadFailed,
    SendFailed,
}

impl<'a> View for Event<'a> {
    type V = EventView;

    open spec fn view(&self) -> EventView {
        match self {
            Event::Received(bytes) => EventView::Received(bytes@),
            Event::ReadFailed => EventView::ReadFailed,
            Event::SendFailed => EventView::SendFailed,
        }
    }
}

/// What the program around a connection is to do next.
#[derive(Clone, Debug, PartialEq, Eq)]
pub enum Action {
    /// Write all of these bytes, flush, then read again.
    Reply(Vec<u8>),
    /// The bytes held no request: send nothing and read again.
    Await,
    /// Leave in good order.
    Close,
    /// Leave with the error that the read or the send gave.
    Abort,
}

/// What an [`Action`] says.
pub enum ActionView {
    Reply(Seq<u8>),
    Await,
    Close,
    Abort,
}

impl View for Action {
    type V = ActionView;

    open spec fn view(&self) -> ActionView {
        match self {
            Action::Reply(bytes) => ActionView::Reply(bytes@),
            Action::Await => ActionView::Await,
            Action::Close => ActionView::Close,
            Action::Abort => ActionView::Abort,
        }
    }
}

/// The handler of one connection.
#[derive(Debug)]
pub struct Client {
    pub state: Connection,
}

impl Client {
    /// One step of a connection: the state it goes to and what is to be done.
    ///
    /// While the connection is open, an empty read closes it, bytes that hold a
    /// request are answered, other bytes are passed over, and a failed read or
    /// send ends it. Once it has ended it stays as it is and asks to leave.
    pub open spec fn step(state: Connection, event: EventView) -> (Connection, ActionView) {
        match state {
            Connection::Open => match event {
                EventView::Received(bytes) => if bytes.len() == 0 {
                    (Connection::Closed, ActionView::Close)
                } else {
                    match reply_to(bytes) {
                        Some(out) => (Connection::Open, ActionView::Reply(out)),
                        None => (Connection::Open, ActionView::Await),
                    }
                },
                EventView::ReadFailed => (Connection::Failed, ActionView::Abort),
                EventView::SendFailed => (Connection::Failed, ActionView::Abort),
            },
            Connection::Closed => (Connection::Closed, ActionView::Close),
            Connection::Failed => (Connection::Failed, ActionView::Abort),
        }
    }

    /// The handler of a connection that was just accepted.
    pub fn new() -> (client: Client)
        ensures
            client.state == Connection::Open,
    {
        Client { state: Connection::Open }
    }

    /// Takes what the last read or send came to and says what to do next.
    pub fn handle(&mut self, event: Event) -> (action: Action)
        ensures
            (final(self).state, action@) == Client::step(old(self).state, event@),
    {
        match self.state {
            Connection::Open => match event {
                Event::Received(bytes) => {
                    if bytes.len() == 0 {
                        self.state = Connection::Closed;
                        Action::Close
                    } else {
                        match respond(bytes) {
                            Some(out) => Action::Reply(out),
                            None => Action::Await,
                        }
                    }
                },
                Event::ReadFailed => {
                    self.state = Connection::Failed;
                    Action::Abort
                },
                Event::SendFailed => {
                    self.state = Connection::Failed;
                    Action::Abort
                },
            },
            Connection::Closed => Action::Close,
            Connection::Failed => Action::Abort,
        }
    }
}

/// What the listener reports to the server.
#[derive(Clone, Copy, Debug, PartialEq, Eq, Structural)]
pub enum Incoming {
    /// The listener is bound and the accept loop begins.
    Started,
    /// A peer has connected.
    Connected,
    /// An attempt to accept failed.
    AcceptFailed,
}

/// What the listener is to do next. After each of them it rests for
/// [`ACCEPT_PAUSE_MILLIS`] and accepts again: nothing ends the loop.
#[derive(Clone, Copy, Debug, PartialEq, Eq, Structural)]
pub enum Admission {
    /// Accept the first peer.
    Listen,
    /// Hand the new connection to a [`Client`] of its own, run side by side
    /// with the others.
    Serve,
    /// Note the failure and go on.
    Report,
}

/// What a call of [`Server::stop`] came to.
#[derive(Clone, Copy, Debug, PartialEq, Eq, Structural)]
pub enum Shutdown {
    /// The server was running and is now marked as stopped.
    SignalSent,
    /// The server was not running; nothing changed.
    NotRunning,
}

/// The listener's side of the service: the running flag. The flag is a note
/// for those who ask; it ends neither the accept loop nor a connection.
#[derive(Debug)]
pub struct Server {
    pub is_running: bool,
}

impl Server {
    /// A server that is not running yet.
    pub fn new() -> (server: Server)
        ensures
            !server.is_running,
    {
        Server { is_running: false }
    }

    /// One step of the accept loop. The start marks the server as running;
    /// what the listener brings afterwards leaves the flag alone, and is
    /// served or reported whatever the flag says.
    pub fn run(&mut self, incoming: Incoming) -> (admission: Admission)
        ensures
            final(self).is_running == (incoming == Incoming::Started || old(self).is_running),
            admission == match incoming {
                Incoming::Started => Admission::Listen,
                Incoming::Connected => Admission::Serve,
                Incoming::AcceptFailed => Admission::Report,
            },
    {
        match incoming {
            Incoming::Started => {
                self.is_running = true;
                Admission::Listen
            },
            Incoming::Connected => Admission::Serve,
            Incoming::AcceptFailed => Admission::Report,
        }
    }

    /// Marks the server as stopped, and says whether it was running.
    pub fn stop(&mut self) -> (shutdown: Shutdown)
        ensures
            !final(self).is_running,
            shutdown == if old(self).is_running {
                Shutdown::SignalSent
            } else {
                Shutdown::NotRunning
            },
    {
        if self.is_running {
            self.is_running = false;
            Shutdown::SignalSent
        } else {
            Shutdown::NotRunning
        }
    }
}

} // verus!
