//! The heartbeat of a websocket that streams events to a client: the socket pings the
//! client at a fixed interval and drops it once no pong came back within the timeout.
//! Times are milliseconds on one monotonic clock.
use vstd::prelude::*;

verus! {

/// What the socket does on a heartbeat tick.
#[derive(Clone, Copy, Debug, PartialEq, Eq, Structural)]
pub enum Heartbeat {
    /// The client is alive: ping it.
    Ping,
    /// The client missed its heartbeat: close the connection.
    Stop,
}

/// What the socket does with something it received.
#[derive(Debug)]
pub enum SocketAction {
    /// Send these bytes to the client as a binary frame.
    Send(Vec<u8>),
    /// Nothing to send; keep the connection.
    Keep,
    /// Close the connection.
    Stop,
}

/// A frame received from the client.
#[derive(Clone, Copy, Debug, PartialEq, Eq, Structural)]
pub enum ClientFrame {
    Pong,
    /// Any other message.
    Other,
    /// The frame could not be read.
    ProtocolError,
}

/// The heartbeat state of an event-streaming websocket.
#[derive(Debug, Clone)]
pub struct EventStreamSocket {
    /// When the client last showed it is alive.
    hb: u64,
    hb_interval: u64,
    client_timeout: u64,
}

/// Milliseconds from `since` to `now`, or zero when `now` is not later.
pub open spec fn elapsed(since: u64, now: u64) -> int {
    if now > since {
        now - since
    } else {
        0
    }
}

impl EventStreamSocket {
    pub closed spec fn last_seen(&self) -> u64 {
        self.hb
    }

    pub closed spec fn spec_hb_interval(&self) -> u64 {
        self.hb_interval
    }

    pub closed spec fn spec_client_timeout(&self) -> u64 {
        self.client_timeout
    }

    /// A socket that pings every `hb_interval` and drops a client silent for longer
    /// than `client_timeout`; the client counts as seen at `now`.
    pub fn new(now: u64, hb_interval: u64, client_timeout: u64) -> (res: Self)
        ensures
            res.last_seen() == now,
            res.spec_hb_interval() == hb_interval,
            res.spec_client_timeout() == client_timeout,
    {
        EventStreamSocket { hb: now, hb_interval, client_timeout }
    }

    /// The interval between heartbeat ticks.
    pub fn hb_interval(&self) -> (res: u64)
        ensures
            res == self.spec_hb_interval(),
    {
        self.hb_interval
    }

    /// The heartbeat tick at `now`: stop when the client has been silent for longer
    /// than the timeout, otherwise ping it.
    pub fn hb(&self, now: u64) -> (res: Heartbeat)
        ensures
            res == (if elapsed(self.last_seen(), now) > self.spec_client_timeout() {
                Heartbeat::Stop
            } else {
                Heartbeat::Ping
            }),
    {
        let since = if now > self.hb {
            now - self.hb
        } else {
            0
        };
        if since > self.client_timeout {
            Heartbeat::Stop
        } else {
            Heartbeat::Ping
        }
    }

    /// Handles a frame from the client at `now`: a pong marks the client as seen,
    /// anything else closes the connection.
    pub fn on_client_frame(&mut self, frame: ClientFrame, now: u64) -> (res: SocketAction)
        ensures
            frame == ClientFrame::Pong ==> res == SocketAction::Keep && final(self).last_seen() == now,
            frame != ClientFrame::Pong ==> res == SocketAction::Stop && final(self).last_seen()
                == old(self).last_seen(),
            final(self).spec_hb_interval() == old(self).spec_hb_interval(),
            final(self).spec_client_timeout() == old(self).spec_client_timeout(),
    {
        match frame {
            ClientFrame::Pong => {
                self.hb = now;
                SocketAction::Keep
            },
            _ => SocketAction::Stop,
        }
    }

    /// Handles an item of the event stream: an event is sent to the client as a binary
    /// frame, an error closes the connection.
    pub fn on_event<E>(&self, event: Result<Vec<u8>, E>) -> (res: SocketAction)
        ensures
            match event {
                Ok(bytes) => res == SocketAction::Send(bytes),
                Err(_) => res == SocketAction::Stop,
            },
    {
        match event {
            Ok(bytes) => SocketAction::Send(bytes),
            Err(_) => SocketAction::Stop,
        }
    }
}

/// A client that answered a ping is kept for the whole timeout after its pong: every
/// heartbeat tick from the pong up to `client_timeout` milliseconds later pings it.
pub proof fn law_pong_keeps_client(socket: EventStreamSocket, now: u64)
    requires
        socket.last_seen() <= now,
        now - socket.last_seen() <= socket.spec_client_timeout(),
    ensures
        !(elapsed(socket.last_seen(), now) > socket.spec_client_timeout()),
{
}

/// A client that stays silent is dropped: a tick more than `client_timeout` after the
/// last pong stops the connection.
pub proof fn law_silent_client_dropped(socket: EventStreamSocket, now: u64)
    requires
        now > socket.last_seen(),
        now - socket.last_seen() > socket.spec_client_timeout(),
    ensures
        elapsed(socket.last_seen(), now) > socket.spec_client_timeout(),
{
}

} // verus!
