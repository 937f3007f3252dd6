use vstd::prelude::*;

use crate::games::PlayEvent;
use crate::hub::{EventHub, hub_wf, recv_spec, subscribe_spec, unsubscribe_spec};

verus! {

/// Seconds between two keep-alive frames on an idle connection.
pub const KEEP_ALIVE_SECS: u64 = 1;

/// What woke a connection's task.
#[derive(Debug, Clone, Copy, PartialEq, Eq, Structural)]
pub enum StreamInput {
    /// The hub may hold an event for this connection.
    Wake,
    /// The keep-alive timer fired.
    Tick,
    /// The client went away.
    Disconnect,
}

/// A push message for the client.
#[derive(Debug, Clone, Copy, PartialEq, Eq, Structural)]
pub enum Frame {
    Data(PlayEvent),
    KeepAlive,
}

/// One client connection's subscription to the hub.
pub struct LiveStream {
    pub subscription: u64,
    pub open: bool,
}

impl LiveStream {
    /// Subscribes a new connection; it receives only events published from now on.
    pub fn open(hub: &mut EventHub) -> (r: Option<LiveStream>)
        requires
            hub_wf(old(hub)@),
        ensures
            hub_wf(final(hub)@),
            final(hub)@ == subscribe_spec(old(hub)@).0,
            match r {
                Some(s) => s.open && subscribe_spec(old(hub)@).1 == Some(s.subscription),
                None => subscribe_spec(old(hub)@).1.is_none(),
            },
    {
        match hub.subscribe() {
            Some(id) => Some(LiveStream { subscription: id, open: true }),
            None => None,
        }
    }

    /// The frame to send for `input`, if any: the next unread event on a wake,
    /// a keep-alive on a tick. A disconnect releases the subscription at once;
    /// a closed connection does nothing more.
    pub fn step(&mut self, hub: &mut EventHub, input: StreamInput) -> (r: Option<Frame>)
        requires
            hub_wf(old(hub)@),
        ensures
            hub_wf(final(hub)@),
            final(self).subscription == old(self).subscription,
            !old(self).open ==> r.is_none() && final(hub)@ == old(hub)@ && !final(self).open,
            old(self).open ==> match input {
                StreamInput::Wake => {
                    let (v, e) = recv_spec(old(hub)@, old(self).subscription);
                    &&& final(hub)@ == v
                    &&& final(self).open
                    &&& match e {
                        Some(ev) => r == Some(Frame::Data(ev)),
                        None => r.is_none(),
                    }
                },
                StreamInput::Tick => {
                    &&& final(hub)@ == old(hub)@
                    &&& final(self).open
                    &&& r == Some(Frame::KeepAlive)
                },
                StreamInput::Disconnect => {
                    &&& final(hub)@ == unsubscribe_spec(old(hub)@, old(self).subscription).0
                    &&& !final(self).open
                    &&& r.is_none()
                },
            },
    {
        if !self.open {
            return None;
        }
        match input {
            StreamInput::Wake => match hub.recv(self.subscription) {
                Some(e) => Some(Frame::Data(e)),
                None => None,
            },
            StreamInput::Tick => Some(Frame::KeepAlive),
            StreamInput::Disconnect => {
                hub.unsubscribe(self.subscription);
                self.open = false;
                None
            },
        }
    }
}

} // verus!
