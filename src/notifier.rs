use vstd::prelude::*;

use crate::games::PlayEvent;
use crate::hub::{EventHub, HubView, hub_wf, publish_spec};

verus! {

/// What the store's notification channel delivered.
#[derive(Debug, Clone, Copy, PartialEq, Eq, Structural)]
pub enum Notification {
    /// A committed play event, decoded from the notification's payload.
    Payload(PlayEvent),
    /// A payload that could not be decoded.
    Malformed,
    /// The channel closed or failed for good.
    Closed,
    /// The process asked the listener to stop.
    Shutdown,
}

/// What the listener did with a notification.
#[derive(Debug, Clone, Copy, PartialEq, Eq, Structural)]
pub enum NotifierAction {
    /// The event went to the hub, which had this many subscribers.
    Forwarded(usize),
    /// The payload was dropped; the listener goes on.
    Skipped,
    /// The channel is gone: the listener stopped, and no live event reaches
    /// this process until it is restarted.
    Failed,
    /// The listener stopped on request.
    Stopped,
    /// The listener had already stopped; nothing was done.
    Ignored,
}

/// What one notification does to a listener that is `running` and to the hub:
/// whether the listener still runs, the hub after it, and the action taken.
pub open spec fn notification_spec(running: bool, h: HubView, n: Notification) -> (
    bool,
    HubView,
    NotifierAction,
) {
    if !running {
        (false, h, NotifierAction::Ignored)
    } else {
        match n {
            Notification::Payload(e) => (
                true,
                publish_spec(h, e),
                NotifierAction::Forwarded(h.cursors.len() as usize),
            ),
            Notification::Malformed => (true, h, NotifierAction::Skipped),
            Notification::Closed => (false, h, NotifierAction::Failed),
            Notification::Shutdown => (false, h, NotifierAction::Stopped),
        }
    }
}

/// A listener that is `running`, and the hub, after the notifications `ns`,
/// first to last.
pub open spec fn run_notifications(running: bool, h: HubView, ns: Seq<Notification>) -> (bool, HubView)
    decreases ns.len(),
{
    if ns.len() == 0 {
        (running, h)
    } else {
        let (r1, h1) = run_notifications(running, h, ns.drop_last());
        let (r2, h2, _) = notification_spec(r1, h1, ns.last());
        (r2, h2)
    }
}

/// The events that the notifications `ns` carry, in order.
pub open spec fn payloads(ns: Seq<Notification>) -> Seq<PlayEvent>
    decreases ns.len(),
{
    if ns.len() == 0 {
        Seq::empty()
    } else {
        match ns.last() {
            Notification::Payload(e) => payloads(ns.drop_last()).push(e),
            _ => payloads(ns.drop_last()),
        }
    }
}

/// The listener that republishes committed play events in-process.
pub struct ChangeNotifier {
    pub running: bool,
}

impl ChangeNotifier {
    pub fn new() -> (r: ChangeNotifier)
        ensures
            r.running,
    {
        ChangeNotifier { running: true }
    }

    /// Handles one notification: a decoded event is published to `hub`, a
    /// malformed payload is skipped, and a closed channel or a shutdown stops
    /// the listener, after which every notification is ignored.
    pub fn on_notification(&mut self, hub: &mut EventHub, n: Notification) -> (r: NotifierAction)
        requires
            hub_wf(old(hub)@),
        ensures
            hub_wf(final(hub)@),
            (final(self).running, final(hub)@, r) == notification_spec(old(self).running, old(hub)@, n),
    {
        if !self.running {
            return NotifierAction::Ignored;
        }
        match n {
            Notification::Payload(e) => NotifierAction::Forwarded(hub.publish(e)),
            Notification::Malformed => NotifierAction::Skipped,
            Notification::Closed => {
                self.running = false;
                NotifierAction::Failed
            },
            Notification::Shutdown => {
                self.running = false;
                NotifierAction::Stopped
            },
        }
    }
}

} // verus!
