use vstd::prelude::*;

use crate::games::PlayEvent;

verus! {

/// A subscriber's position: how many of the newest retained events it has
/// not read yet.
#[derive(Debug, Clone, Copy, PartialEq, Eq, Structural)]
pub struct Cursor {
    pub id: u64,
    pub pending: usize,
}

/// In-process fan-out of play events to many subscribers. Each subscriber reads
/// at its own pace; the hub keeps the newest `capacity` events, so a subscriber
/// that falls further behind silently loses its oldest unread events, and
/// nobody else is affected.
pub struct EventHub {
    capacity: usize,
    log: Vec<PlayEvent>,
    cursors: Vec<Cursor>,
    next_id: u64,
}

/// The contents of an [`EventHub`].
pub struct HubView {
    pub capacity: nat,
    pub log: Seq<PlayEvent>,
    pub cursors: Seq<Cursor>,
    pub next_id: u64,
}

impl View for EventHub {
    type V = HubView;

    closed spec fn view(&self) -> HubView {
        HubView {
            capacity: self.capacity as nat,
            log: self.log@,
            cursors: self.cursors@,
            next_id: self.next_id,
        }
    }
}

/// The hub's invariant: a positive capacity that bounds the retained events,
/// no subscriber with more unread events than are retained, and distinct
/// subscriber identifiers below the next one to hand out.
pub open spec fn hub_wf(v: HubView) -> bool {
    &&& 1 <= v.capacity <= usize::MAX
    &&& v.log.len() <= v.capacity
    &&& forall|i: int| 0 <= i < v.cursors.len() ==> v.cursors[i].pending <= v.log.len()
    &&& forall|i: int| 0 <= i < v.cursors.len() ==> v.cursors[i].id < v.next_id
    &&& forall|i: int, j: int|
        0 <= i < j < v.cursors.len() ==> v.cursors[i].id != v.cursors[j].id
}

/// `i` is the first cursor of subscriber `id`.
pub open spec fn is_first_cursor(cs: Seq<Cursor>, id: u64, i: int) -> bool {
    &&& 0 <= i < cs.len()
    &&& cs[i].id == id
    &&& forall|j: int| 0 <= j < i ==> cs[j].id != id
}

pub open spec fn find_cursor(cs: Seq<Cursor>, id: u64) -> Option<int> {
    if exists|i: int| is_first_cursor(cs, id, i) {
        Some(choose|i: int| is_first_cursor(cs, id, i))
    } else {
        None
    }
}

/// The events that subscriber `id` has yet to read, oldest first; `None` when
/// it is not subscribed.
pub open spec fn pending(v: HubView, id: u64) -> Option<Seq<PlayEvent>> {
    match find_cursor(v.cursors, id) {
        Some(i) => Some(v.log.subrange(v.log.len() - v.cursors[i].pending, v.log.len() as int)),
        None => None,
    }
}

/// The last `n` elements of `s`, or all of them when there are fewer.
pub open spec fn keep_last(s: Seq<PlayEvent>, n: nat) -> Seq<PlayEvent> {
    if s.len() > n {
        s.subrange(s.len() - n, s.len() as int)
    } else {
        s
    }
}

pub open spec fn subscribe_spec(v: HubView) -> (HubView, Option<u64>) {
    if v.next_id == u64::MAX {
        (v, None)
    } else {
        (
            HubView {
                cursors: v.cursors.push(Cursor { id: v.next_id, pending: 0 }),
                next_id: (v.next_id + 1) as u64,
                ..v
            },
            Some(v.next_id),
        )
    }
}

pub open spec fn unsubscribe_spec(v: HubView, id: u64) -> (HubView, bool) {
    match find_cursor(v.cursors, id) {
        Some(i) => (HubView { cursors: v.cursors.remove(i), ..v }, true),
        None => (v, false),
    }
}

pub open spec fn publish_spec(v: HubView, e: PlayEvent) -> HubView {
    HubView {
        log: if v.log.len() >= v.capacity {
            v.log.drop_first().push(e)
        } else {
            v.log.push(e)
        },
        cursors: Seq::new(
            v.cursors.len(),
            |i: int|
                Cursor {
                    id: v.cursors[i].id,
                    pending: if v.cursors[i].pending + 1 > v.capacity {
                        v.capacity as usize
                    } else {
                        (v.cursors[i].pending + 1) as usize
                    },
                },
        ),
        ..v
    }
}

/// The hub after publishing `es`, first to last.
pub open spec fn publish_all(v: HubView, es: Seq<PlayEvent>) -> HubView
    decreases es.len(),
{
    if es.len() == 0 {
        v
    } else {
        publish_spec(publish_all(v, es.drop_last()), es.last())
    }
}

pub open spec fn recv_spec(v: HubView, id: u64) -> (HubView, Option<PlayEvent>) {
    match find_cursor(v.cursors, id) {
        Some(i) => {
            let c = v.cursors[i];
            if c.pending == 0 {
                (v, None)
            } else {
                (
                    HubView {
                        cursors: v.cursors.update(i, Cursor { id: c.id, pending: (c.pending - 1) as usize }),
                        ..v
                    },
                    Some(v.log[v.log.len() - c.pending]),
                )
            }
        },
        None => (v, None),
    }
}

fn cursor_index(cursors: &Vec<Cursor>, id: u64) -> (r: Option<usize>)
    ensures
        match r {
            Some(i) => find_cursor(cursors@, id) == Some(i as int),
            None => find_cursor(cursors@, id).is_none(),
        },
{
    let mut i: usize = 0;
    while i < cursors.len()
        invariant
            i <= cursors.len(),
            forall|j: int| 0 <= j < i ==> cursors@[j].id != id,
        decreases cursors.len() - i,
    {
        if cursors[i].id == id {
            assert(is_first_cursor(cursors@, id, i as int));
            let ghost k = choose|k: int| is_first_cursor(cursors@, id, k);
            assert(k == i);
            return Some(i);
        }
        i = i + 1;
    }
    None
}

impl EventHub {
    /// A hub with no subscribers that keeps at most `capacity` unread events
    /// for each of them.
    pub fn new(capacity: usize) -> (r: EventHub)
        requires
            capacity >= 1,
        ensures
            hub_wf(r@),
            r@.capacity == capacity,
            r@.log.len() == 0,
            r@.cursors.len() == 0,
    {
        EventHub { capacity, log: Vec::new(), cursors: Vec::new(), next_id: 0 }
    }

    /// A new subscription, which sees the events published from now on.
    /// `None` only once every identifier has been handed out.
    pub fn subscribe(&mut self) -> (r: Option<u64>)
        requires
            hub_wf(old(self)@),
        ensures
            hub_wf(final(self)@),
            (final(self)@, r) == subscribe_spec(old(self)@),
    {
        if self.next_id == u64::MAX {
            return None;
        }
        let id = self.next_id;
        let ghost v0 = self@;
        self.cursors.push(Cursor { id, pending: 0 });
        self.next_id = self.next_id + 1;
        assert(self@.cursors == v0.cursors.push(Cursor { id, pending: 0 }));
        assert forall|i: int, j: int| 0 <= i < j < self@.cursors.len() implies self@.cursors[i].id
            != self@.cursors[j].id by {
            if j == v0.cursors.len() {
                assert(v0.cursors[i].id < v0.next_id);
            }
        }
        Some(id)
    }

    /// Ends subscription `id`; returns whether there was one.
    pub fn unsubscribe(&mut self, id: u64) -> (r: bool)
        requires
            hub_wf(old(self)@),
        ensures
            hub_wf(final(self)@),
            (final(self)@, r) == unsubscribe_spec(old(self)@, id),
    {
        match cursor_index(&self.cursors, id) {
            Some(i) => {
                let ghost cs = self@.cursors;
                assert(hub_wf(self@));
                self.cursors.remove(i);
                assert forall|a: int, b: int| 0 <= a < b < self@.cursors.len() implies self@.cursors[a].id
                    != self@.cursors[b].id by {
                    let a0 = if a < i { a } else { a + 1 };
                    let b0 = if b < i { b } else { b + 1 };
                    assert(self@.cursors[a] == cs[a0]);
                    assert(self@.cursors[b] == cs[b0]);
                    assert(cs[a0].id != cs[b0].id);
                }
                assert forall|a: int| 0 <= a < self@.cursors.len() implies self@.cursors[a].pending
                    <= self@.log.len() && self@.cursors[a].id < self@.next_id by {
                    let a0 = if a < i { a } else { a + 1 };
                    assert(self@.cursors[a] == cs[a0]);
                    assert(cs[a0].pending <= self@.log.len());
                    assert(cs[a0].id < self@.next_id);
                }
                true
            },
            None => false,
        }
    }

    /// Hands `e` to every subscriber and returns how many there are. Never
    /// waits for a subscriber; one that is `capacity` events behind loses its
    /// oldest unread event.
    pub fn publish(&mut self, e: PlayEvent) -> (r: usize)
        requires
            hub_wf(old(self)@),
        ensures
            hub_wf(final(self)@),
            final(self)@ == publish_spec(old(self)@, e),
            r == old(self)@.cursors.len(),
    {
        let ghost v0 = self@;
        if self.log.len() >= self.capacity {
            self.log.remove(0);
        }
        self.log.push(e);
        assert(self.log@ =~= publish_spec(v0, e).log);
        let mut i: usize = 0;
        while i < self.cursors.len()
            invariant
                i <= self.cursors.len(),
                self.cursors@.len() == v0.cursors.len(),
                self.capacity == v0.capacity,
                self.log@ == publish_spec(v0, e).log,
                self.next_id == v0.next_id,
                forall|j: int| 0 <= j < i ==> self.cursors@[j] == publish_spec(v0, e).cursors[j],
                forall|j: int| i <= j < self.cursors@.len() ==> self.cursors@[j] == v0.cursors[j],
            decreases self.cursors.len() - i,
        {
            let c = self.cursors[i];
            let p = if c.pending >= self.capacity { self.capacity } else { c.pending + 1 };
            self.cursors.set(i, Cursor { id: c.id, pending: p });
            i = i + 1;
        }
        assert(self.cursors@ =~= publish_spec(v0, e).cursors);
        self.cursors.len()
    }

    /// The oldest event that subscriber `id` has not read yet, if any.
    pub fn recv(&mut self, id: u64) -> (r: Option<PlayEvent>)
        requires
            hub_wf(old(self)@),
        ensures
            hub_wf(final(self)@),
            (final(self)@, r) == recv_spec(old(self)@, id),
    {
        match cursor_index(&self.cursors, id) {
            Some(i) => {
                let c = self.cursors[i];
                if c.pending == 0 {
                    None
                } else {
                    assert(self@.cursors[i as int].pending <= self@.log.len());
                    let ghost v0 = self@;
                    let e = self.log[self.log.len() - c.pending];
                    self.cursors.set(i, Cursor { id: c.id, pending: c.pending - 1 });
                    assert(forall|j: int| 0 <= j < self@.cursors.len() && j != i ==> self@.cursors[j] == v0.cursors[j]);
                    Some(e)
                }
            },
            None => None,
        }
    }

    /// The number of live subscriptions.
    pub fn subscriber_count(&self) -> (r: usize)
        ensures
            r == self@.cursors.len(),
    {
        self.cursors.len()
    }
}

} // verus!
