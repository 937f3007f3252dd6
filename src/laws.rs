use vstd::prelude::*;

use crate::error::Error;
use crate::hub::{
    Cursor, HubView, find_cursor, hub_wf, is_first_cursor, keep_last, pending, publish_all, publish_spec,
    recv_spec, subscribe_spec, unsubscribe_spec,
};
use crate::notifier::{Notification, payloads, run_notifications};
use crate::games::{
    Game, GameStateUpdateResult, PlayAction, PlayEvent, Player, Present, StoreView, eligible,
    events_of, events_without, find_game, find_present, is_first_game, keep_spec, owns_present,
    pick_spec, play_spec, reset_spec, roll_spec, snapshot, steal_spec, with_turn,
};

verus! {

proof fn lemma_first_game_unique(gs: Seq<Game>, id: u128, i: int, k: int)
    requires
        is_first_game(gs, id, i),
        is_first_game(gs, id, k),
    ensures
        i == k,
{
    if i < k {
        assert(gs[i].id != id);
    } else if k < i {
        assert(gs[k].id != id);
    }
}

/// Replacing a game row by one with the same identifier keeps every lookup.
proof fn lemma_find_game_after_update(gs: Seq<Game>, i: int, g: Game, id: u128)
    requires
        find_game(gs, id) == Some(i),
        g.id == gs[i].id,
    ensures
        find_game(gs.update(i, g), id) == Some(i),
{
    let k0 = choose|k: int| is_first_game(gs, id, k);
    assert(is_first_game(gs, id, k0));
    let gs2 = gs.update(i, g);
    assert(is_first_game(gs2, id, i));
    let k = choose|k: int| is_first_game(gs2, id, k);
    lemma_first_game_unique(gs2, id, i, k);
}

proof fn lemma_eligible_owns_nothing(players: Seq<Player>, ps: Seq<Present>, game_id: u128, x: int)
    requires
        0 <= x < eligible(players, ps, game_id).len(),
    ensures
        !owns_present(ps, game_id, eligible(players, ps, game_id)[x]),
        exists|k: int|
            0 <= k < players.len() && players[k].id == eligible(players, ps, game_id)[x]
                && players[k].game_id == game_id,
    decreases players.len(),
{
    let rest = eligible(players.drop_last(), ps, game_id);
    if x < rest.len() {
        lemma_eligible_owns_nothing(players.drop_last(), ps, game_id, x);
        let k = choose|k: int|
            0 <= k < players.drop_last().len() && players.drop_last()[k].id == rest[x]
                && players.drop_last()[k].game_id == game_id;
        assert(players[k] == players.drop_last()[k]);
    } else {
        assert(players[players.len() - 1] == players.last());
    }
}

proof fn lemma_events_without_leaves_none(es: Seq<PlayEvent>, game_id: u128)
    ensures
        events_of(events_without(es, game_id), game_id) == Seq::<PlayEvent>::empty(),
    decreases es.len(),
{
    if es.len() > 0 {
        lemma_events_without_leaves_none(es.drop_last(), game_id);
        let rest = events_without(es.drop_last(), game_id);
        if es.last().game_id != game_id {
            assert(rest.push(es.last()).drop_last() =~= rest);
        }
    }
}

/// Once a `roll` on a game has succeeded, a second `roll` on it, with any draw
/// at any time, fails with `Conflict` and changes nothing: of two rolls racing
/// for the same turn exactly one wins.
pub proof fn law_roll_is_exclusive(s: StoreView, game_id: u128, c1: u64, t1: i64, c2: u64, t2: i64)
    requires
        roll_spec(s, game_id, c1, t1).1.is_ok(),
    ensures
        ({
            let s1 = roll_spec(s, game_id, c1, t1).0;
            roll_spec(s1, game_id, c2, t2) == (s1, Err::<GameStateUpdateResult, Error>(Error::Conflict))
        }),
{
    let i = find_game(s.games, game_id).unwrap();
    let g = s.games[i];
    let el = eligible(s.players, s.presents, game_id);
    let p = el[(c1 as int) % (el.len() as int)];
    lemma_find_game_after_update(s.games, i, with_turn(g, Some(p), g.present_id, t1), game_id);
}

/// On a game whose turn is free, with a player left who owns no present, `roll`
/// succeeds: it hands the turn to one of those players and appends exactly one
/// log entry, naming that player and no present. Together with
/// `law_roll_is_exclusive`, of two rolls racing for a free turn exactly one
/// succeeds and the other fails with `Conflict`.
pub proof fn law_roll_on_free_turn_succeeds(s: StoreView, game_id: u128, c: u64, t: i64)
    requires
        find_game(s.games, game_id).is_some(),
        s.games[find_game(s.games, game_id).unwrap()].player_id.is_none(),
        eligible(s.players, s.presents, game_id).len() > 0,
        s.next_event_id < i64::MAX,
    ensures
        ({
            let (s1, r) = roll_spec(s, game_id, c, t);
            let el = eligible(s.players, s.presents, game_id);
            let x = el[(c as int) % (el.len() as int)];
            &&& el.contains(x)
            &&& r == Ok::<GameStateUpdateResult, Error>(snapshot(Some(x), None, None, t))
            &&& find_game(s1.games, game_id) == find_game(s.games, game_id)
            &&& s1.games[find_game(s.games, game_id).unwrap()].player_id == Some(x)
            &&& s1.events == s.events.push(
                PlayEvent {
                    id: s.next_event_id,
                    game_id,
                    player_id: x,
                    present_id: None,
                    from_player_id: None,
                    from_present_id: None,
                    created_at: t,
                },
            )
        }),
{
    let i = find_game(s.games, game_id).unwrap();
    let g = s.games[i];
    let el = eligible(s.players, s.presents, game_id);
    let x = el[(c as int) % (el.len() as int)];
    lemma_find_game_after_update(s.games, i, with_turn(g, Some(x), g.present_id, t), game_id);
}

/// While a turn is under way and no present is contested, `pick` of a present
/// of the game succeeds: the present becomes contested, the player keeps the
/// turn, and exactly one log entry, naming the player and the present, is
/// appended. Together with `law_pick_is_exclusive`, of two picks racing for
/// the same turn exactly one succeeds.
pub proof fn law_pick_on_open_turn_succeeds(s: StoreView, game_id: u128, a: i64, t: i64)
    requires
        find_game(s.games, game_id).is_some(),
        s.games[find_game(s.games, game_id).unwrap()].player_id.is_some(),
        s.games[find_game(s.games, game_id).unwrap()].present_id.is_none(),
        find_present(s.presents, game_id, a).is_some(),
        s.next_event_id < i64::MAX,
    ensures
        ({
            let (s1, r) = pick_spec(s, game_id, a, t);
            let i = find_game(s.games, game_id).unwrap();
            let x = s.games[i].player_id.unwrap();
            &&& r == Ok::<GameStateUpdateResult, Error>(snapshot(None, Some(a), None, t))
            &&& find_game(s1.games, game_id) == Some(i)
            &&& s1.games[i].present_id == Some(a)
            &&& s1.games[i].player_id == Some(x)
            &&& s1.events == s.events.push(
                PlayEvent {
                    id: s.next_event_id,
                    game_id,
                    player_id: x,
                    present_id: Some(a),
                    from_player_id: None,
                    from_present_id: None,
                    created_at: t,
                },
            )
        }),
{
    let i = find_game(s.games, game_id).unwrap();
    let g = s.games[i];
    lemma_find_game_after_update(s.games, i, with_turn(g, g.player_id, Some(a), t), game_id);
}

/// Once a `pick` on a game has succeeded, a second `pick` on it, of any present
/// at any time, fails with `Conflict` and changes nothing.
pub proof fn law_pick_is_exclusive(s: StoreView, game_id: u128, a: i64, t1: i64, b: i64, t2: i64)
    requires
        pick_spec(s, game_id, a, t1).1.is_ok(),
    ensures
        ({
            let s1 = pick_spec(s, game_id, a, t1).0;
            pick_spec(s1, game_id, b, t2) == (s1, Err::<GameStateUpdateResult, Error>(Error::Conflict))
        }),
{
    let i = find_game(s.games, game_id).unwrap();
    let g = s.games[i];
    lemma_find_game_after_update(s.games, i, with_turn(g, g.player_id, Some(a), t1), game_id);
}

/// After a successful `keep` or `steal` the game has no active player and no
/// contested present; a further `keep`, or `steal` of a present of the game,
/// fails with `Conflict` and changes nothing (a `steal` of a missing present
/// fails with `NotFound`), and the next `roll` succeeds whenever a player
/// without a present is left.
pub proof fn law_resolution_clears_turn(
    s: StoreView,
    game_id: u128,
    action: PlayAction,
    t: i64,
    target: i64,
    c: u64,
    t2: i64,
)
    requires
        action == PlayAction::Keep || action is Steal,
        play_spec(s, game_id, action, 0, t).1.is_ok(),
    ensures
        ({
            let s1 = play_spec(s, game_id, action, 0, t).0;
            &&& find_game(s1.games, game_id).is_some()
            &&& s1.games[find_game(s1.games, game_id).unwrap()].player_id.is_none()
            &&& s1.games[find_game(s1.games, game_id).unwrap()].present_id.is_none()
            &&& keep_spec(s1, game_id, t2) == (s1, Err::<GameStateUpdateResult, Error>(Error::Conflict))
            &&& steal_spec(s1, game_id, target, t2) == (s1, Err::<GameStateUpdateResult, Error>(
                if find_present(s1.presents, game_id, target).is_some() {
                    Error::Conflict
                } else {
                    Error::NotFound
                },
            ))
            &&& roll_spec(s1, game_id, c, t2).1 != Err::<GameStateUpdateResult, Error>(Error::Conflict)
            &&& eligible(s1.players, s1.presents, game_id).len() > 0 && s1.next_event_id < i64::MAX
                ==> roll_spec(s1, game_id, c, t2).1.is_ok()
        }),
{
    let i = find_game(s.games, game_id).unwrap();
    let g = s.games[i];
    lemma_find_game_after_update(s.games, i, with_turn(g, None, None, t), game_id);
}

/// `steal` of present `b` while present `a` is contested: the former owner of
/// `b` now owns `a`, the active player owns `b`, and the one new log entry
/// records the active player and `b`, taken from the former owner.
pub proof fn law_steal_swaps_owners(s: StoreView, game_id: u128, b: i64, t: i64)
    requires
        steal_spec(s, game_id, b, t).1.is_ok(),
        s.games[find_game(s.games, game_id).unwrap()].present_id != Some(b),
    ensures
        ({
            let s1 = steal_spec(s, game_id, b, t).0;
            let g = s.games[find_game(s.games, game_id).unwrap()];
            let player = g.player_id.unwrap();
            let a = g.present_id.unwrap();
            let prior = s.presents[find_present(s.presents, game_id, b).unwrap()].player_id;
            let e = s1.events.last();
            &&& forall|j: int|
                0 <= j < s1.presents.len() && s1.presents[j].game_id == game_id && s1.presents[j].id
                    == a ==> s1.presents[j].player_id == prior
            &&& forall|j: int|
                0 <= j < s1.presents.len() && s1.presents[j].game_id == game_id && s1.presents[j].id
                    == b ==> s1.presents[j].player_id == Some(player)
            &&& s1.events == s.events.push(e)
            &&& e.player_id == player && e.present_id == Some(b)
            &&& e.from_player_id == prior && e.from_present_id == Some(b)
        }),
{
}

/// `reset` of an existing game always succeeds and leaves no log entry for it,
/// no present of it owned, and no active player, contested present or start
/// time, whatever came before.
pub proof fn law_reset_clears_game(s: StoreView, game_id: u128, t: i64)
    requires
        find_game(s.games, game_id).is_some(),
    ensures
        ({
            let (s1, r) = reset_spec(s, game_id, t);
            let i = find_game(s1.games, game_id).unwrap();
            &&& r.is_ok()
            &&& find_game(s1.games, game_id).is_some()
            &&& events_of(s1.events, game_id) == Seq::<PlayEvent>::empty()
            &&& forall|j: int|
                0 <= j < s1.presents.len() && s1.presents[j].game_id == game_id
                    ==> s1.presents[j].player_id.is_none()
            &&& s1.games[i].player_id.is_none()
            &&& s1.games[i].present_id.is_none()
            &&& s1.games[i].started_at.is_none()
        }),
{
    let i = find_game(s.games, game_id).unwrap();
    let g = s.games[i];
    let g2 = Game {
        id: g.id,
        player_id: None,
        present_id: None,
        started_at: None,
        created_at: g.created_at,
        updated_at: Some(t),
    };
    lemma_find_game_after_update(s.games, i, g2, game_id);
    lemma_events_without_leaves_none(s.events, game_id);
}

/// The player that a successful `roll` hands the turn to is a player of that
/// game who owns no present of it.
pub proof fn law_roll_chooses_player_without_present(s: StoreView, game_id: u128, c: u64, t: i64)
    requires
        roll_spec(s, game_id, c, t).1.is_ok(),
    ensures
        ({
            let p = roll_spec(s, game_id, c, t).1.unwrap().player_id.unwrap();
            &&& roll_spec(s, game_id, c, t).1.unwrap().player_id.is_some()
            &&& exists|k: int|
                0 <= k < s.players.len() && s.players[k].id == p && s.players[k].game_id == game_id
            &&& !owns_present(s.presents, game_id, p)
        }),
{
    let el = eligible(s.players, s.presents, game_id);
    let x = (c as int) % (el.len() as int);
    lemma_eligible_owns_nothing(s.players, s.presents, game_id, x);
}

proof fn lemma_first_cursor_unique(cs: Seq<Cursor>, id: u64, i: int, k: int)
    requires
        is_first_cursor(cs, id, i),
        is_first_cursor(cs, id, k),
    ensures
        i == k,
{
    if i < k {
        assert(cs[i].id != id);
    } else if k < i {
        assert(cs[k].id != id);
    }
}

/// Two cursor lists with the same identifiers, position by position, locate
/// every subscriber at the same position.
proof fn lemma_find_cursor_same_ids(a: Seq<Cursor>, b: Seq<Cursor>, id: u64)
    requires
        a.len() == b.len(),
        forall|k: int| 0 <= k < a.len() ==> a[k].id == b[k].id,
    ensures
        find_cursor(a, id) == find_cursor(b, id),
{
    if exists|k: int| is_first_cursor(a, id, k) {
        let ka = choose|k: int| is_first_cursor(a, id, k);
        assert(is_first_cursor(b, id, ka));
        let kb = choose|k: int| is_first_cursor(b, id, k);
        lemma_first_cursor_unique(b, id, ka, kb);
    } else if exists|k: int| is_first_cursor(b, id, k) {
        let kb = choose|k: int| is_first_cursor(b, id, k);
        assert(is_first_cursor(a, id, kb));
    }
}

proof fn lemma_publish_wf(h: HubView, e: PlayEvent)
    requires
        hub_wf(h),
    ensures
        hub_wf(publish_spec(h, e)),
{
}

/// Publishing appends the event to what every subscriber has pending, keeping
/// the newest `capacity` events.
proof fn lemma_publish_pending(h: HubView, id: u64, e: PlayEvent)
    requires
        hub_wf(h),
        pending(h, id).is_some(),
    ensures
        pending(publish_spec(h, e), id) == Some(keep_last(pending(h, id).unwrap().push(e), h.capacity)),
{
    let h1 = publish_spec(h, e);
    lemma_find_cursor_same_ids(h.cursors, h1.cursors, id);
    let i = find_cursor(h.cursors, id).unwrap();
    let k0 = choose|k: int| is_first_cursor(h.cursors, id, k);
    assert(is_first_cursor(h.cursors, id, k0));
    let len = h.log.len() as int;
    let p = h.cursors[i].pending as int;
    let q = h.log.subrange(len - p, len);
    let cap = h.capacity as int;
    assert(h1.cursors[i].pending == if p + 1 > cap { cap } else { p + 1 });
    if len < cap {
        assert(h1.log.subrange(h1.log.len() - h1.cursors[i].pending, h1.log.len() as int) =~= q.push(e));
    } else if p < cap {
        assert(h1.log.subrange(h1.log.len() - h1.cursors[i].pending, h1.log.len() as int) =~= q.push(e));
    } else {
        assert(h1.log.subrange(h1.log.len() - h1.cursors[i].pending, h1.log.len() as int) =~= q.push(
            e,
        ).subrange(1, cap + 1));
    }
}

/// A successful `roll`, `pick`, `keep` or `steal` appends exactly one entry to
/// the play log, and publishing that entry hands it to every subscriber that
/// was already listening, after the events it had pending (of which the hub
/// keeps the newest `capacity`).
pub proof fn law_action_reaches_subscriber(
    s: StoreView,
    game_id: u128,
    action: PlayAction,
    choice: u64,
    t: i64,
    h: HubView,
    sub: u64,
)
    requires
        action != PlayAction::Start && action != PlayAction::Reset,
        play_spec(s, game_id, action, choice, t).1.is_ok(),
        hub_wf(h),
        pending(h, sub).is_some(),
    ensures
        ({
            let s1 = play_spec(s, game_id, action, choice, t).0;
            let e = s1.events.last();
            &&& s1.events == s.events.push(e)
            &&& e.game_id == game_id
            &&& e.created_at == t
            &&& pending(publish_spec(h, e), sub) == Some(
                keep_last(pending(h, sub).unwrap().push(e), h.capacity),
            )
        }),
{
    let s1 = play_spec(s, game_id, action, choice, t).0;
    lemma_publish_pending(h, sub, s1.events.last());
}

proof fn lemma_keep_last_push(x: Seq<PlayEvent>, e: PlayEvent, c: nat)
    requires
        c >= 1,
    ensures
        keep_last(keep_last(x, c).push(e), c) == keep_last(x.push(e), c),
{
    if x.len() > c {
        assert(keep_last(x, c).push(e).subrange(1, c as int + 1) =~= x.push(e).subrange(
            x.len() as int + 1 - c as int,
            x.len() as int + 1,
        ));
    }
}

/// Events published one after the other reach every subscriber that was
/// listening, in publication order, after what it had pending; of all these
/// the hub keeps the newest `capacity`, so a subscriber with room receives
/// every one of them.
pub proof fn law_published_events_arrive_in_order(h: HubView, sub: u64, es: Seq<PlayEvent>)
    requires
        hub_wf(h),
        pending(h, sub).is_some(),
    ensures
        hub_wf(publish_all(h, es)),
        publish_all(h, es).capacity == h.capacity,
        pending(publish_all(h, es), sub) == Some(keep_last(pending(h, sub).unwrap() + es, h.capacity)),
        pending(h, sub).unwrap().len() + es.len() <= h.capacity ==> pending(publish_all(h, es), sub)
            == Some(pending(h, sub).unwrap() + es),
    decreases es.len(),
{
    let q = pending(h, sub).unwrap();
    let i = find_cursor(h.cursors, sub).unwrap();
    let k0 = choose|k: int| is_first_cursor(h.cursors, sub, k);
    assert(is_first_cursor(h.cursors, sub, k0));
    assert(q.len() <= h.capacity);
    if es.len() == 0 {
        assert(q + es =~= q);
    } else {
        let rest = es.drop_last();
        let e = es.last();
        law_published_events_arrive_in_order(h, sub, rest);
        let h1 = publish_all(h, rest);
        lemma_publish_wf(h1, e);
        lemma_publish_pending(h1, sub, e);
        lemma_keep_last_push(q + rest, e, h.capacity);
        assert((q + rest).push(e) =~= q + es);
    }
}

/// The oldest pending event is the one a subscriber receives next, and it is
/// then no longer pending; with nothing pending, nothing is received and the
/// hub is unchanged.
pub proof fn law_recv_takes_oldest(h: HubView, sub: u64)
    requires
        hub_wf(h),
        pending(h, sub).is_some(),
    ensures
        ({
            let q = pending(h, sub).unwrap();
            let (h1, r) = recv_spec(h, sub);
            &&& hub_wf(h1)
            &&& q.len() == 0 ==> r.is_none() && h1 == h
            &&& q.len() > 0 ==> r == Some(q[0]) && pending(h1, sub) == Some(q.drop_first())
        }),
{
    let q = pending(h, sub).unwrap();
    let i = find_cursor(h.cursors, sub).unwrap();
    let k0 = choose|k: int| is_first_cursor(h.cursors, sub, k);
    assert(is_first_cursor(h.cursors, sub, k0));
    let (h1, r) = recv_spec(h, sub);
    if q.len() > 0 {
        lemma_find_cursor_same_ids(h.cursors, h1.cursors, sub);
        let len = h.log.len() as int;
        let p = h.cursors[i].pending as int;
        assert(h1.log.subrange(len - (p - 1), len) =~= q.drop_first());
        assert forall|a: int, b: int| 0 <= a < b < h1.cursors.len() implies h1.cursors[a].id
            != h1.cursors[b].id by {
            assert(h.cursors[a].id != h.cursors[b].id);
        }
    }
}

/// A subscriber that has unsubscribed is no longer known to the hub: later
/// events are not kept for it and it receives nothing.
pub proof fn law_unsubscribed_receives_nothing(h: HubView, sub: u64, e: PlayEvent)
    requires
        hub_wf(h),
    ensures
        ({
            let h1 = unsubscribe_spec(h, sub).0;
            let h2 = publish_spec(h1, e);
            &&& pending(h, sub).is_some() ==> h1.cursors.len() + 1 == h.cursors.len()
            &&& pending(h1, sub).is_none()
            &&& pending(h2, sub).is_none()
            &&& recv_spec(h2, sub) == (h2, None::<PlayEvent>)
        }),
{
    let h1 = unsubscribe_spec(h, sub).0;
    let h2 = publish_spec(h1, e);
    match find_cursor(h.cursors, sub) {
        Some(i) => {
            let k0 = choose|k: int| is_first_cursor(h.cursors, sub, k);
            assert(is_first_cursor(h.cursors, sub, k0));
            assert forall|k: int| 0 <= k < h1.cursors.len() implies h1.cursors[k].id != sub by {
                let k1 = if k < i { k } else { k + 1 };
                assert(h1.cursors[k] == h.cursors[k1]);
                if k1 < i {
                    assert(h.cursors[k1].id != h.cursors[i].id);
                } else {
                    assert(h.cursors[i].id != h.cursors[k1].id);
                }
            }
        },
        None => {
            assert forall|k: int| 0 <= k < h1.cursors.len() implies h1.cursors[k].id != sub by {
                if h.cursors[k].id == sub {
                    assert(is_first_cursor(h.cursors, sub, k));
                }
            }
        },
    }
    lemma_find_cursor_same_ids(h1.cursors, h2.cursors, sub);
}

/// A new subscriber starts with nothing pending and then receives exactly the
/// events published after it subscribed (the newest `capacity` of them), never
/// one published before.
pub proof fn law_new_subscriber_sees_only_later_events(h: HubView, es: Seq<PlayEvent>)
    requires
        hub_wf(h),
        subscribe_spec(h).1.is_some(),
    ensures
        ({
            let (h1, id) = subscribe_spec(h);
            &&& hub_wf(h1)
            &&& pending(h1, id.unwrap()) == Some(Seq::<PlayEvent>::empty())
            &&& pending(publish_all(h1, es), id.unwrap()) == Some(keep_last(es, h.capacity))
        }),
{
    let (h1, id) = subscribe_spec(h);
    let n = h.cursors.len() as int;
    assert(h1.cursors[n].id == id.unwrap());
    assert forall|i: int, j: int| 0 <= i < j < h1.cursors.len() implies h1.cursors[i].id
        != h1.cursors[j].id by {
        if j == n {
            assert(h.cursors[i].id < h.next_id);
        } else {
            assert(h1.cursors[i] == h.cursors[i]);
            assert(h1.cursors[j] == h.cursors[j]);
        }
    }
    assert forall|i: int| 0 <= i < h1.cursors.len() implies h1.cursors[i].pending <= h1.log.len()
        && h1.cursors[i].id < h1.next_id by {
        if i < n {
            assert(h1.cursors[i] == h.cursors[i]);
        }
    }
    assert forall|j: int| 0 <= j < n implies h1.cursors[j].id != id.unwrap() by {
        assert(h1.cursors[j] == h.cursors[j]);
        assert(h.cursors[j].id < h.next_id);
    }
    assert(is_first_cursor(h1.cursors, id.unwrap(), n));
    let k = choose|k: int| is_first_cursor(h1.cursors, id.unwrap(), k);
    lemma_first_cursor_unique(h1.cursors, id.unwrap(), n, k);
    assert(h1.log.subrange(h1.log.len() as int, h1.log.len() as int) =~= Seq::<PlayEvent>::empty());
    law_published_events_arrive_in_order(h1, id.unwrap(), es);
    assert(Seq::<PlayEvent>::empty() + es =~= es);
}

/// A running listener that meets no closed channel and no shutdown keeps
/// running, and publishes exactly the decoded events, each once, in the order
/// their notifications arrived; malformed payloads are skipped.
pub proof fn law_listener_publishes_payloads_in_order(h: HubView, ns: Seq<Notification>)
    requires
        forall|i: int|
            0 <= i < ns.len() ==> !(ns[i] is Closed) && !(ns[i] is Shutdown),
    ensures
        run_notifications(true, h, ns) == (true, publish_all(h, payloads(ns))),
    decreases ns.len(),
{
    if ns.len() > 0 {
        let rest = ns.drop_last();
        assert forall|i: int| 0 <= i < rest.len() implies !(rest[i] is Closed) && !(rest[i] is Shutdown) by {
            assert(rest[i] == ns[i]);
        }
        law_listener_publishes_payloads_in_order(h, rest);
        assert(!(ns[ns.len() - 1] is Closed) && !(ns[ns.len() - 1] is Shutdown));
        match ns.last() {
            Notification::Payload(e) => {
                assert(payloads(ns).drop_last() =~= payloads(rest));
            },
            _ => {},
        }
    }
}

} // verus!
