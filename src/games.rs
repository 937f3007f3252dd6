use vstd::prelude::*;

use crate::error::Error;

verus! {

/// A game row: whose turn it is, which present is contested, and when play began.
#[derive(Debug, Clone, Copy, PartialEq, Eq, Structural)]
pub struct Game {
    pub id: u128,
    /// The player taking a turn, if a turn is under way.
    pub player_id: Option<i64>,
    /// The present revealed and awaiting a keep or steal decision.
    pub present_id: Option<i64>,
    pub started_at: Option<i64>,
    pub created_at: i64,
    pub updated_at: Option<i64>,
}

/// A player row; the player belongs to one game.
#[derive(Debug, Clone, Copy, PartialEq, Eq, Structural)]
pub struct Player {
    pub id: i64,
    pub game_id: u128,
}

/// A present row; `player_id` is its current owner, if it has been claimed.
#[derive(Debug, Clone, Copy, PartialEq, Eq, Structural)]
pub struct Present {
    pub id: i64,
    pub game_id: u128,
    pub player_id: Option<i64>,
}

/// One entry of the append-only play log.
#[derive(Debug, Clone, Copy, PartialEq, Eq, Structural)]
pub struct PlayEvent {
    pub id: i64,
    pub game_id: u128,
    pub player_id: i64,
    pub present_id: Option<i64>,
    pub from_player_id: Option<i64>,
    pub from_present_id: Option<i64>,
    pub created_at: i64,
}

/// The fields of a game that an action changed, with the time of the change.
#[derive(Debug, Clone, Copy, PartialEq, Eq, Structural)]
pub struct GameStateUpdateResult {
    pub player_id: Option<i64>,
    pub present_id: Option<i64>,
    pub started_at: Option<i64>,
    pub updated_at: i64,
}

/// The rows that the turn engine reads and writes: games, players, presents
/// and the play log, with the identifier that the next log entry receives.
pub struct Store {
    pub games: Vec<Game>,
    pub players: Vec<Player>,
    pub presents: Vec<Present>,
    pub events: Vec<PlayEvent>,
    pub next_event_id: i64,
}

/// The contents of a [`Store`].
pub struct StoreView {
    pub games: Seq<Game>,
    pub players: Seq<Player>,
    pub presents: Seq<Present>,
    pub events: Seq<PlayEvent>,
    pub next_event_id: i64,
}

impl View for Store {
    type V = StoreView;

    open spec fn view(&self) -> StoreView {
        StoreView {
            games: self.games@,
            players: self.players@,
            presents: self.presents@,
            events: self.events@,
            next_event_id: self.next_event_id,
        }
    }
}

/// The six play actions.
#[derive(Debug, Clone, Copy, PartialEq, Eq, Structural)]
pub enum PlayAction {
    Start,
    Reset,
    Roll,
    Pick(i64),
    Keep,
    Steal(i64),
}

pub type Outcome = Result<GameStateUpdateResult, Error>;

// ---------------------------------------------------------------------------
// Lookups

/// `i` is the first row of `gs` for game `id`.
pub open spec fn is_first_game(gs: Seq<Game>, id: u128, i: int) -> bool {
    &&& 0 <= i < gs.len()
    &&& gs[i].id == id
    &&& forall|j: int| 0 <= j < i ==> gs[j].id != id
}

/// The row of game `id`, if there is one.
pub open spec fn find_game(gs: Seq<Game>, id: u128) -> Option<int> {
    if exists|i: int| is_first_game(gs, id, i) {
        Some(choose|i: int| is_first_game(gs, id, i))
    } else {
        None
    }
}

/// `i` is the first row of `ps` for present `id` of game `game_id`.
pub open spec fn is_first_present(ps: Seq<Present>, game_id: u128, id: i64, i: int) -> bool {
    &&& 0 <= i < ps.len()
    &&& ps[i].id == id && ps[i].game_id == game_id
    &&& forall|j: int| 0 <= j < i ==> !(ps[j].id == id && ps[j].game_id == game_id)
}

/// The row of present `id` in game `game_id`, if there is one.
pub open spec fn find_present(ps: Seq<Present>, game_id: u128, id: i64) -> Option<int> {
    if exists|i: int| is_first_present(ps, game_id, id, i) {
        Some(choose|i: int| is_first_present(ps, game_id, id, i))
    } else {
        None
    }
}

/// Player `player` owns some present of game `game_id`.
pub open spec fn owns_present(ps: Seq<Present>, game_id: u128, player: i64) -> bool {
    exists|j: int| 0 <= j < ps.len() && ps[j].game_id == game_id && ps[j].player_id == Some(player)
}

/// The players of game `game_id` that own no present yet, in table order.
pub open spec fn eligible(players: Seq<Player>, ps: Seq<Present>, game_id: u128) -> Seq<i64>
    decreases players.len(),
{
    if players.len() == 0 {
        Seq::empty()
    } else {
        let rest = eligible(players.drop_last(), ps, game_id);
        let p = players.last();
        if p.game_id == game_id && !owns_present(ps, game_id, p.id) {
            rest.push(p.id)
        } else {
            rest
        }
    }
}

/// The play log without the entries of game `game_id`.
pub open spec fn events_without(es: Seq<PlayEvent>, game_id: u128) -> Seq<PlayEvent>
    decreases es.len(),
{
    if es.len() == 0 {
        Seq::empty()
    } else {
        let rest = events_without(es.drop_last(), game_id);
        if es.last().game_id == game_id {
            rest
        } else {
            rest.push(es.last())
        }
    }
}

/// The play log entries of game `game_id`.
pub open spec fn events_of(es: Seq<PlayEvent>, game_id: u128) -> Seq<PlayEvent>
    decreases es.len(),
{
    if es.len() == 0 {
        Seq::empty()
    } else {
        let rest = events_of(es.drop_last(), game_id);
        if es.last().game_id == game_id {
            rest.push(es.last())
        } else {
            rest
        }
    }
}

// ---------------------------------------------------------------------------
// Row updates

pub open spec fn with_owner(p: Present, owner: Option<i64>) -> Present {
    Present { id: p.id, game_id: p.game_id, player_id: owner }
}

/// Every present of game `game_id` unclaimed.
pub open spec fn cleared_presents(ps: Seq<Present>, game_id: u128) -> Seq<Present> {
    Seq::new(
        ps.len(),
        |j: int| if ps[j].game_id == game_id { with_owner(ps[j], None) } else { ps[j] },
    )
}

/// Present `a` of game `game_id` owned by `player`.
pub open spec fn kept_presents(ps: Seq<Present>, game_id: u128, a: i64, player: i64) -> Seq<Present> {
    Seq::new(
        ps.len(),
        |j: int|
            if ps[j].game_id == game_id && ps[j].id == a {
                with_owner(ps[j], Some(player))
            } else {
                ps[j]
            },
    )
}

/// Present `b` of game `game_id` handed to `player`, then present `a` handed to
/// `prior`, the former owner of `b`.
pub open spec fn swapped_presents(
    ps: Seq<Present>,
    game_id: u128,
    a: i64,
    b: i64,
    player: i64,
    prior: Option<i64>,
) -> Seq<Present> {
    Seq::new(
        ps.len(),
        |j: int|
            if ps[j].game_id == game_id && ps[j].id == a {
                with_owner(ps[j], prior)
            } else if ps[j].game_id == game_id && ps[j].id == b {
                with_owner(ps[j], Some(player))
            } else {
                ps[j]
            },
    )
}

/// Game `g` with its turn fields set to `player` and `present`, changed at `now`.
pub open spec fn with_turn(g: Game, player: Option<i64>, present: Option<i64>, now: i64) -> Game {
    Game {
        id: g.id,
        player_id: player,
        present_id: present,
        started_at: g.started_at,
        created_at: g.created_at,
        updated_at: Some(now),
    }
}

/// A field of a game row that an action claims with a guarded write.
#[derive(Debug, Clone, Copy, PartialEq, Eq, Structural)]
pub enum GameField {
    StartedAt,
    PlayerId,
    PresentId,
}

pub open spec fn field_of(g: Game, f: GameField) -> Option<i64> {
    match f {
        GameField::StartedAt => g.started_at,
        GameField::PlayerId => g.player_id,
        GameField::PresentId => g.present_id,
    }
}

/// Game `g` with field `f` set to `v`, changed at `now`.
pub open spec fn with_field(g: Game, f: GameField, v: Option<i64>, now: i64) -> Game {
    Game {
        id: g.id,
        player_id: if f == GameField::PlayerId { v } else { g.player_id },
        present_id: if f == GameField::PresentId { v } else { g.present_id },
        started_at: if f == GameField::StartedAt { v } else { g.started_at },
        created_at: g.created_at,
        updated_at: Some(now),
    }
}

/// What the guarded write `set_if_empty` does: the store after it, and
/// whether it wrote.
pub open spec fn set_if_empty_spec(s: StoreView, game_id: u128, f: GameField, v: Option<i64>, now: i64) -> (
    StoreView,
    bool,
) {
    match find_game(s.games, game_id) {
        Some(i) => if field_of(s.games[i], f).is_none() {
            (StoreView { games: s.games.update(i, with_field(s.games[i], f, v, now)), ..s }, true)
        } else {
            (s, false)
        },
        None => (s, false),
    }
}

pub open spec fn new_event(
    s: StoreView,
    game_id: u128,
    player: i64,
    present: Option<i64>,
    from_player: Option<i64>,
    from_present: Option<i64>,
    now: i64,
) -> PlayEvent {
    PlayEvent {
        id: s.next_event_id,
        game_id,
        player_id: player,
        present_id: present,
        from_player_id: from_player,
        from_present_id: from_present,
        created_at: now,
    }
}

/// `s` with game row `i` replaced by `g`, the presents `ps`, and one more log entry `e`.
pub open spec fn committed(s: StoreView, i: int, g: Game, ps: Seq<Present>, e: PlayEvent) -> StoreView {
    StoreView {
        games: s.games.update(i, g),
        players: s.players,
        presents: ps,
        events: s.events.push(e),
        next_event_id: (s.next_event_id + 1) as i64,
    }
}

pub open spec fn snapshot(
    player: Option<i64>,
    present: Option<i64>,
    started: Option<i64>,
    now: i64,
) -> GameStateUpdateResult {
    GameStateUpdateResult { player_id: player, present_id: present, started_at: started, updated_at: now }
}

// ---------------------------------------------------------------------------
// What each action does

/// `start`: marks the game as begun, once.
pub open spec fn start_spec(s: StoreView, game_id: u128, now: i64) -> (StoreView, Outcome) {
    match find_game(s.games, game_id) {
        None => (s, Err(Error::NotFound)),
        Some(i) => {
            let g = s.games[i];
            if g.started_at.is_some() {
                (s, Err(Error::Conflict))
            } else {
                (
                    StoreView {
                        games: s.games.update(i, with_field(g, GameField::StartedAt, Some(now), now)),
                        ..s
                    },
                    Ok(snapshot(None, None, Some(now), now)),
                )
            }
        },
    }
}

/// `reset`: unclaims every present, clears the turn and the start time, and
/// deletes the game's play log.
pub open spec fn reset_spec(s: StoreView, game_id: u128, now: i64) -> (StoreView, Outcome) {
    match find_game(s.games, game_id) {
        None => (s, Err(Error::NotFound)),
        Some(i) => {
            let g = s.games[i];
            let g2 = Game {
                id: g.id,
                player_id: None,
                present_id: None,
                started_at: None,
                created_at: g.created_at,
                updated_at: Some(now),
            };
            (
                StoreView {
                    games: s.games.update(i, g2),
                    players: s.players,
                    presents: cleared_presents(s.presents, game_id),
                    events: events_without(s.events, game_id),
                    next_event_id: s.next_event_id,
                },
                Ok(snapshot(None, None, None, now)),
            )
        },
    }
}

/// `roll`: hands the turn to the eligible player at position `choice` modulo
/// their number.
pub open spec fn roll_spec(s: StoreView, game_id: u128, choice: u64, now: i64) -> (StoreView, Outcome) {
    match find_game(s.games, game_id) {
        None => (s, Err(Error::NotFound)),
        Some(i) => {
            let g = s.games[i];
            let el = eligible(s.players, s.presents, game_id);
            if g.player_id.is_some() {
                (s, Err(Error::Conflict))
            } else if el.len() == 0 {
                (s, Err(Error::NotFound))
            } else if s.next_event_id == i64::MAX {
                (s, Err(Error::Storage))
            } else {
                let p = el[(choice as int) % (el.len() as int)];
                (
                    committed(
                        s,
                        i,
                        with_turn(g, Some(p), g.present_id, now),
                        s.presents,
                        new_event(s, game_id, p, None, None, None, now),
                    ),
                    Ok(snapshot(Some(p), None, None, now)),
                )
            }
        },
    }
}

/// `pick`: reveals present `present_id` for the player whose turn it is.
pub open spec fn pick_spec(s: StoreView, game_id: u128, present_id: i64, now: i64) -> (StoreView, Outcome) {
    match find_game(s.games, game_id) {
        None => (s, Err(Error::NotFound)),
        Some(i) => {
            let g = s.games[i];
            if g.present_id.is_some() || g.player_id.is_none() {
                (s, Err(Error::Conflict))
            } else if find_present(s.presents, game_id, present_id).is_none() {
                (s, Err(Error::NotFound))
            } else if s.next_event_id == i64::MAX {
                (s, Err(Error::Storage))
            } else {
                let p = g.player_id.unwrap();
                (
                    committed(
                        s,
                        i,
                        with_turn(g, g.player_id, Some(present_id), now),
                        s.presents,
                        new_event(s, game_id, p, Some(present_id), None, None, now),
                    ),
                    Ok(snapshot(None, Some(present_id), None, now)),
                )
            }
        },
    }
}

/// `keep`: the player takes the contested present and the turn ends.
pub open spec fn keep_spec(s: StoreView, game_id: u128, now: i64) -> (StoreView, Outcome) {
    match find_game(s.games, game_id) {
        None => (s, Err(Error::NotFound)),
        Some(i) => {
            let g = s.games[i];
            if g.player_id.is_none() || g.present_id.is_none() {
                (s, Err(Error::Conflict))
            } else if s.next_event_id == i64::MAX {
                (s, Err(Error::Storage))
            } else {
                let p = g.player_id.unwrap();
                let a = g.present_id.unwrap();
                (
                    committed(
                        s,
                        i,
                        with_turn(g, None, None, now),
                        kept_presents(s.presents, game_id, a, p),
                        new_event(s, game_id, p, Some(a), Some(p), Some(a), now),
                    ),
                    Ok(snapshot(None, None, None, now)),
                )
            }
        },
    }
}

/// `steal`: the player takes present `target`; its former owner receives the
/// contested present, and the turn ends.
pub open spec fn steal_spec(s: StoreView, game_id: u128, target: i64, now: i64) -> (StoreView, Outcome) {
    match find_game(s.games, game_id) {
        None => (s, Err(Error::NotFound)),
        Some(i) => match find_present(s.presents, game_id, target) {
            None => (s, Err(Error::NotFound)),
            Some(k) => {
                let g = s.games[i];
                if g.player_id.is_none() || g.present_id.is_none() {
                    (s, Err(Error::Conflict))
                } else if s.next_event_id == i64::MAX {
                    (s, Err(Error::Storage))
                } else {
                    let p = g.player_id.unwrap();
                    let a = g.present_id.unwrap();
                    let prior = s.presents[k].player_id;
                    (
                        committed(
                            s,
                            i,
                            with_turn(g, None, None, now),
                            swapped_presents(s.presents, game_id, a, target, p, prior),
                            new_event(s, game_id, p, Some(target), prior, Some(target), now),
                        ),
                        Ok(snapshot(None, None, None, now)),
                    )
                }
            },
        },
    }
}

/// Any of the six actions; `choice` is the random draw that `roll` uses.
pub open spec fn play_spec(s: StoreView, game_id: u128, action: PlayAction, choice: u64, now: i64) -> (
    StoreView,
    Outcome,
) {
    match action {
        PlayAction::Start => start_spec(s, game_id, now),
        PlayAction::Reset => reset_spec(s, game_id, now),
        PlayAction::Roll => roll_spec(s, game_id, choice, now),
        PlayAction::Pick(p) => pick_spec(s, game_id, p, now),
        PlayAction::Keep => keep_spec(s, game_id, now),
        PlayAction::Steal(p) => steal_spec(s, game_id, p, now),
    }
}

// ---------------------------------------------------------------------------
// Reading the store

fn game_index(games: &Vec<Game>, id: u128) -> (r: Option<usize>)
    ensures
        match r {
            Some(i) => find_game(games@, id) == Some(i as int),
            None => find_game(games@, id).is_none(),
        },
{
    let mut i: usize = 0;
    while i < games.len()
        invariant
            i <= games.len(),
            forall|j: int| 0 <= j < i ==> games@[j].id != id,
        decreases games.len() - i,
    {
        if games[i].id == id {
            assert(is_first_game(games@, id, i as int));
            let ghost k = choose|k: int| is_first_game(games@, id, k);
            assert(k == i);
            return Some(i);
        }
        i = i + 1;
    }
    None
}

fn present_index(presents: &Vec<Present>, game_id: u128, id: i64) -> (r: Option<usize>)
    ensures
        match r {
            Some(i) => find_present(presents@, game_id, id) == Some(i as int),
            None => find_present(presents@, game_id, id).is_none(),
        },
{
    let mut i: usize = 0;
    while i < presents.len()
        invariant
            i <= presents.len(),
            forall|j: int| 0 <= j < i ==> !(presents@[j].id == id && presents@[j].game_id == game_id),
        decreases presents.len() - i,
    {
        if presents[i].id == id && presents[i].game_id == game_id {
            assert(is_first_present(presents@, game_id, id, i as int));
            let ghost k = choose|k: int| is_first_present(presents@, game_id, id, k);
            assert(k == i);
            return Some(i);
        }
        i = i + 1;
    }
    None
}

fn owns_any(presents: &Vec<Present>, game_id: u128, player: i64) -> (r: bool)
    ensures
        r == owns_present(presents@, game_id, player),
{
    let mut i: usize = 0;
    while i < presents.len()
        invariant
            i <= presents.len(),
            forall|j: int|
                0 <= j < i ==> !(presents@[j].game_id == game_id && presents@[j].player_id == Some(
                    player,
                )),
        decreases presents.len() - i,
    {
        if presents[i].game_id == game_id && presents[i].player_id == Some(player) {
            return true;
        }
        i = i + 1;
    }
    false
}

/// The players of a game who own no present yet: those whom `roll` may choose.
pub fn eligible_players(players: &Vec<Player>, presents: &Vec<Present>, game_id: u128) -> (r: Vec<i64>)
    ensures
        r@ == eligible(players@, presents@, game_id),
{
    let mut out: Vec<i64> = Vec::new();
    let mut i: usize = 0;
    while i < players.len()
        invariant
            i <= players.len(),
            out@ == eligible(players@.subrange(0, i as int), presents@, game_id),
        decreases players.len() - i,
    {
        let p = players[i];
        let owns = owns_any(presents, game_id, p.id);
        assert(players@.subrange(0, i + 1).drop_last() =~= players@.subrange(0, i as int));
        if p.game_id == game_id && !owns {
            out.push(p.id);
        }
        i = i + 1;
    }
    assert(players@.subrange(0, players.len() as int) =~= players@);
    out
}

// ---------------------------------------------------------------------------
// The actions

impl Store {
    /// A store with no rows; the first log entry gets identifier 1.
    pub fn new() -> (r: Store)
        ensures
            r@.games.len() == 0,
            r@.players.len() == 0,
            r@.presents.len() == 0,
            r@.events.len() == 0,
            r@.next_event_id == 1,
    {
        Store {
            games: Vec::new(),
            players: Vec::new(),
            presents: Vec::new(),
            events: Vec::new(),
            next_event_id: 1,
        }
    }

    /// The store's guarded write: sets `field` of game `game_id` to `value`,
    /// changed at `now`, only if that field is empty, and returns whether it
    /// wrote. A second such write on the same field finds it filled and fails,
    /// so of two actions racing for the field exactly one wins.
    pub fn set_if_empty(&mut self, game_id: u128, field: GameField, value: Option<i64>, now: i64) -> (r: bool)
        ensures
            (final(self)@, r) == set_if_empty_spec(old(self)@, game_id, field, value, now),
    {
        let i = match game_index(&self.games, game_id) {
            None => return false,
            Some(i) => i,
        };
        let g = self.games[i];
        let current = match field {
            GameField::StartedAt => g.started_at,
            GameField::PlayerId => g.player_id,
            GameField::PresentId => g.present_id,
        };
        if current.is_some() {
            return false;
        }
        let g2 = Game {
            id: g.id,
            player_id: match field {
                GameField::PlayerId => value,
                _ => g.player_id,
            },
            present_id: match field {
                GameField::PresentId => value,
                _ => g.present_id,
            },
            started_at: match field {
                GameField::StartedAt => value,
                _ => g.started_at,
            },
            created_at: g.created_at,
            updated_at: Some(now),
        };
        self.games.set(i, g2);
        true
    }
}

/// Begins game `game_id` at time `now`. Fails with `Conflict` when it has already
/// begun and with `NotFound` when there is no such game; a failure changes nothing.
pub fn start(store: &mut Store, game_id: u128, now: i64) -> (r: Outcome)
    ensures
        (final(store)@, r) == start_spec(old(store)@, game_id, now),
{
    let i: usize = match game_index(&store.games, game_id) {
        None => return Err(Error::NotFound),
        Some(i) => i,
    };
    if !store.set_if_empty(game_id, GameField::StartedAt, Some(now), now) {
        return Err(Error::Conflict);
    }
    Ok(GameStateUpdateResult { player_id: None, present_id: None, started_at: Some(now), updated_at: now })
}

/// Returns game `game_id` to its state before play: no present owned, no turn,
/// no start time, and no play log. Fails only with `NotFound`.
pub fn reset(store: &mut Store, game_id: u128, now: i64) -> (r: Outcome)
    ensures
        (final(store)@, r) == reset_spec(old(store)@, game_id, now),
{
    let i = match game_index(&store.games, game_id) {
        None => return Err(Error::NotFound),
        Some(i) => i,
    };
    let ghost s0 = store@;
    let ghost before = store.presents@;
    let mut j: usize = 0;
    while j < store.presents.len()
        invariant
            j <= store.presents.len(),
            store.games@ == s0.games,
            store.players@ == s0.players,
            store.events@ == s0.events,
            store.next_event_id == s0.next_event_id,
            store.presents@.len() == before.len(),
            forall|k: int|
                0 <= k < j ==> store.presents@[k] == cleared_presents(before, game_id)[k],
            forall|k: int| j <= k < before.len() ==> store.presents@[k] == before[k],
        decreases store.presents.len() - j,
    {
        let p = store.presents[j];
        if p.game_id == game_id {
            store.presents.set(j, Present { id: p.id, game_id: p.game_id, player_id: None });
        }
        j = j + 1;
    }
    assert(store.presents@ =~= cleared_presents(before, game_id));

    let mut kept: Vec<PlayEvent> = Vec::new();
    let mut k: usize = 0;
    while k < store.events.len()
        invariant
            k <= store.events.len(),
            store.games@ == s0.games,
            i < store.games.len(),
            kept@ == events_without(store.events@.subrange(0, k as int), game_id),
        decreases store.events.len() - k,
    {
        let e = store.events[k];
        assert(store.events@.subrange(0, k + 1).drop_last() =~= store.events@.subrange(0, k as int));
        if e.game_id != game_id {
            kept.push(e);
        }
        k = k + 1;
    }
    assert(store.events@.subrange(0, store.events.len() as int) =~= store.events@);
    store.events = kept;

    let g = store.games[i];
    let g2 = Game {
        id: g.id,
        player_id: None,
        present_id: None,
        started_at: None,
        created_at: g.created_at,
        updated_at: Some(now),
    };
    store.games.set(i, g2);
    Ok(GameStateUpdateResult { player_id: None, present_id: None, started_at: None, updated_at: now })
}

fn append_event(
    store: &mut Store,
    game_id: u128,
    player: i64,
    present: Option<i64>,
    from_player: Option<i64>,
    from_present: Option<i64>,
    now: i64,
)
    requires
        old(store).next_event_id < i64::MAX,
    ensures
        final(store)@ == (StoreView {
            events: old(store)@.events.push(
                new_event(old(store)@, game_id, player, present, from_player, from_present, now),
            ),
            next_event_id: (old(store).next_event_id + 1) as i64,
            ..old(store)@
        }),
{
    let e = PlayEvent {
        id: store.next_event_id,
        game_id,
        player_id: player,
        present_id: present,
        from_player_id: from_player,
        from_present_id: from_present,
        created_at: now,
    };
    store.events.push(e);
    store.next_event_id = store.next_event_id + 1;
}

/// Hands the turn in game `game_id` to one of the players who own no present:
/// the one at position `choice` modulo their number, so that a uniformly drawn
/// `choice` picks uniformly. Fails with `Conflict` while a turn is under way and
/// with `NotFound` when the game is missing or nobody is left to choose.
pub fn roll(store: &mut Store, game_id: u128, choice: u64, now: i64) -> (r: Outcome)
    ensures
        (final(store)@, r) == roll_spec(old(store)@, game_id, choice, now),
{
    let i = match game_index(&store.games, game_id) {
        None => return Err(Error::NotFound),
        Some(i) => i,
    };
    let g = store.games[i];
    let ghost s0 = store@;
    let el = eligible_players(&store.players, &store.presents, game_id);
    let chosen = if el.len() > 0 {
        Some(el[(choice % (el.len() as u64)) as usize])
    } else {
        None
    };
    if !store.set_if_empty(game_id, GameField::PlayerId, chosen, now) {
        return Err(Error::Conflict);
    }
    let p = match chosen {
        Some(p) => p,
        None => {
            store.games.set(i, g);
            assert(store@.games =~= s0.games);
            return Err(Error::NotFound);
        },
    };
    if store.next_event_id == i64::MAX {
        store.games.set(i, g);
        assert(store@.games =~= s0.games);
        return Err(Error::Storage);
    }
    assert(with_field(g, GameField::PlayerId, Some(p), now) == with_turn(g, Some(p), g.present_id, now));
    append_event(store, game_id, p, None, None, None, now);
    Ok(GameStateUpdateResult { player_id: Some(p), present_id: None, started_at: None, updated_at: now })
}

/// Reveals present `present_id` for the player whose turn it is in game
/// `game_id`. Fails with `Conflict` when a present is already contested or no
/// turn is under way, and with `NotFound` when the game or the present is missing.
pub fn pick(store: &mut Store, game_id: u128, present_id: i64, now: i64) -> (r: Outcome)
    ensures
        (final(store)@, r) == pick_spec(old(store)@, game_id, present_id, now),
{
    let i = match game_index(&store.games, game_id) {
        None => return Err(Error::NotFound),
        Some(i) => i,
    };
    let g = store.games[i];
    let ghost s0 = store@;
    if !store.set_if_empty(game_id, GameField::PresentId, Some(present_id), now) {
        return Err(Error::Conflict);
    }
    let p = match g.player_id {
        Some(p) => p,
        None => {
            store.games.set(i, g);
            assert(store@.games =~= s0.games);
            return Err(Error::Conflict);
        },
    };
    if present_index(&store.presents, game_id, present_id).is_none() {
        store.games.set(i, g);
        assert(store@.games =~= s0.games);
        return Err(Error::NotFound);
    }
    if store.next_event_id == i64::MAX {
        store.games.set(i, g);
        assert(store@.games =~= s0.games);
        return Err(Error::Storage);
    }
    assert(with_field(g, GameField::PresentId, Some(present_id), now) == with_turn(g, g.player_id, Some(present_id), now));
    append_event(store, game_id, p, Some(present_id), None, None, now);
    Ok(GameStateUpdateResult { player_id: None, present_id: Some(present_id), started_at: None, updated_at: now })
}

fn end_turn(store: &mut Store, i: usize, now: i64)
    requires
        i < old(store).games.len(),
    ensures
        final(store)@ == (StoreView {
            games: old(store)@.games.update(i as int, with_turn(old(store)@.games[i as int], None, None, now)),
            ..old(store)@
        }),
{
    let g = store.games[i];
    store.games.set(i, Game {
        id: g.id,
        player_id: None,
        present_id: None,
        started_at: g.started_at,
        created_at: g.created_at,
        updated_at: Some(now),
    });
}

/// The player whose turn it is in game `game_id` keeps the contested present,
/// and the turn ends. Fails with `Conflict` when no turn with a contested present
/// is under way and with `NotFound` when the game is missing.
pub fn keep(store: &mut Store, game_id: u128, now: i64) -> (r: Outcome)
    ensures
        (final(store)@, r) == keep_spec(old(store)@, game_id, now),
{
    let i = match game_index(&store.games, game_id) {
        None => return Err(Error::NotFound),
        Some(i) => i,
    };
    let g = store.games[i];
    let (p, a) = match (g.player_id, g.present_id) {
        (Some(p), Some(a)) => (p, a),
        _ => return Err(Error::Conflict),
    };
    if store.next_event_id == i64::MAX {
        return Err(Error::Storage);
    }
    let ghost s0 = store@;
    let ghost before = store.presents@;
    let mut j: usize = 0;
    while j < store.presents.len()
        invariant
            j <= store.presents.len(),
            store.games@ == s0.games,
            store.players@ == s0.players,
            store.events@ == s0.events,
            store.next_event_id == s0.next_event_id,
            store.presents@.len() == before.len(),
            forall|k: int|
                0 <= k < j ==> store.presents@[k] == kept_presents(before, game_id, a, p)[k],
            forall|k: int| j <= k < before.len() ==> store.presents@[k] == before[k],
        decreases store.presents.len() - j,
    {
        let q = store.presents[j];
        if q.game_id == game_id && q.id == a {
            store.presents.set(j, Present { id: q.id, game_id: q.game_id, player_id: Some(p) });
        }
        j = j + 1;
    }
    assert(store.presents@ =~= kept_presents(before, game_id, a, p));
    end_turn(store, i, now);
    append_event(store, game_id, p, Some(a), Some(p), Some(a), now);
    Ok(GameStateUpdateResult { player_id: None, present_id: None, started_at: None, updated_at: now })
}

/// The player whose turn it is in game `game_id` takes present `target`; the
/// target's former owner receives the contested present, and the turn ends.
/// Fails with `NotFound` when the game or the target is missing, and otherwise
/// with `Conflict` when no turn with a contested present is under way.
pub fn steal(store: &mut Store, game_id: u128, target: i64, now: i64) -> (r: Outcome)
    ensures
        (final(store)@, r) == steal_spec(old(store)@, game_id, target, now),
{
    let i = match game_index(&store.games, game_id) {
        None => return Err(Error::NotFound),
        Some(i) => i,
    };
    let k = match present_index(&store.presents, game_id, target) {
        None => return Err(Error::NotFound),
        Some(k) => k,
    };
    let g = store.games[i];
    let (p, a) = match (g.player_id, g.present_id) {
        (Some(p), Some(a)) => (p, a),
        _ => return Err(Error::Conflict),
    };
    if store.next_event_id == i64::MAX {
        return Err(Error::Storage);
    }
    let prior = store.presents[k].player_id;
    let ghost s0 = store@;
    let ghost before = store.presents@;
    let mut j: usize = 0;
    while j < store.presents.len()
        invariant
            j <= store.presents.len(),
            store.games@ == s0.games,
            store.players@ == s0.players,
            store.events@ == s0.events,
            store.next_event_id == s0.next_event_id,
            store.presents@.len() == before.len(),
            forall|m: int|
                0 <= m < j ==> store.presents@[m] == swapped_presents(
                    before,
                    game_id,
                    a,
                    target,
                    p,
                    prior,
                )[m],
            forall|m: int| j <= m < before.len() ==> store.presents@[m] == before[m],
        decreases store.presents.len() - j,
    {
        let q = store.presents[j];
        if q.game_id == game_id && q.id == a {
            store.presents.set(j, Present { id: q.id, game_id: q.game_id, player_id: prior });
        } else if q.game_id == game_id && q.id == target {
            store.presents.set(j, Present { id: q.id, game_id: q.game_id, player_id: Some(p) });
        }
        j = j + 1;
    }
    assert(store.presents@ =~= swapped_presents(before, game_id, a, target, p, prior));
    end_turn(store, i, now);
    append_event(store, game_id, p, Some(target), prior, Some(target), now);
    Ok(GameStateUpdateResult { player_id: None, present_id: None, started_at: None, updated_at: now })
}

/// Runs one of the six actions on game `game_id` as a single transaction;
/// `choice` is the random draw that `roll` uses and the others ignore.
pub fn play(store: &mut Store, game_id: u128, action: PlayAction, choice: u64, now: i64) -> (r: Outcome)
    ensures
        (final(store)@, r) == play_spec(old(store)@, game_id, action, choice, now),
{
    match action {
        PlayAction::Start => start(store, game_id, now),
        PlayAction::Reset => reset(store, game_id, now),
        PlayAction::Roll => roll(store, game_id, choice, now),
        PlayAction::Pick(p) => pick(store, game_id, p, now),
        PlayAction::Keep => keep(store, game_id, now),
        PlayAction::Steal(p) => steal(store, game_id, p, now),
    }
}

} // verus!
