use white_elephant::error::Error;
use white_elephant::games::{
    eligible_players, keep, pick, play, reset, roll, start, steal, Game, GameField, GameStateUpdateResult, PlayAction,
    PlayEvent, Player, Present, Store,
};

const G: u128 = 0x1234_5678_9abc_def0_1122_3344_5566_7788;
const OTHER: u128 = 99;

fn game(id: u128) -> Game {
    Game { id, player_id: None, present_id: None, started_at: None, created_at: 5, updated_at: None }
}

/// Game G with players 1 and 2 and unclaimed presents 10 (A), 11 (B), 12 (C).
fn scenario_store() -> Store {
    let mut s = Store::new();
    s.games.push(game(G));
    s.players.push(Player { id: 1, game_id: G });
    s.players.push(Player { id: 2, game_id: G });
    for id in [10, 11, 12] {
        s.presents.push(Present { id, game_id: G, player_id: None });
    }
    s
}

fn owner(s: &Store, present: i64) -> Option<i64> {
    s.presents.iter().find(|p| p.id == present).unwrap().player_id
}

fn row(s: &Store) -> Game {
    *s.games.iter().find(|g| g.id == G).unwrap()
}

#[test]
fn full_turn_scenario() {
    let mut s = scenario_store();
    let r = start(&mut s, G, 100).unwrap();
    assert_eq!(r, GameStateUpdateResult { player_id: None, present_id: None, started_at: Some(100), updated_at: 100 });
    assert_eq!(row(&s).started_at, Some(100));

    let r = roll(&mut s, G, 0, 101).unwrap();
    assert_eq!(r.player_id, Some(1));
    assert_eq!(row(&s).player_id, Some(1));
    assert_eq!(s.events.len(), 1);
    assert_eq!(
        s.events[0],
        PlayEvent { id: 1, game_id: G, player_id: 1, present_id: None, from_player_id: None, from_present_id: None, created_at: 101 }
    );

    let r = pick(&mut s, G, 10, 102).unwrap();
    assert_eq!(r.present_id, Some(10));
    assert_eq!(row(&s).present_id, Some(10));
    assert_eq!(s.events[1].player_id, 1);
    assert_eq!(s.events[1].present_id, Some(10));

    keep(&mut s, G, 103).unwrap();
    assert_eq!(owner(&s, 10), Some(1));
    assert_eq!(row(&s).player_id, None);
    assert_eq!(row(&s).present_id, None);
    let e = s.events[2];
    assert_eq!((e.player_id, e.present_id, e.from_player_id, e.from_present_id), (1, Some(10), Some(1), Some(10)));

    // The player who owns A is no longer eligible, whatever the draw.
    assert_eq!(eligible_players(&s.players, &s.presents, G), vec![2]);
    for choice in [0u64, 1, 7, u64::MAX] {
        let mut t = Store { games: s.games.clone(), players: s.players.clone(), presents: s.presents.clone(), events: s.events.clone(), next_event_id: s.next_event_id };
        assert_eq!(roll(&mut t, G, choice, 104).unwrap().player_id, Some(2));
    }
}

#[test]
fn roll_choice_selects_by_position() {
    let mut s = scenario_store();
    assert_eq!(roll(&mut s, G, 3, 1).unwrap().player_id, Some(2));
}

#[test]
fn second_roll_conflicts() {
    let mut s = scenario_store();
    assert!(roll(&mut s, G, 0, 1).is_ok());
    let events = s.events.len();
    assert_eq!(roll(&mut s, G, 1, 2), Err(Error::Conflict));
    assert_eq!(s.events.len(), events);
    assert_eq!(row(&s).player_id, Some(1));
}

#[test]
fn second_pick_conflicts() {
    let mut s = scenario_store();
    roll(&mut s, G, 0, 1).unwrap();
    assert!(pick(&mut s, G, 10, 2).is_ok());
    assert_eq!(pick(&mut s, G, 11, 3), Err(Error::Conflict));
    assert_eq!(row(&s).present_id, Some(10));
    assert_eq!(s.events.len(), 2);
}

#[test]
fn keep_then_keep_again_stays_clear() {
    let mut s = scenario_store();
    roll(&mut s, G, 0, 1).unwrap();
    pick(&mut s, G, 11, 2).unwrap();
    keep(&mut s, G, 3).unwrap();
    assert_eq!(keep(&mut s, G, 4), Err(Error::Conflict));
    assert_eq!(steal(&mut s, G, 11, 4), Err(Error::Conflict));
    assert_eq!(row(&s).player_id, None);
    assert_eq!(row(&s).present_id, None);
    assert!(roll(&mut s, G, 0, 5).is_ok());
}

#[test]
fn steal_swaps_owners() {
    let mut s = scenario_store();
    // Player 1 keeps B.
    roll(&mut s, G, 0, 1).unwrap();
    pick(&mut s, G, 11, 2).unwrap();
    keep(&mut s, G, 3).unwrap();
    // Player 2 reveals A and steals B from player 1.
    assert_eq!(roll(&mut s, G, 0, 4).unwrap().player_id, Some(2));
    pick(&mut s, G, 10, 5).unwrap();
    let r = steal(&mut s, G, 11, 6).unwrap();
    assert_eq!(r, GameStateUpdateResult { player_id: None, present_id: None, started_at: None, updated_at: 6 });
    assert_eq!(owner(&s, 10), Some(1));
    assert_eq!(owner(&s, 11), Some(2));
    assert_eq!(owner(&s, 12), None);
    let e = *s.events.last().unwrap();
    assert_eq!(e.player_id, 2);
    assert_eq!(e.present_id, Some(11));
    assert_eq!(e.from_player_id, Some(1));
    assert_eq!(e.from_present_id, Some(11));
    assert_eq!(row(&s).player_id, None);
    assert_eq!(row(&s).present_id, None);
}

#[test]
fn steal_of_unclaimed_present_leaves_contested_one_unowned() {
    let mut s = scenario_store();
    roll(&mut s, G, 0, 1).unwrap();
    pick(&mut s, G, 10, 2).unwrap();
    steal(&mut s, G, 12, 3).unwrap();
    assert_eq!(owner(&s, 12), Some(1));
    assert_eq!(owner(&s, 10), None);
    assert_eq!(s.events.last().unwrap().from_player_id, None);
}

#[test]
fn reset_clears_everything_of_the_game() {
    let mut s = scenario_store();
    s.games.push(game(OTHER));
    s.players.push(Player { id: 3, game_id: OTHER });
    s.presents.push(Present { id: 20, game_id: OTHER, player_id: None });
    start(&mut s, G, 1).unwrap();
    roll(&mut s, G, 0, 2).unwrap();
    pick(&mut s, G, 10, 3).unwrap();
    keep(&mut s, G, 4).unwrap();
    roll(&mut s, OTHER, 0, 5).unwrap();
    pick(&mut s, OTHER, 20, 6).unwrap();
    keep(&mut s, OTHER, 7).unwrap();
    roll(&mut s, G, 0, 8).unwrap();

    let r = reset(&mut s, G, 9).unwrap();
    assert_eq!(r, GameStateUpdateResult { player_id: None, present_id: None, started_at: None, updated_at: 9 });
    assert!(s.events.iter().all(|e| e.game_id != G));
    assert_eq!(s.events.len(), 3);
    assert!(s.presents.iter().filter(|p| p.game_id == G).all(|p| p.player_id.is_none()));
    assert_eq!(owner(&s, 20), Some(3));
    let g = row(&s);
    assert_eq!((g.player_id, g.present_id, g.started_at), (None, None, None));
    // A reset game can start again.
    assert!(start(&mut s, G, 10).is_ok());
}

#[test]
fn reset_of_a_fresh_game_succeeds() {
    let mut s = scenario_store();
    assert!(reset(&mut s, G, 1).is_ok());
    assert!(reset(&mut s, G, 2).is_ok());
}

#[test]
fn start_twice_conflicts() {
    let mut s = scenario_store();
    start(&mut s, G, 1).unwrap();
    assert_eq!(start(&mut s, G, 2), Err(Error::Conflict));
    assert_eq!(row(&s).started_at, Some(1));
}

#[test]
fn missing_game_is_not_found() {
    let mut s = scenario_store();
    assert_eq!(start(&mut s, OTHER, 1), Err(Error::NotFound));
    assert_eq!(reset(&mut s, OTHER, 1), Err(Error::NotFound));
    assert_eq!(roll(&mut s, OTHER, 0, 1), Err(Error::NotFound));
    assert_eq!(pick(&mut s, OTHER, 10, 1), Err(Error::NotFound));
    assert_eq!(keep(&mut s, OTHER, 1), Err(Error::NotFound));
    assert_eq!(steal(&mut s, OTHER, 10, 1), Err(Error::NotFound));
}

#[test]
fn roll_without_eligible_player_is_not_found() {
    let mut s = scenario_store();
    s.presents[0].player_id = Some(1);
    s.presents[1].player_id = Some(2);
    assert_eq!(roll(&mut s, G, 0, 1), Err(Error::NotFound));
    assert_eq!(row(&s).player_id, None);
    assert!(s.events.is_empty());
}

#[test]
fn roll_ignores_presents_of_other_games() {
    let mut s = scenario_store();
    s.presents.push(Present { id: 30, game_id: OTHER, player_id: Some(1) });
    assert_eq!(eligible_players(&s.players, &s.presents, G), vec![1, 2]);
}

#[test]
fn pick_without_turn_conflicts() {
    let mut s = scenario_store();
    assert_eq!(pick(&mut s, G, 10, 1), Err(Error::Conflict));
}

#[test]
fn pick_of_unknown_present_is_not_found() {
    let mut s = scenario_store();
    roll(&mut s, G, 0, 1).unwrap();
    assert_eq!(pick(&mut s, G, 77, 2), Err(Error::NotFound));
    assert_eq!(row(&s).present_id, None);
}

#[test]
fn steal_of_unknown_present_is_not_found() {
    let mut s = scenario_store();
    roll(&mut s, G, 0, 1).unwrap();
    pick(&mut s, G, 10, 2).unwrap();
    assert_eq!(steal(&mut s, G, 77, 3), Err(Error::NotFound));
    assert_eq!(row(&s).present_id, Some(10));
}

#[test]
fn exhausted_event_ids_fail_without_change() {
    let mut s = scenario_store();
    s.next_event_id = i64::MAX;
    assert_eq!(roll(&mut s, G, 0, 1), Err(Error::Storage));
    assert_eq!(row(&s).player_id, None);
    assert!(s.events.is_empty());
}

#[test]
fn play_dispatches_each_action() {
    let mut s = scenario_store();
    assert_eq!(play(&mut s, G, PlayAction::Start, 0, 1).unwrap().started_at, Some(1));
    assert_eq!(play(&mut s, G, PlayAction::Roll, 1, 2).unwrap().player_id, Some(2));
    assert_eq!(play(&mut s, G, PlayAction::Pick(12), 0, 3).unwrap().present_id, Some(12));
    assert!(play(&mut s, G, PlayAction::Keep, 0, 4).is_ok());
    assert_eq!(owner(&s, 12), Some(2));
    assert!(play(&mut s, G, PlayAction::Roll, 0, 5).is_ok());
    assert!(play(&mut s, G, PlayAction::Pick(10), 0, 6).is_ok());
    assert!(play(&mut s, G, PlayAction::Steal(12), 0, 7).is_ok());
    assert_eq!(owner(&s, 12), Some(1));
    assert_eq!(owner(&s, 10), Some(2));
    assert!(play(&mut s, G, PlayAction::Reset, 0, 8).is_ok());
    assert!(s.events.is_empty());
}

#[test]
fn steal_of_missing_present_is_not_found_even_without_turn() {
    let mut s = scenario_store();
    assert_eq!(steal(&mut s, G, 77, 1), Err(Error::NotFound));
    assert_eq!(steal(&mut s, G, 11, 1), Err(Error::Conflict));
    assert!(s.events.is_empty());
}

#[test]
fn guarded_write_succeeds_once() {
    let mut s = scenario_store();
    assert!(s.set_if_empty(G, GameField::PlayerId, Some(2), 7));
    assert_eq!(row(&s).player_id, Some(2));
    assert_eq!(row(&s).updated_at, Some(7));
    assert!(!s.set_if_empty(G, GameField::PlayerId, Some(1), 8));
    assert_eq!(row(&s).player_id, Some(2));
    assert_eq!(row(&s).updated_at, Some(7));
    assert!(s.set_if_empty(G, GameField::PresentId, Some(10), 9));
    assert!(s.set_if_empty(G, GameField::StartedAt, Some(9), 9));
    assert!(!s.set_if_empty(OTHER, GameField::StartedAt, Some(9), 9));
}

#[test]
fn failed_pick_rolls_back_the_guarded_write() {
    let mut s = scenario_store();
    roll(&mut s, G, 0, 1).unwrap();
    let before = row(&s);
    assert_eq!(pick(&mut s, G, 77, 2), Err(Error::NotFound));
    assert_eq!(row(&s), before);
    let mut t = scenario_store();
    let before = row(&t);
    assert_eq!(pick(&mut t, G, 10, 2), Err(Error::Conflict));
    assert_eq!(row(&t), before);
}
