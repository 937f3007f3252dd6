use std::collections::HashMap;

use vstd::prelude::*;

verus! {

broadcast use vstd::std_specs::hash::group_hash_axioms;

/// Permission levels that a user may hold on a game.
pub const OWNER_PERMISSION: i64 = 0xff;

pub const PLAY_PERMISSION: i64 = 0x2;

pub const VIEW_PERMISSION: i64 = 0x1;

/// The custom claims kept with a user's identity: a permission level per game.
pub struct CustomClaims {
    pub games: HashMap<u128, i64>,
}

/// The claims of a verified identity token.
pub struct MyFirebaseUser {
    pub provider_id: Option<String>,
    pub name: Option<String>,
    pub picture: Option<String>,
    pub iss: String,
    pub aud: String,
    pub auth_time: u64,
    pub user_id: String,
    pub sub: String,
    pub iat: u64,
    pub exp: u64,
    pub email: Option<String>,
    pub email_verified: Option<bool>,
    /// Permission level per game identifier.
    pub games: HashMap<u128, i64>,
}

/// The level held on `game_id`, 0 when none is recorded.
pub open spec fn level_of(games: Map<u128, i64>, game_id: u128) -> i64 {
    if games.contains_key(game_id) {
        games[game_id]
    } else {
        0
    }
}

/// A level of at least `required` is recorded for `game_id`.
pub open spec fn holds(games: Map<u128, i64>, game_id: u128, required: i64) -> bool {
    games.contains_key(game_id) && games[game_id] >= required
}

/// Some entry of `users` is the user `sub`.
pub open spec fn is_member(users: Seq<String>, sub: Seq<char>) -> bool {
    exists|i: int| 0 <= i < users.len() && users[i]@ == sub
}

/// Whether the cached service token must be fetched again: it has expired
/// (`expiry` is before `now`, both in seconds) or none was fetched yet.
pub fn token_needs_refresh(expiry: u64, now: u64, header: &String) -> (r: bool)
    ensures
        r == (expiry < now || header@.len() == 0),
{
    expiry < now || header.as_str().unicode_len() == 0
}

impl CustomClaims {
    pub fn new() -> (r: CustomClaims)
        ensures
            r.games@ == Map::<u128, i64>::empty(),
    {
        CustomClaims { games: HashMap::new() }
    }

    /// Records `level` for `game_id`, replacing any earlier level.
    pub fn grant(&mut self, game_id: u128, level: i64)
        ensures
            final(self).games@ == old(self).games@.insert(game_id, level),
    {
        self.games.insert(game_id, level);
    }
}

impl MyFirebaseUser {
    /// May change the game's settings.
    pub fn can_edit(&self, game_id: u128) -> (r: bool)
        ensures
            r == holds(self.games@, game_id, OWNER_PERMISSION),
    {
        match self.games.get(&game_id) {
            Some(p) => *p >= OWNER_PERMISSION,
            None => false,
        }
    }

    /// May take play actions in the game.
    pub fn can_play(&self, game_id: u128) -> (r: bool)
        ensures
            r == holds(self.games@, game_id, PLAY_PERMISSION),
    {
        match self.games.get(&game_id) {
            Some(p) => *p >= PLAY_PERMISSION,
            None => false,
        }
    }

    /// May see the game.
    pub fn can_view(&self, game_id: u128) -> (r: bool)
        ensures
            r == holds(self.games@, game_id, VIEW_PERMISSION),
    {
        match self.games.get(&game_id) {
            Some(p) => *p >= VIEW_PERMISSION,
            None => false,
        }
    }

    pub fn permission_level(&self, game_id: u128) -> (r: i64)
        ensures
            r == level_of(self.games@, game_id),
    {
        match self.games.get(&game_id) {
            Some(p) => *p,
            None => 0,
        }
    }

    /// The user's claims, to be edited and stored back.
    pub fn custom_claims(&self) -> (r: CustomClaims)
        ensures
            r.games@ == self.games@,
    {
        CustomClaims { games: self.games.clone() }
    }

    /// The claims to store when the user accepts an invitation to `game_id`,
    /// whose users are `users`: view permission is added when the game lists
    /// the user and the user holds no level on it yet; otherwise nothing
    /// changes and `None` is returned.
    pub fn invitation_claims(&self, game_id: u128, users: &Vec<String>) -> (r: Option<CustomClaims>)
        ensures
            r.is_some() <==> (is_member(users@, self.sub@) && !self.games@.contains_key(game_id)),
            match r {
                Some(c) => c.games@ == self.games@.insert(game_id, VIEW_PERMISSION),
                None => true,
            },
    {
        let mut member = false;
        let mut i: usize = 0;
        while i < users.len()
            invariant
                i <= users.len(),
                member == (exists|j: int| 0 <= j < i && users@[j]@ == self.sub@),
            decreases users.len() - i,
        {
            if users[i] == self.sub {
                member = true;
            }
            i = i + 1;
        }
        if member && !self.games.contains_key(&game_id) {
            let mut c = self.custom_claims();
            c.grant(game_id, VIEW_PERMISSION);
            Some(c)
        } else {
            None
        }
    }
}

} // verus!
