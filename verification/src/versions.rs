//! The persisted version ledger: which version of each runtime is
//! installed, and a token per downloaded game. One document,
//! read-modify-write, last-write-wins; when the document is absent the
//! ledger defaults to all-empty values rather than failing.
//!
//! The per-game tokens are kept as an association list with pairwise
//! distinct keys; its meaning is the finite map [`GameVersions::games_map`],
//! and updates are specified as `Map::insert`.

use vstd::prelude::*;
use vstd::string::StringExecFns;
use vstd::map::*;
use vstd::assert_maps_equal;

verus! {

/// Keys of `pairs` are pairwise distinct.
pub open spec fn keys_unique(pairs: Seq<(String, String)>) -> bool {
    forall|i: int, j: int|
        0 <= i < j < pairs.len() ==> (#[trigger] pairs[i]).0@ != (#[trigger] pairs[j]).0@
}

/// Some entry of `pairs` has key `k`.
pub open spec fn has_key(pairs: Seq<(String, String)>, k: Seq<char>) -> bool {
    exists|i: int| 0 <= i < pairs.len() && (#[trigger] pairs[i]).0@ == k
}

/// The value at the entry of `pairs` whose key is `k`.
pub open spec fn value_of(pairs: Seq<(String, String)>, k: Seq<char>) -> Seq<char> {
    pairs[choose|i: int| 0 <= i < pairs.len() && (#[trigger] pairs[i]).0@ == k].1@
}

/// The finite map an association list stands for.
pub open spec fn map_of_pairs(pairs: Seq<(String, String)>) -> Map<Seq<char>, Seq<char>> {
    Map::new(|k: Seq<char>| has_key(pairs, k), |k: Seq<char>| value_of(pairs, k))
}

/// With distinct keys, the entry at `i` is the one `value_of` reads.
proof fn lemma_value_at(pairs: Seq<(String, String)>, i: int)
    requires
        keys_unique(pairs),
        0 <= i < pairs.len(),
    ensures
        has_key(pairs, pairs[i].0@),
        value_of(pairs, pairs[i].0@) == pairs[i].1@,
{
    assert(has_key(pairs, pairs[i].0@));
    let j = choose|j: int| 0 <= j < pairs.len() && (#[trigger] pairs[j]).0@ == pairs[i].0@;
    if j < i {
        assert(pairs[j].0@ != pairs[i].0@);
    } else if i < j {
        assert(pairs[i].0@ != pairs[j].0@);
    }
}

/// Replacing the value at the unique entry with key `id` is `Map::insert`.
proof fn lemma_map_update(
    g: Seq<(String, String)>,
    new: Seq<(String, String)>,
    i: int,
    id: Seq<char>,
    token: Seq<char>,
)
    requires
        keys_unique(g),
        0 <= i < g.len(),
        g[i].0@ == id,
        new.len() == g.len(),
        forall|j: int| 0 <= j < g.len() && j != i ==> new[j] == g[j],
        new[i].0@ == id,
        new[i].1@ == token,
    ensures
        keys_unique(new),
        map_of_pairs(new) == map_of_pairs(g).insert(id, token),
{
    assert forall|a: int, b: int| 0 <= a < b < new.len() implies (#[trigger] new[a]).0@
        != (#[trigger] new[b]).0@ by {
        assert(new[a].0@ == g[a].0@);
        assert(new[b].0@ == g[b].0@);
    }
    assert_maps_equal!(map_of_pairs(new), map_of_pairs(g).insert(id, token), k => {
        if k == id {
            lemma_value_at(new, i);
        } else {
            if has_key(new, k) {
                let j = choose|j: int| 0 <= j < new.len() && (#[trigger] new[j]).0@ == k;
                assert(g[j].0@ == k);
                lemma_value_at(new, j);
                lemma_value_at(g, j);
            }
            if has_key(g, k) {
                let j = choose|j: int| 0 <= j < g.len() && (#[trigger] g[j]).0@ == k;
                assert(new[j].0@ == k);
            }
        }
    });
}

/// Appending an entry whose key is absent is `Map::insert`.
proof fn lemma_map_push(g: Seq<(String, String)>, p: (String, String))
    requires
        keys_unique(g),
        !has_key(g, p.0@),
    ensures
        keys_unique(g.push(p)),
        map_of_pairs(g.push(p)) == map_of_pairs(g).insert(p.0@, p.1@),
{
    let new = g.push(p);
    assert forall|a: int, b: int| 0 <= a < b < new.len() implies (#[trigger] new[a]).0@
        != (#[trigger] new[b]).0@ by {
        if b < g.len() {
            assert(new[a] == g[a] && new[b] == g[b]);
        } else {
            assert(new[a] == g[a] && new[b] == p);
        }
    }
    assert_maps_equal!(map_of_pairs(new), map_of_pairs(g).insert(p.0@, p.1@), k => {
        if k == p.0@ {
            lemma_value_at(new, g.len() as int);
        } else {
            if has_key(new, k) {
                let j = choose|j: int| 0 <= j < new.len() && (#[trigger] new[j]).0@ == k;
                assert(j < g.len());
                assert(g[j].0@ == k);
                lemma_value_at(new, j);
                lemma_value_at(g, j);
            }
            if has_key(g, k) {
                let j = choose|j: int| 0 <= j < g.len() && (#[trigger] g[j]).0@ == k;
                assert(new[j].0@ == k);
            }
        }
    });
}

/// The version ledger: one version string per runtime and one token per
/// downloaded game.
pub struct GameVersions {
    pub flash_player: String,
    pub ruffle: String,
    pub games: Vec<(String, String)>,
}

impl GameVersions {
    /// Per-game entries have pairwise distinct keys.
    pub open spec fn wf(&self) -> bool {
        keys_unique(self.games@)
    }

    /// The per-game tokens as a finite map.
    pub open spec fn games_map(&self) -> Map<Seq<char>, Seq<char>> {
        map_of_pairs(self.games@)
    }

    /// The token recorded for `id`, or `None` when no download of it was
    /// ever recorded.
    pub fn get_game_version<'a>(&'a self, id: &String) -> (r: Option<&'a String>)
        requires
            self.wf(),
        ensures
            match r {
                Some(t) => self.games_map().contains_key(id@) && t@ == self.games_map()[id@],
                None => !self.games_map().contains_key(id@),
            },
    {
        let n = self.games.len();
        let mut i: usize = 0;
        while i < n
            invariant
                i <= n,
                n == self.games@.len(),
                self.wf(),
                forall|j: int| 0 <= j < i ==> (#[trigger] self.games@[j]).0@ != id@,
            decreases n - i,
        {
            let pair = &self.games[i];
            if pair.0 == *id {
                proof {
                    lemma_value_at(self.games@, i as int);
                }
                return Some(&pair.1);
            }
            i = i + 1;
        }
        None
    }

    /// Records `token` as the version of game `id`, replacing any token
    /// recorded earlier: the per-game map gains exactly that one binding
    /// and the runtime versions stay as they were.
    pub fn set_game_version(&mut self, id: &String, token: &String)
        requires
            old(self).wf(),
        ensures
            final(self).wf(),
            final(self).flash_player == old(self).flash_player,
            final(self).ruffle == old(self).ruffle,
            final(self).games_map() == old(self).games_map().insert(id@, token@),
    {
        let n = self.games.len();
        let mut i: usize = 0;
        while i < n
            invariant
                i <= n,
                n == self.games@.len(),
                self == old(self),
                old(self).wf(),
                forall|j: int| 0 <= j < i ==> (#[trigger] self.games@[j]).0@ != id@,
            decreases n - i,
        {
            if self.games[i].0 == *id {
                self.games[i].1 = token.clone();
                proof {
                    lemma_map_update(old(self).games@, self.games@, i as int, id@, token@);
                }
                return;
            }
            i = i + 1;
        }
        self.games.push((id.clone(), token.clone()));
        proof {
            assert(self.games@ =~= old(self).games@.push(((*id), (*token))));
            lemma_map_push(old(self).games@, ((*id), (*token)));
        }
    }
}

impl Default for GameVersions {
    /// The ledger used when no document exists yet: empty versions, no
    /// recorded games.
    fn default() -> (r: GameVersions)
        ensures
            r.wf(),
            r.flash_player@ == Seq::<char>::empty(),
            r.ruffle@ == Seq::<char>::empty(),
            r.games@ == Seq::<(String, String)>::empty(),
            r.games_map() == Map::<Seq<char>, Seq<char>>::empty(),
    {
        let r = GameVersions {
            flash_player: String::new(),
            ruffle: String::new(),
            games: Vec::new(),
        };
        proof {
            assert(r.games_map() =~= Map::<Seq<char>, Seq<char>>::empty());
        }
        r
    }
}

} // verus!
