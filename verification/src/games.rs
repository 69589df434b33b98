//! Finding an already-downloaded game on disk.
//!
//! A game lives either at the standard `<id>.swf` name or under a
//! versioned `<id>-v*.swf` name; among versioned files the most recently
//! modified wins. The driver probes the standard path and lists the games
//! directory; the selection over that listing is verified here.

use vstd::prelude::*;
use crate::text::concat2;
use crate::text::ends_with_spec;
use crate::text::starts_with_spec;
use crate::text::str_ends_with;
use crate::text::str_starts_with;

verus! {

/// One file of the games directory: its name and its modification time
/// in seconds since the epoch (0 when unknown).
pub struct GameFile {
    pub name: String,
    pub mtime: u64,
}

/// `name` is a versioned file of game `id`: `<id>-v*.swf`.
pub open spec fn versioned_match(name: Seq<char>, id: Seq<char>) -> bool {
    starts_with_spec(name, id + "-v"@) && ends_with_spec(name, ".swf"@)
}

/// The name of the file to run for game `game_id`, if any: the standard
/// `<id>.swf` when the driver's probe found it, else the versioned file
/// with the greatest modification time — ties going to the earliest
/// listing, files with unknown modification time never chosen.
pub fn pick_game_file(game_id: &String, standard_exists: bool, entries: &Vec<GameFile>) -> (r:
    Option<String>)
    ensures
        standard_exists ==> (r matches Some(n) && n@ == game_id@ + ".swf"@),
        !standard_exists ==> match r {
            Some(n) => exists|i: int|
                {
                    &&& 0 <= i < entries@.len()
                    &&& #[trigger] versioned_match(entries@[i].name@, game_id@)
                    &&& entries@[i].mtime > 0
                    &&& n@ == entries@[i].name@
                    &&& forall|j: int|
                        0 <= j < entries@.len() && #[trigger] versioned_match(
                            entries@[j].name@,
                            game_id@,
                        ) ==> entries@[j].mtime <= entries@[i].mtime
                    &&& forall|j: int|
                        0 <= j < i && #[trigger] versioned_match(entries@[j].name@, game_id@)
                            ==> entries@[j].mtime < entries@[i].mtime
                },
            None => forall|j: int|
                0 <= j < entries@.len() && #[trigger] versioned_match(entries@[j].name@, game_id@)
                    ==> entries@[j].mtime == 0,
        },
{
    if standard_exists {
        return Some(concat2(game_id.as_str(), ".swf"));
    }
    let prefix = concat2(game_id.as_str(), "-v");
    let n = entries.len();
    let mut best: Option<usize> = None;
    let mut i: usize = 0;
    while i < n
        invariant
            i <= n,
            n == entries@.len(),
            prefix@ == game_id@ + "-v"@,
            match best {
                Some(b) => {
                    &&& b < i
                    &&& versioned_match(entries@[b as int].name@, game_id@)
                    &&& entries@[b as int].mtime > 0
                    &&& forall|j: int|
                        0 <= j < i && #[trigger] versioned_match(entries@[j].name@, game_id@)
                            ==> entries@[j].mtime <= entries@[b as int].mtime
                    &&& forall|j: int|
                        0 <= j < b && #[trigger] versioned_match(entries@[j].name@, game_id@)
                            ==> entries@[j].mtime < entries@[b as int].mtime
                },
                None => forall|j: int|
                    0 <= j < i && #[trigger] versioned_match(entries@[j].name@, game_id@)
                        ==> entries@[j].mtime == 0,
            },
        decreases n - i,
    {
        let entry = &entries[i];
        if str_starts_with(entry.name.as_str(), prefix.as_str()) && str_ends_with(
            entry.name.as_str(),
            ".swf",
        ) {
            let current_best: u64 = match best {
                Some(b) => entries[b].mtime,
                None => 0,
            };
            if entry.mtime > current_best {
                best = Some(i);
            }
        }
        i = i + 1;
    }
    match best {
        Some(b) => Some(entries[b].name.clone()),
        None => None,
    }
}

} // verus!
