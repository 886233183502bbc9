//! Names that the user gives to games, by the hash of their ROM.

use vstd::prelude::*;
use crate::search::{first_where, lemma_first_where_is};
use crate::text::same_text;

verus! {

/// The name given to one game.
#[derive(Debug, Clone)]
pub struct GameNameEntry {
    pub name: String,
    /// The console, for reference.
    pub console: Option<String>,
}

/// A hash with the name given to its game.
#[derive(Debug, Clone)]
pub struct NamedGame {
    pub hash: String,
    pub entry: GameNameEntry,
}

/// The names given to games. No hash occurs twice as long as the list is
/// changed through `set_name` and `remove_name` only.
#[derive(Debug, Clone)]
pub struct GameNameMapping {
    pub games: Vec<NamedGame>,
}

/// The place of the first entry under this hash; the length of the list
/// where there is none.
pub open spec fn hash_pos(games: Seq<NamedGame>, hash: Seq<char>) -> int {
    first_where(games, |g: NamedGame| g.hash@ == hash)
}

/// The entries that are not under this hash, in their order.
pub open spec fn without(games: Seq<NamedGame>, hash: Seq<char>) -> Seq<NamedGame>
    decreases games.len(),
{
    if games.len() == 0 {
        games
    } else if games.last().hash@ == hash {
        without(games.drop_last(), hash)
    } else {
        without(games.drop_last(), hash).push(games.last())
    }
}

/// After the entries under a hash were taken away none is left under it.
pub proof fn lemma_without_has_none(games: Seq<NamedGame>, hash: Seq<char>)
    ensures
        without(games, hash).len() <= games.len(),
        forall|i: int| 0 <= i < without(games, hash).len() ==> (#[trigger] without(games, hash)[i]).hash@ != hash,
    decreases games.len(),
{
    if games.len() > 0 {
        lemma_without_has_none(games.drop_last(), hash);
    }
}

impl GameNameMapping {
    /// No names.
    pub fn new() -> (r: GameNameMapping)
        ensures
            r.games@.len() == 0,
    {
        GameNameMapping { games: Vec::new() }
    }

    /// The place of the first entry under this hash, or the number of
    /// entries.
    fn find(&self, hash: &str) -> (r: usize)
        ensures
            r == hash_pos(self.games@, hash@),
            r <= self.games@.len(),
            r < self.games@.len() ==> self.games@[r as int].hash@ == hash@,
            forall|k: int| 0 <= k < r ==> (#[trigger] self.games@[k]).hash@ != hash@,
    {
        let ghost p = |g: NamedGame| g.hash@ == hash@;
        let mut i: usize = 0;
        while i < self.games.len() && !same_text(self.games[i].hash.as_str(), hash)
            invariant
                i <= self.games.len(),
                forall|g: NamedGame| #[trigger] p(g) == (g.hash@ == hash@),
                forall|k: int| 0 <= k < i ==> !p(#[trigger] self.games@[k]),
            decreases self.games.len() - i,
        {
            i = i + 1;
        }
        proof {
            lemma_first_where_is(self.games@, p, i as int);
        }
        i
    }

    /// The name of a game: the one that its cartridge carries, if any,
    /// else the one given to its hash.
    pub fn get_name(&self, hash: &str, cartridge_name: Option<String>) -> (r: Option<String>)
        ensures
            match cartridge_name {
                Some(name) => r == Some(name),
                None => {
                    let at = hash_pos(self.games@, hash@);
                    match r {
                        Some(name) => at < self.games@.len() && name@ == self.games@[at].entry.name@,
                        None => at >= self.games@.len(),
                    }
                },
            },
    {
        match cartridge_name {
            Some(name) => Some(name),
            None => {
                let at = self.find(hash);
                if at < self.games.len() {
                    Some(self.games[at].entry.name.clone())
                } else {
                    None
                }
            },
        }
    }

    /// Gives a name to the game of this hash, in place of any it had.
    /// Afterwards the names are to be written.
    pub fn set_name(&mut self, hash: String, name: String, console: Option<String>)
        ensures
            ({
                let at = hash_pos(old(self).games@, hash@);
                if at < old(self).games@.len() {
                    &&& final(self).games@.len() == old(self).games@.len()
                    &&& final(self).games@[at].hash == old(self).games@[at].hash
                    &&& final(self).games@[at].entry.name == name
                    &&& final(self).games@[at].entry.console == console
                    &&& forall|k: int|
                        0 <= k < old(self).games@.len() && k != at ==> #[trigger] final(self).games@[k] == old(
                            self,
                        ).games@[k]
                } else {
                    final(self).games@ == old(self).games@.push(
                        NamedGame { hash, entry: GameNameEntry { name, console } },
                    )
                }
            }),
    {
        let at = self.find(hash.as_str());
        if at < self.games.len() {
            self.games[at].entry = GameNameEntry { name, console };
        } else {
            self.games.push(NamedGame { hash, entry: GameNameEntry { name, console } });
        }
    }

    /// Takes the name away from the game of this hash: every entry under
    /// the hash goes, the others stay in their order. Afterwards the names
    /// are to be written.
    pub fn remove_name(&mut self, hash: &str)
        ensures
            final(self).games@ == without(old(self).games@, hash@),
    {
        let mut kept: Vec<NamedGame> = Vec::new();
        let mut rest: Vec<NamedGame> = Vec::new();
        std::mem::swap(&mut self.games, &mut rest);
        let ghost before = rest@;
        for game in it: rest
            invariant
                it.seq() == before,
                kept@ == without(before.take(it.index() as int), hash@),
        {
            proof {
                let next = before.take(it.index() as int + 1);
                assert(next.drop_last() == before.take(it.index() as int));
                assert(next.last() == game);
            }
            if !same_text(game.hash.as_str(), hash) {
                kept.push(game);
            }
        }
        proof {
            assert(before.take(before.len() as int) == before);
        }
        self.games = kept;
    }
}

impl Default for GameNameMapping {
    fn default() -> (r: GameNameMapping)
        ensures
            r.games@.len() == 0,
    {
        GameNameMapping::new()
    }
}

} // verus!
