//! The saved configuration: key bindings, theme and named bookmarks.

use vstd::prelude::*;

verus! {

/// Key binding settings (none yet).
#[derive(Debug, Clone, Default, PartialEq, Eq)]
pub struct Keybindings {}

/// Theme settings (none yet).
#[derive(Debug, Clone, Default, PartialEq, Eq)]
pub struct Theme {}

/// The configuration. Bookmarks map a name to a directory; each name
/// appears once, and the list keeps the order in which names were added.
#[derive(Debug, Clone)]
pub struct Config {
    pub keybindings: Keybindings,
    pub theme: Theme,
    pub bookmarks: Vec<(String, String)>,
}

/// The bookmarks as a map from name to directory.
pub open spec fn bookmark_map(b: Seq<(String, String)>) -> Map<Seq<char>, Seq<char>>
    decreases b.len(),
{
    if b.len() == 0 {
        Map::empty()
    } else {
        bookmark_map(b.drop_last()).insert(b.last().0@, b.last().1@)
    }
}

/// No two bookmarks share a name.
pub open spec fn names_unique(b: Seq<(String, String)>) -> bool {
    forall|i: int, j: int| 0 <= i < b.len() && 0 <= j < b.len() && i != j ==> b[i].0@ != b[j].0@
}

/// Renaming the target of the bookmark at `j` changes that name's entry of
/// the map only.
proof fn lemma_map_update(b: Seq<(String, String)>, j: int, entry: (String, String))
    requires
        names_unique(b),
        0 <= j < b.len(),
        b[j].0@ == entry.0@,
    ensures
        bookmark_map(b.update(j, entry)) == bookmark_map(b).insert(entry.0@, entry.1@),
    decreases b.len(),
{
    let u = b.update(j, entry);
    if j == b.len() - 1 {
        assert(u.drop_last() =~= b.drop_last());
        assert(bookmark_map(u) =~= bookmark_map(b).insert(entry.0@, entry.1@));
    } else {
        assert(u.drop_last() =~= b.drop_last().update(j, entry));
        lemma_map_update(b.drop_last(), j, entry);
        assert(b.last().0@ != entry.0@);
        assert(bookmark_map(u) =~= bookmark_map(b).insert(entry.0@, entry.1@));
    }
}

impl Config {
    pub open spec fn wf(self) -> bool {
        names_unique(self.bookmarks@)
    }

    pub fn new() -> (r: Config)
        ensures
            r.wf(),
            r.bookmarks@.len() == 0,
    {
        Config { keybindings: Keybindings {  }, theme: Theme {  }, bookmarks: Vec::new() }
    }

    /// Points the bookmark `name` at `path`: an existing one keeps its place,
    /// a new one goes last.
    pub fn insert_bookmark(&mut self, name: String, path: String)
        requires
            old(self).wf(),
        ensures
            final(self).wf(),
            bookmark_map(final(self).bookmarks@) == bookmark_map(old(self).bookmarks@).insert(
                name@,
                path@,
            ),
            (exists|j: int| 0 <= j < old(self).bookmarks@.len() && old(self).bookmarks@[j].0@ == name@)
                ==> final(self).bookmarks@.len() == old(self).bookmarks@.len() && forall|k: int|
                0 <= k < old(self).bookmarks@.len() ==> #[trigger] final(self).bookmarks@[k].0@
                == old(self).bookmarks@[k].0@,
            !(exists|j: int| 0 <= j < old(self).bookmarks@.len() && old(self).bookmarks@[j].0@ == name@)
                ==> final(self).bookmarks@ == old(self).bookmarks@.push((name, path)),
    {
        let mut j: usize = 0;
        while j < self.bookmarks.len()
            invariant
                self.bookmarks == old(self).bookmarks,
                names_unique(self.bookmarks@),
                j <= self.bookmarks@.len(),
                forall|k: int| 0 <= k < j ==> #[trigger] self.bookmarks@[k].0@ != name@,
            decreases self.bookmarks@.len() - j,
        {
            if self.bookmarks[j].0 == name {
                let ghost before = self.bookmarks@;
                let _ = self.bookmarks.remove(j);
                self.bookmarks.insert(j, (name, path));
                proof {
                    assert(self.bookmarks@ =~= before.update(j as int, (name, path)));
                    lemma_map_update(before, j as int, (name, path));
                    assert forall|a: int, b: int|
                        0 <= a < self.bookmarks@.len() && 0 <= b < self.bookmarks@.len() && a
                            != b implies #[trigger] self.bookmarks@[a].0@
                        != #[trigger] self.bookmarks@[b].0@ by {
                        assert(self.bookmarks@[a].0@ == before[a].0@);
                        assert(self.bookmarks@[b].0@ == before[b].0@);
                    }
                }
                return ;
            }
            j = j + 1;
        }
        let ghost before = self.bookmarks@;
        self.bookmarks.push((name, path));
        proof {
            assert(self.bookmarks@.drop_last() =~= before);
        }
    }
}

impl Default for Config {
    fn default() -> (r: Config)
        ensures
            r.wf(),
            r.bookmarks@.len() == 0,
    {
        Config::new()
    }
}

} // verus!
