//! Server modules loaded on the library's behalf, and the table of their
//! loading states.

use vstd::prelude::*;

use crate::text::str_eq;

verus! {

/// Loading state of a server module.
#[derive(Clone, Copy, Debug, PartialEq, Eq, Structural)]
pub enum ModuleState {
    /// Not loaded (also the state of a module never recorded).
    Unloaded,
    /// A load was requested at `loaded_at_ms`, in milliseconds of the
    /// caller's monotonic clock.
    Loading { loaded_at_ms: u64 },
    /// Loaded, under the server's module index `module_index`.
    Complete { module_index: u32 },
}

impl Default for ModuleState {
    /// A module that is not loaded.
    fn default() -> (r: Self)
        ensures
            r == ModuleState::Unloaded,
    {
        ModuleState::Unloaded
    }
}

/// The table built from `entries` recorded in order: a later entry for a
/// name overrides an earlier one.
pub open spec fn entries_table(entries: Seq<(String, ModuleState)>) -> Map<Seq<char>, ModuleState>
    decreases entries.len(),
{
    if entries.len() == 0 {
        Map::empty()
    } else {
        entries_table(entries.drop_last()).insert(entries.last().0@, entries.last().1)
    }
}

/// The state of module `name` in `table` (not loaded when absent).
pub open spec fn module_state_of(table: Map<Seq<char>, ModuleState>, name: Seq<char>) -> ModuleState {
    if table.contains_key(name) {
        table[name]
    } else {
        ModuleState::Unloaded
    }
}

/// Loading states of server modules, by module name.
#[derive(Debug)]
pub struct ModuleTable {
    entries: Vec<(String, ModuleState)>,
}

impl View for ModuleTable {
    type V = Map<Seq<char>, ModuleState>;

    closed spec fn view(&self) -> Map<Seq<char>, ModuleState> {
        entries_table(self.entries@)
    }
}

impl ModuleTable {
    /// A table with no module.
    pub fn new() -> (t: Self)
        ensures
            t@ == Map::<Seq<char>, ModuleState>::empty(),
    {
        ModuleTable { entries: Vec::new() }
    }

    /// The state of module `name`.
    pub fn get(&self, name: &str) -> (r: ModuleState)
        ensures
            r == module_state_of(self@, name@),
    {
        let mut found: Option<ModuleState> = None;
        for i in 0..self.entries.len()
            invariant
                found == (if entries_table(self.entries@.take(i as int)).contains_key(name@) {
                    Some(entries_table(self.entries@.take(i as int))[name@])
                } else {
                    None::<ModuleState>
                }),
        {
            proof {
                assert(self.entries@.take(i + 1).drop_last() == self.entries@.take(i as int));
            }
            if str_eq(self.entries[i].0.as_str(), name) {
                found = Some(self.entries[i].1);
            }
        }
        proof {
            assert(self.entries@.take(self.entries@.len() as int) == self.entries@);
        }
        match found {
            Some(s) => s,
            None => ModuleState::Unloaded,
        }
    }

    /// Forgets module `name`.
    pub fn remove(&mut self, name: &str)
        ensures
            final(self)@ == old(self)@.remove(name@),
    {
        let mut old_entries: Vec<(String, ModuleState)> = Vec::new();
        std::mem::swap(&mut old_entries, &mut self.entries);
        let ghost all = old_entries@;
        let mut kept: Vec<(String, ModuleState)> = Vec::new();
        for e in it: old_entries.into_iter()
            invariant
                it.seq() == all,
                entries_table(kept@) == entries_table(all.take(it.index())).remove(name@),
        {
            proof {
                assert(all.take(it.index() + 1).drop_last() == all.take(it.index()));
            }
            let ghost before = kept@;
            if !str_eq(e.0.as_str(), name) {
                kept.push(e);
                proof {
                    assert(kept@.drop_last() == before);
                    assert(entries_table(kept@) =~= entries_table(all.take(it.index() + 1)).remove(name@));
                }
            } else {
                proof {
                    assert(entries_table(kept@) =~= entries_table(all.take(it.index() + 1)).remove(name@));
                }
            }
        }
        proof {
            assert(all.take(all.len() as int) == all);
        }
        self.entries = kept;
    }

    /// Records `state` for module `name`.
    pub fn set(&mut self, name: &str, state: ModuleState)
        ensures
            final(self)@ == old(self)@.insert(name@, state),
    {
        self.remove(name);
        let ghost before = self.entries@;
        self.entries.push((name.to_owned(), state));
        proof {
            assert(self.entries@.drop_last() == before);
            assert(entries_table(self.entries@) =~= old(self)@.remove(name@).insert(name@, state));
        }
    }
}

} // verus!
