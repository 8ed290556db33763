//! Endorsing rights by level: asked for once, kept as first delivered.

use vstd::prelude::*;
use std::collections::HashMap;
use crate::hash::{BlockHash, Level};
use crate::operation::EndorsingRights;

verus! {

broadcast use vstd::std_specs::hash::group_hash_axioms;

/// What the cache knows of one level.
#[derive(Debug)]
pub enum RightsEntry {
    Requested,
    Ready(EndorsingRights),
}

#[derive(Debug)]
pub struct EndorsingRightsCache {
    pub levels: HashMap<Level, RightsEntry>,
}

impl View for EndorsingRightsCache {
    type V = Map<Level, RightsEntry>;

    open spec fn view(&self) -> Map<Level, RightsEntry> {
        self.levels@
    }
}

impl EndorsingRightsCache {
    /// The rights of `level` are in the cache.
    pub open spec fn ready(&self, level: Level) -> bool {
        self@.contains_key(level) && self@[level] is Ready
    }

    /// Rights are held under the level that they are for.
    pub open spec fn wf(&self) -> bool {
        forall|level: Level| #[trigger] self.ready(level) ==> self@[level]->Ready_0.level == level
    }

    pub fn new() -> (cache: Self)
        ensures
            cache.wf(),
            cache@ == Map::<Level, RightsEntry>::empty(),
    {
        EndorsingRightsCache { levels: HashMap::new() }
    }

    /// The rights of `level`, once they were delivered.
    pub fn get(&self, level: Level) -> (rights: Option<&EndorsingRights>)
        ensures
            match rights {
                Some(r) => self.ready(level) && self@[level] == RightsEntry::Ready(*r)
                    && (self.wf() ==> r.level == level),
                None => !self.ready(level),
            },
    {
        let found = self.levels.get(&level);
        assert(self.wf() && self.ready(level) ==> self@[level]->Ready_0.level == level);
        match found {
            Some(RightsEntry::Ready(rights)) => Some(rights),
            _ => None,
        }
    }

    /// Notes that the rights of `level` are wanted. True where a fetch has
    /// to start: the level was neither asked for nor delivered before.
    pub fn request(&mut self, level: Level) -> (start: bool)
        requires
            old(self).wf(),
        ensures
            final(self).wf(),
            start == !old(self)@.contains_key(level),
            start ==> final(self)@ == old(self)@.insert(level, RightsEntry::Requested),
            !start ==> *final(self) == *old(self),
    {
        if self.levels.contains_key(&level) {
            false
        } else {
            self.levels.insert(level, RightsEntry::Requested);
            assert forall|l: Level| #[trigger] self.ready(l) implies self@[l]->Ready_0.level == l by {
                assert(old(self).ready(l));
            }
            true
        }
    }

    /// Asks ahead of need for the rights of a level that is expected next,
    /// as seen from `current_head`. True where a fetch has to start.
    pub fn precache(&mut self, current_head: &BlockHash, level: Level) -> (start: bool)
        requires
            old(self).wf(),
        ensures
            final(self).wf(),
            start == !old(self)@.contains_key(level),
            start ==> final(self)@ == old(self)@.insert(level, RightsEntry::Requested),
            !start ==> *final(self) == *old(self),
    {
        self.request(level)
    }

    /// Stores rights as delivered. Rights that the cache already holds for
    /// that level stay as they are.
    pub fn deliver(&mut self, rights: EndorsingRights) -> (stored: bool)
        requires
            old(self).wf(),
        ensures
            final(self).wf(),
            stored == !old(self).ready(rights.level),
            stored ==> final(self)@ == old(self)@.insert(rights.level, RightsEntry::Ready(rights)),
            !stored ==> *final(self) == *old(self),
    {
        let level: Level = rights.level;
        if self.get(level).is_some() {
            false
        } else {
            self.levels.insert(level, RightsEntry::Ready(rights));
            assert forall|l: Level| #[trigger] self.ready(l) implies self@[l]->Ready_0.level == l by {
                if l != level {
                    assert(old(self).ready(l));
                }
            }
            true
        }
    }

    /// Forgets what is known of `level`.
    pub fn evict(&mut self, level: Level)
        requires
            old(self).wf(),
        ensures
            final(self).wf(),
            final(self)@ == old(self)@.remove(level),
    {
        self.levels.remove(&level);
        assert forall|l: Level| #[trigger] self.ready(l) implies self@[l]->Ready_0.level == l by {
            assert(old(self).ready(l));
        }
    }
}

} // verus!
