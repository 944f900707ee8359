//! The connection registry: which outbound sink currently answers to a peer
//! identifier.

use vstd::hash_map::StringHashMap;
use vstd::prelude::*;

verus! {

/// Handle of one connection's outbound queue.
pub type SinkId = u64;

/// Mapping from peer identifier to the sink of the connection that last
/// registered under it.
pub struct Registry {
    entries: StringHashMap<SinkId>,
}

impl View for Registry {
    type V = Map<Seq<char>, SinkId>;

    closed spec fn view(&self) -> Map<Seq<char>, SinkId> {
        self.entries@
    }
}

impl Registry {
    /// A registry without entries.
    pub fn new() -> (registry: Registry)
        ensures
            registry@ == Map::<Seq<char>, SinkId>::empty(),
    {
        Registry { entries: StringHashMap::new() }
    }

    /// Inserts the entry for `id`, replacing an earlier one: the last writer wins.
    pub fn register(&mut self, id: &str, sink: SinkId)
        ensures
            final(self)@ == old(self)@.insert(id@, sink),
    {
        self.entries.insert(String::from_str(id), sink);
    }

    /// The sink currently registered for `id`, if any.
    pub fn lookup(&self, id: &str) -> (found: Option<SinkId>)
        ensures
            found == (if self@.contains_key(id@) {
                Some(self@[id@])
            } else {
                None
            }),
    {
        match self.entries.get(id) {
            Some(sink) => Some(*sink),
            None => None,
        }
    }

    /// Deletes the entry for `id`; without one the registry stays as it is.
    pub fn remove(&mut self, id: &str)
        ensures
            final(self)@ == old(self)@.remove(id@),
    {
        self.entries.remove(id);
    }
}

} // verus!
