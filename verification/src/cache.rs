//! The staging-store capability: a sink per entry identifier with an
//! open/close lifecycle.
//!
//! The sequencer opens a store sink around each accepted entry and closes it
//! afterwards; whether a closed sink is retained (in-memory store) or
//! dropped (filesystem store) is the implementation's choice.

use vstd::prelude::*;

verus! {

/// A store's contents after a sink for `id` has been opened: an existing
/// sink keeps its bytes, a fresh one starts empty, and no other sink is
/// touched.
pub open spec fn opened_contents(m: Map<Seq<char>, Seq<u8>>, id: Seq<char>) -> Map<
    Seq<char>,
    Seq<u8>,
> {
    if m.contains_key(id) {
        m
    } else {
        m.insert(id, Seq::empty())
    }
}

/// A staging store: associates an opaque per-entry identifier with a
/// writable byte sink and a lifecycle.
pub trait Cache {
    /// Whether this store describes its contents.  A verified store
    /// overrides this with `true` and gives `contents` a real body; a store
    /// outside the verified library may keep the defaults, and then nothing
    /// is promised of it.
    open spec fn modeled(&self) -> bool {
        false
    }

    /// The staged contents: the bytes held under each open identifier.
    /// Meaningful only where `modeled` holds.
    open spec fn contents(&self) -> Map<Seq<char>, Seq<u8>> {
        Map::empty()
    }

    /// Open the sink for `id`.  Opening is idempotent: an existing sink
    /// keeps its bytes, a fresh one starts empty, and no other sink is
    /// touched.
    fn open(&mut self, id: String)
        ensures
            final(self).modeled() == old(self).modeled(),
            old(self).modeled() ==> final(self).contents() == opened_contents(
                old(self).contents(),
                id@,
            ),
    ;

    /// Release the resources held for `id`; a no-op if `id` was never
    /// opened.  The sink for `id` is either retained unchanged or dropped,
    /// the implementation's choice; no sink is ever rewritten and no other
    /// sink is touched.
    fn close(&mut self, id: String) -> (r: usize)
        ensures
            final(self).modeled() == old(self).modeled(),
            old(self).modeled() ==> (final(self).contents() == old(self).contents()
                || final(self).contents() == old(self).contents().remove(id@)),
    ;
}

} // verus!
