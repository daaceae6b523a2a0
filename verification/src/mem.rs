//! The in-memory staging store: byte buffers held in an association list
//! from identifier to buffer.  `close` is a no-op, so staged bytes survive
//! for later read-back; nothing is ever deleted.

use vstd::prelude::*;

use crate::cache::Cache;

verus! {

/// A growable in-memory byte sink.
pub struct CacheWriter {
    data: Vec<u8>,
}

impl View for CacheWriter {
    type V = Seq<u8>;

    closed spec fn view(&self) -> Seq<u8> {
        self.data@
    }
}

impl CacheWriter {
    /// A fresh, empty sink.
    pub fn new() -> (r: CacheWriter)
        ensures
            r@ == Seq::<u8>::empty(),
    {
        CacheWriter { data: Vec::new() }
    }

    /// Append the buffer to the sink and report the sink's total length,
    /// not the count consumed by this call.
    pub fn write(&mut self, buf: &[u8]) -> (n: usize)
        ensures
            final(self)@ == old(self)@ + buf@,
            n == final(self)@.len(),
    {
        proof {
            assert(self@ =~= self@ + buf@.subrange(0, 0));
        }
        let mut i: usize = 0;
        while i < buf.len()
            invariant
                i <= buf@.len(),
                self@ == old(self)@ + buf@.subrange(0, i as int),
            decreases buf@.len() - i,
        {
            self.data.push(buf[i]);
            i = i + 1;
            proof {
                assert(self@ =~= old(self)@ + buf@.subrange(0, i as int));
            }
        }
        proof {
            assert(buf@.subrange(0, buf@.len() as int) =~= buf@);
        }
        self.data.len()
    }

    /// Flushing an in-memory sink does nothing.
    pub fn flush(&self) {
    }
}

/// The in-memory staging store.
pub struct MemCache {
    files: Vec<(String, CacheWriter)>,
}

/// The map an association list of sinks stands for; on a repeated
/// identifier the later binding wins.
pub closed spec fn assoc_contents(s: Seq<(String, CacheWriter)>) -> Map<Seq<char>, Seq<u8>>
    decreases s.len(),
{
    if s.len() == 0 {
        Map::empty()
    } else {
        assoc_contents(s.drop_last()).insert(s.last().0@, s.last().1@)
    }
}

proof fn lemma_assoc_contents_absent(s: Seq<(String, CacheWriter)>, k: Seq<char>)
    requires
        forall|j: int| 0 <= j < s.len() ==> s[j].0@ != k,
    ensures
        !assoc_contents(s).contains_key(k),
    decreases s.len(),
{
    if s.len() > 0 {
        lemma_assoc_contents_absent(s.drop_last(), k);
    }
}

proof fn lemma_assoc_contents_present(s: Seq<(String, CacheWriter)>, k: Seq<char>)
    requires
        exists|j: int| 0 <= j < s.len() && s[j].0@ == k,
    ensures
        assoc_contents(s).contains_key(k),
    decreases s.len(),
{
    if s.last().0@ != k {
        let j = choose|j: int| 0 <= j < s.len() && s[j].0@ == k;
        assert(s.drop_last()[j].0@ == k);
        lemma_assoc_contents_present(s.drop_last(), k);
    }
}

impl MemCache {
    /// A fresh store with no sinks.
    pub fn new() -> (r: MemCache)
        ensures
            r.contents() == Map::<Seq<char>, Seq<u8>>::empty(),
    {
        let r = MemCache { files: Vec::new() };
        proof {
            assert(r.contents() =~= Map::<Seq<char>, Seq<u8>>::empty());
        }
        r
    }
}

impl Cache for MemCache {
    open spec fn modeled(&self) -> bool {
        true
    }

    closed spec fn contents(&self) -> Map<Seq<char>, Seq<u8>> {
        assoc_contents(self.files@)
    }

    fn open(&mut self, id: String) {
        let mut i: usize = 0;
        while i < self.files.len()
            invariant
                i <= self.files@.len(),
                *self == *old(self),
                forall|j: int| 0 <= j < i ==> self.files@[j].0@ != id@,
            decreases self.files@.len() - i,
        {
            if self.files[i].0 == id {
                proof {
                    assert(self.files@[i as int].0@ == id@);
                    lemma_assoc_contents_present(self.files@, id@);
                }
                return ;
            }
            i = i + 1;
        }
        proof {
            lemma_assoc_contents_absent(self.files@, id@);
        }
        let w = CacheWriter::new();
        self.files.push((id, w));
        proof {
            assert(self.files@.drop_last() =~= old(self).files@);
            assert(self.contents() =~= old(self).contents().insert(
                self.files@.last().0@,
                self.files@.last().1@,
            ));
        }
    }

    /// Closing retains the sink and its bytes for later read-back: the
    /// in-memory store never deletes, and the result is always zero.
    fn close(&mut self, _id: String) -> (r: usize)
        ensures
            *final(self) == *old(self),
            r == 0,
    {
        0
    }
}

} // verus!
