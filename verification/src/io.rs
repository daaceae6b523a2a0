//! Capabilities for retrieving and storing whole feeds.
//!
//! The engine only consumes parsed feeds; implementations of these traits
//! (a filesystem reader, for one) live with the surrounding program, which
//! owns the I/O.

use vstd::prelude::*;

use crate::entry::Feed;

verus! {

/// How a feed source is accessed.
pub enum FeedMethod {
    Read,
    Create,
    Update,
}

/// A source that can produce a parsed feed for a location string.
pub trait FeedGet {
    fn get(&self, s: &str, method: Option<FeedMethod>) -> Result<Feed, u64>;
}

/// A sink that can store a feed under a location string.
pub trait FeedPut {
    fn put(&self, feed: &Feed, s: &str, method: Option<FeedMethod>) -> u64;
}

/// An identifier's bytes with both path separators percent-escaped, so that
/// a filesystem staging store keeps one file per entry and no identifier
/// can climb out of the store's directory.
pub open spec fn spec_escape_path(b: Seq<u8>) -> Seq<u8>
    decreases b.len(),
{
    if b.len() == 0 {
        Seq::empty()
    } else {
        let rest = spec_escape_path(b.drop_first());
        if b.first() == 47u8 {
            seq![37u8, 50u8, 70u8] + rest
        } else if b.first() == 92u8 {
            seq![37u8, 53u8, 67u8] + rest
        } else {
            seq![b.first()] + rest
        }
    }
}

/// Escape an identifier's bytes for use as a file name: `/` becomes `%2F`
/// and `\` becomes `%5C`; every other byte passes through.  Only ASCII
/// bytes are inserted, so escaping valid UTF-8 yields valid UTF-8.
pub fn escape_path_id(b: &[u8]) -> (r: Vec<u8>)
    ensures
        r@ == spec_escape_path(b@),
{
    let mut r: Vec<u8> = Vec::new();
    let mut i: usize = 0;
    proof {
        assert(b@.skip(0) =~= b@);
    }
    while i < b.len()
        invariant
            i <= b@.len(),
            spec_escape_path(b@) =~= r@ + spec_escape_path(b@.skip(i as int)),
        decreases b@.len() - i,
    {
        proof {
            assert(b@.skip(i as int).first() == b@[i as int]);
            assert(b@.skip(i as int).drop_first() =~= b@.skip(i + 1));
        }
        let c: u8 = b[i];
        if c == 47 {
            r.push(37);
            r.push(50);
            r.push(70);
        } else if c == 92 {
            r.push(37);
            r.push(53);
            r.push(67);
        } else {
            r.push(c);
        }
        i = i + 1;
        proof {
            assert(spec_escape_path(b@) =~= r@ + spec_escape_path(b@.skip(i as int)));
        }
    }
    proof {
        assert(b@.skip(b@.len() as int).len() == 0);
        assert(spec_escape_path(b@) =~= r@);
    }
    r
}

} // verus!
