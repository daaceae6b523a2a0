//! Entry identity: the 64-bit digest that defines duplicate detection and
//! emission order.
//!
//! The high 32 bits hold the entry's resolved timestamp truncated to 32 bits
//! (published if present, else updated, else zero); the low 32 bits hold a
//! truncated SHA-512 digest of the entry's identifier.

use vstd::prelude::*;
use std::hash::Hasher;

use crate::entry::Entry;
use crate::entry::EntryView;

verus! {

/// The 64-bit SHA-512 digest of the UTF-8 bytes of a string, as
/// `rs_sha512`'s hasher computes it.
pub uninterp spec fn sha512_id_of(s: Seq<char>) -> u64;

/// Relies on rs_sha512's `Sha512Hasher` (through `std::hash::Hasher`):
/// the finished 64-bit value is a pure function of the bytes written,
/// here the UTF-8 bytes of `s`.
#[verifier::external_body]
fn sha512_id(s: &str) -> (r: u64)
    ensures
        r == sha512_id_of(s@),
{
    let mut h = rs_sha512::Sha512Hasher::default();
    h.write(s.as_bytes());
    h.finish()
}

/// A timestamp reduced to its low 32 bits, the value the digest's high half
/// carries.
pub open spec fn trunc32(t: i64) -> u64 {
    (t & 0xFFFF_FFFFi64) as u64
}

/// The timestamp that identifies an entry: published if present, else
/// updated if present.
pub open spec fn resolved_ts(e: EntryView) -> Option<i64> {
    if e.published is Some {
        e.published
    } else {
        e.updated
    }
}

/// The high half of the digest: the resolved timestamp truncated to 32 bits,
/// or zero for an undated entry.
pub open spec fn ts_part(e: EntryView) -> u64 {
    match resolved_ts(e) {
        Some(t) => trunc32(t),
        None => 0u64,
    }
}

/// The low half of the digest: the identifier's hash truncated to 32 bits.
pub open spec fn id_part(e: EntryView) -> u64 {
    sha512_id_of(e.id) & 0xFFFF_FFFFu64
}

/// The digest of an entry: timestamp in the high 32 bits, identifier hash in
/// the low 32 bits.
pub open spec fn digest_of(e: EntryView) -> u64 {
    (ts_part(e) << 32u64) | id_part(e)
}

proof fn lemma_trunc32_bounds(t: i64)
    ensures
        trunc32(t) < 0x1_0000_0000u64,
{
    assert(0i64 <= (t & 0xFFFF_FFFFi64) < 0x1_0000_0000i64) by (bit_vector);
}

proof fn lemma_id_part_bounds(e: EntryView)
    ensures
        id_part(e) < 0x1_0000_0000u64,
{
    let h = sha512_id_of(e.id);
    assert((h & 0xFFFF_FFFFu64) < 0x1_0000_0000u64) by (bit_vector);
}

/// Compute the digest of an entry.
pub fn digest(e: &Entry) -> (d: u64)
    ensures
        d == digest_of(e@),
{
    let t: i64 = match e.published {
        Some(v) => v,
        None => match e.updated {
            Some(v) => v,
            None => 0,
        },
    };
    proof {
        assert(0i64 <= (t & 0xFFFF_FFFFi64) < 0x1_0000_0000i64) by (bit_vector);
        assert(0i64 & 0xFFFF_FFFFi64 == 0i64) by (bit_vector);
    }
    let hi: u64 = (t & 0xFFFF_FFFF) as u64;
    let lo: u64 = sha512_id(e.id.as_str()) & 0xFFFF_FFFF;
    (hi << 32) | lo
}

/// Two entries with the same identifier and the same resolved timestamp have
/// the same digest, so the second of them is rejected as a duplicate.
pub proof fn lemma_digest_same(a: EntryView, b: EntryView)
    requires
        a.id == b.id,
        resolved_ts(a) == resolved_ts(b),
    ensures
        digest_of(a) == digest_of(b),
{
}

/// Two entries with the same identifier but different resolved timestamps
/// have different digests, so both are accepted.  Timestamps are compared
/// after truncation to 32 bits, so both must lie in the 32-bit range; two
/// timestamps exactly `0x1_0000_0000` seconds apart would collide.
pub proof fn lemma_digest_distinct(a: EntryView, b: EntryView, t1: i64, t2: i64)
    requires
        a.id == b.id,
        resolved_ts(a) == Some(t1),
        resolved_ts(b) == Some(t2),
        t1 != t2,
        0 <= t1 < 0x1_0000_0000i64,
        0 <= t2 < 0x1_0000_0000i64,
    ensures
        digest_of(a) != digest_of(b),
{
    let xa = ts_part(a);
    let xb = ts_part(b);
    let la = id_part(a);
    let lb = id_part(b);
    assert(t1 & 0xFFFF_FFFFi64 == t1 && t2 & 0xFFFF_FFFFi64 == t2) by (bit_vector)
        requires
            0 <= t1 < 0x1_0000_0000i64,
            0 <= t2 < 0x1_0000_0000i64,
    ;
    assert(la == lb);
    assert(xa != xb);
    lemma_trunc32_bounds(t1);
    lemma_trunc32_bounds(t2);
    lemma_id_part_bounds(a);
    lemma_id_part_bounds(b);
    assert((xa << 32u64) | la != (xb << 32u64) | lb) by (bit_vector)
        requires
            xa != xb,
            xa < 0x1_0000_0000u64,
            xb < 0x1_0000_0000u64,
            la < 0x1_0000_0000u64,
            lb < 0x1_0000_0000u64,
            la == lb,
    ;
}

/// Digest order follows timestamp order: an entry whose resolved timestamp
/// is strictly smaller (both within the 32-bit range) has a strictly smaller
/// digest, whatever the two identifiers are.
pub proof fn lemma_digest_monotonic(a: EntryView, b: EntryView, t1: i64, t2: i64)
    requires
        resolved_ts(a) == Some(t1),
        resolved_ts(b) == Some(t2),
        0 <= t1 < t2 < 0x1_0000_0000i64,
    ensures
        digest_of(a) < digest_of(b),
{
    let xa = ts_part(a);
    let xb = ts_part(b);
    let la = id_part(a);
    let lb = id_part(b);
    assert((t1 & 0xFFFF_FFFFi64) == t1 && (t2 & 0xFFFF_FFFFi64) == t2 && (t1 as u64) < (
    t2 as u64)) by (bit_vector)
        requires
            0 <= t1 < t2 < 0x1_0000_0000i64,
    ;
    lemma_id_part_bounds(a);
    lemma_id_part_bounds(b);
    assert((xa << 32u64) | la < (xb << 32u64) | lb) by (bit_vector)
        requires
            xa < xb,
            xb < 0x1_0000_0000u64,
            la < 0x1_0000_0000u64,
            lb < 0x1_0000_0000u64,
    ;
}

} // verus!
