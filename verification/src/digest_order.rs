//! Equality and order of digests: two digests are equal when they hold the
//! same bytes, and they are ordered as their byte strings are,
//! lexicographically (a proper prefix comes first).

use vstd::prelude::*;
use core::cmp::Ordering;
use vstd::std_specs::cmp::{PartialEqSpec, PartialOrdSpec};
use crate::types::HashDigest;

verus! {

/// The lexicographic order of two byte strings: the first differing byte
/// decides, and where one string is a prefix of the other, the shorter
/// comes first.
pub open spec fn bytes_order(a: Seq<u8>, b: Seq<u8>) -> Ordering
    decreases a.len(),
{
    if a.len() == 0 {
        if b.len() == 0 {
            Ordering::Equal
        } else {
            Ordering::Less
        }
    } else if b.len() == 0 {
        Ordering::Greater
    } else if a[0] < b[0] {
        Ordering::Less
    } else if a[0] > b[0] {
        Ordering::Greater
    } else {
        bytes_order(a.drop_first(), b.drop_first())
    }
}

/// Two byte strings are in order `Equal` exactly when they are the same,
/// and swapping them reverses the order.
pub proof fn lemma_bytes_order_equal_and_reversed(a: Seq<u8>, b: Seq<u8>)
    ensures
        (bytes_order(a, b) == Ordering::Equal) <==> (a == b),
        (bytes_order(a, b) == Ordering::Less) <==> (bytes_order(b, a) == Ordering::Greater),
    decreases a.len(),
{
    if a.len() > 0 && b.len() > 0 && a[0] == b[0] {
        lemma_bytes_order_equal_and_reversed(a.drop_first(), b.drop_first());
        if a.drop_first() == b.drop_first() {
            assert(a =~= seq![a[0]] + a.drop_first());
            assert(b =~= seq![b[0]] + b.drop_first());
        }
    } else if a.len() > 0 && b.len() > 0 {
        assert(a[0] != b[0]);
    } else if a.len() == 0 && b.len() > 0 {
        assert(a != b);
    } else if a.len() > 0 {
        assert(a != b);
    } else {
        assert(a =~= b);
    }
}

/// The bytes of `s` from position `i` on.
pub open spec fn suffix_from(s: Seq<u8>, i: usize) -> Seq<u8> {
    s.skip(i as int)
}

/// The first byte at which two byte strings differ decides their order, as
/// unsigned numbers: the string with the smaller byte there comes first.
pub proof fn lemma_bytes_order_first_difference(a: Seq<u8>, b: Seq<u8>, i: int)
    requires
        0 <= i < a.len(),
        i < b.len(),
        a.take(i) == b.take(i),
        a[i] != b[i],
    ensures
        (bytes_order(a, b) == Ordering::Less) <==> (a[i] < b[i]),
        (bytes_order(a, b) == Ordering::Greater) <==> (a[i] > b[i]),
    decreases i,
{
    if i > 0 {
        assert(a[0] == a.take(i)[0]);
        assert(b[0] == b.take(i)[0]);
        assert(a.drop_first().take(i - 1) =~= a.take(i).drop_first());
        assert(b.drop_first().take(i - 1) =~= b.take(i).drop_first());
        lemma_bytes_order_first_difference(a.drop_first(), b.drop_first(), i - 1);
    }
}

/// Whether `s` begins with `prefix`.
pub open spec fn begins_with(s: Seq<u8>, prefix: Seq<u8>) -> bool {
    prefix.len() <= s.len() && s.take(prefix.len() as int) == prefix
}

/// A proper prefix comes before every longer string that begins with it.
pub proof fn lemma_bytes_order_prefix_first(a: Seq<u8>, b: Seq<u8>)
    requires
        a.len() < b.len(),
        begins_with(b, a),
    ensures
        bytes_order(a, b) == Ordering::Less,
        bytes_order(b, a) == Ordering::Greater,
    decreases a.len(),
{
    if a.len() > 0 {
        assert(a[0] == b[0]);
        assert(begins_with(b.drop_first(), a.drop_first())) by {
            assert forall|k: int| 0 <= k < a.len() - 1 implies b.drop_first()[k] == a.drop_first()[k] by {
                assert(b[k + 1] == a[k + 1]);
            }
            assert(b.drop_first().take(a.len() - 1) =~= a.drop_first());
        }
        lemma_bytes_order_prefix_first(a.drop_first(), b.drop_first());
    }
}

impl PartialEq for HashDigest {
    fn eq(&self, other: &Self) -> (equal: bool) {
        let a = self.as_bytes();
        let b = other.as_bytes();
        if a.len() != b.len() {
            return false;
        }
        let mut i: usize = 0;
        while i < a.len()
            invariant
                a@ == self@,
                b@ == other@,
                a.len() == b.len(),
                i <= a.len(),
                forall|j: int| 0 <= j < i ==> a@[j] == b@[j],
            decreases a.len() - i,
        {
            if a[i] != b[i] {
                return false;
            }
            i = i + 1;
        }
        assert(a@ =~= b@);
        true
    }
}

impl vstd::std_specs::cmp::PartialEqSpecImpl for HashDigest {
    open spec fn obeys_eq_spec() -> bool {
        true
    }

    open spec fn eq_spec(&self, other: &HashDigest) -> bool {
        self@ == other@
    }
}

impl PartialOrd for HashDigest {
    fn partial_cmp(&self, other: &Self) -> (order: Option<Ordering>) {
        let a = self.as_bytes();
        let b = other.as_bytes();
        let mut i: usize = 0;
        assert(suffix_from(a@, 0) =~= a@);
        assert(suffix_from(b@, 0) =~= b@);
        while i < a.len() && i < b.len()
            invariant
                a@ == self@,
                b@ == other@,
                i <= a.len(),
                i <= b.len(),
                bytes_order(a@, b@) == bytes_order(suffix_from(a@, i), suffix_from(b@, i)),
            decreases a.len() - i,
        {
            if a[i] < b[i] {
                return Some(Ordering::Less);
            }
            if a[i] > b[i] {
                return Some(Ordering::Greater);
            }
            assert(suffix_from(a@, i).drop_first() =~= a@.skip(i + 1));
            assert(suffix_from(b@, i).drop_first() =~= b@.skip(i + 1));
            i = i + 1;
        }
        if a.len() == b.len() {
            Some(Ordering::Equal)
        } else if a.len() < b.len() {
            Some(Ordering::Less)
        } else {
            Some(Ordering::Greater)
        }
    }
}

impl vstd::std_specs::cmp::PartialOrdSpecImpl for HashDigest {
    open spec fn obeys_partial_cmp_spec() -> bool {
        true
    }

    open spec fn partial_cmp_spec(&self, other: &HashDigest) -> Option<Ordering> {
        Some(bytes_order(self@, other@))
    }
}

/// Digests compare as their bytes do: `==` holds exactly when the bytes are
/// the same, `partial_cmp` gives the bytes' lexicographic order, that order
/// is `Equal` exactly when `==` holds, and swapping the digests reverses it.
pub proof fn lemma_digest_comparison_follows_bytes(a: HashDigest, b: HashDigest)
    ensures
        a.eq_spec(&b) <==> (a@ == b@),
        a.partial_cmp_spec(&b) == Some(bytes_order(a@, b@)),
        (bytes_order(a@, b@) == Ordering::Equal) <==> a.eq_spec(&b),
        (bytes_order(a@, b@) == Ordering::Less) <==> (bytes_order(b@, a@) == Ordering::Greater),
{
    lemma_bytes_order_equal_and_reversed(a@, b@);
}

/// Digests are ordered by their first differing byte, compared as an
/// unsigned number, and a digest whose bytes are a proper prefix of
/// another's comes first.
pub proof fn lemma_digest_order_by_bytes(a: HashDigest, b: HashDigest, i: int)
    ensures
        (0 <= i < a@.len() && i < b@.len() && a@.take(i) == b@.take(i) && a@[i] < b@[i]) ==> (
            a.partial_cmp_spec(&b) == Some(Ordering::Less)
            && b.partial_cmp_spec(&a) == Some(Ordering::Greater)),
        (0 <= i < a@.len() && i < b@.len() && a@.take(i) == b@.take(i) && a@[i] > b@[i]) ==> (
            a.partial_cmp_spec(&b) == Some(Ordering::Greater)
            && b.partial_cmp_spec(&a) == Some(Ordering::Less)),
        (a@.len() < b@.len() && begins_with(b@, a@)) ==> (
            a.partial_cmp_spec(&b) == Some(Ordering::Less)
            && b.partial_cmp_spec(&a) == Some(Ordering::Greater)),
{
    if 0 <= i < a@.len() && i < b@.len() && a@.take(i) == b@.take(i) && a@[i] != b@[i] {
        lemma_bytes_order_first_difference(a@, b@, i);
        lemma_bytes_order_first_difference(b@, a@, i);
    }
    if a@.len() < b@.len() && begins_with(b@, a@) {
        lemma_bytes_order_prefix_first(a@, b@);
    }
}

} // verus!
