//! Fixed-width 256-bit digests and their byte-wise order.

use vstd::prelude::*;

verus! {

/// A 256-bit value, kept as its 32 raw bytes.
#[derive(Clone, Copy, Debug, PartialEq, Eq)]
pub struct H256(pub [u8; 32]);

impl View for H256 {
    type V = Seq<u8>;

    open spec fn view(&self) -> Seq<u8> {
        self.0@
    }
}

/// `i` is the first position at which `a` and `b` hold different bytes.
pub open spec fn first_difference(a: Seq<u8>, b: Seq<u8>, i: int) -> bool {
    &&& 0 <= i < a.len()
    &&& i < b.len()
    &&& a[i] != b[i]
    &&& forall|j: int| 0 <= j < i ==> a[j] == b[j]
}

/// Unsigned lexicographic order on byte strings of one length: `a` is below
/// `b` when, at the first position where they differ, `a` holds the smaller
/// byte.
pub open spec fn lex_less(a: Seq<u8>, b: Seq<u8>) -> bool {
    exists|i: int| #[trigger] first_difference(a, b, i) && a[i] < b[i]
}

proof fn lemma_difference_from(a: Seq<u8>, b: Seq<u8>, k: int)
    requires
        a.len() == b.len(),
        a != b,
        0 <= k <= a.len(),
        forall|j: int| 0 <= j < k ==> a[j] == b[j],
    ensures
        exists|i: int| first_difference(a, b, i),
    decreases a.len() - k,
{
    if k == a.len() {
        assert(a =~= b);
    } else if a[k] != b[k] {
        assert(first_difference(a, b, k));
    } else {
        lemma_difference_from(a, b, k + 1);
    }
}

/// Two byte strings differ first at one position only.
pub proof fn lemma_first_difference_unique(a: Seq<u8>, b: Seq<u8>, i: int, k: int)
    requires
        first_difference(a, b, i),
        first_difference(a, b, k),
    ensures
        i == k,
{
    if i < k {
        assert(a[i] == b[i]);
    } else if k < i {
        assert(a[k] == b[k]);
    }
}

/// The byte-wise order is a strict total order on byte strings of one
/// length: of two different strings exactly one is below the other, and no
/// string is below itself.
pub proof fn lemma_lex_less_total(a: Seq<u8>, b: Seq<u8>)
    requires
        a.len() == b.len(),
    ensures
        a == b ==> !lex_less(a, b) && !lex_less(b, a),
        a != b ==> (lex_less(a, b) <==> !lex_less(b, a)),
{
    if a != b {
        lemma_difference_from(a, b, 0);
        let i = choose|i: int| first_difference(a, b, i);
        assert(first_difference(b, a, i));
        if lex_less(a, b) {
            let k = choose|k: int| #[trigger] first_difference(a, b, k) && a[k] < b[k];
            lemma_first_difference_unique(a, b, i, k);
            if lex_less(b, a) {
                let m = choose|m: int| #[trigger] first_difference(b, a, m) && b[m] < a[m];
                assert(first_difference(a, b, m));
                lemma_first_difference_unique(a, b, i, m);
            }
        } else {
            assert(!(a[i] < b[i]));
            assert(first_difference(b, a, i) && b[i] < a[i]);
        }
    }
}

impl H256 {
    /// The digest whose bytes are all zero.
    pub fn zero() -> (h: H256)
        ensures
            h@ == Seq::new(32, |i: int| 0u8),
    {
        let h = H256([0u8; 32]);
        assert(h@ =~= Seq::new(32, |i: int| 0u8));
        h
    }

    /// Whether two digests hold the same 32 bytes.
    pub fn same(&self, other: &H256) -> (r: bool)
        ensures
            r == (*self == *other),
            r == (self@ == other@),
    {
        let mut i: usize = 0;
        while i < 32
            invariant
                0 <= i <= 32,
                forall|j: int| 0 <= j < i ==> self.0[j] == other.0[j],
            decreases 32 - i,
        {
            if self.0[i] != other.0[i] {
                assert(self@[i as int] != other@[i as int]);
                return false;
            }
            i = i + 1;
        }
        assert(self.0 =~= other.0);
        true
    }

    /// Appends the 32 bytes of the digest to `buffer`.
    pub fn append_to(&self, buffer: &mut Vec<u8>)
        ensures
            final(buffer)@ == old(buffer)@ + self@,
    {
        let mut i: usize = 0;
        while i < 32
            invariant
                0 <= i <= 32,
                buffer@ == old(buffer)@ + self@.take(i as int),
            decreases 32 - i,
        {
            buffer.push(self.0[i]);
            assert(self@.take(i + 1) == self@.take(i as int).push(self@[i as int]));
            i = i + 1;
        }
        assert(self@.take(32) == self@);
    }

    /// Whether `self` comes strictly before `other` in byte-wise order.
    pub fn less_than(&self, other: &H256) -> (r: bool)
        ensures
            r == lex_less(self@, other@),
    {
        let mut i: usize = 0;
        while i < 32
            invariant
                0 <= i <= 32,
                forall|j: int| 0 <= j < i ==> self@[j] == other@[j],
            decreases 32 - i,
        {
            if self.0[i] != other.0[i] {
                let below = self.0[i] < other.0[i];
                proof {
                    assert(first_difference(self@, other@, i as int));
                    assert forall|k: int| first_difference(self@, other@, k) implies k == i by {
                        if k < i {
                            assert(self@[k] == other@[k]);
                        } else if k > i {
                            assert(self@[i as int] == other@[i as int]);
                        }
                    }
                }
                return below;
            }
            i = i + 1;
        }
        proof {
            assert forall|k: int| !first_difference(self@, other@, k) by {
                if 0 <= k < 32 {
                    assert(self@[k] == other@[k]);
                }
            }
        }
        false
    }
}

} // verus!
