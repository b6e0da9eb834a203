//! The order of strings: byte by byte over their UTF-8 encoding, as the
//! standard library orders `str`.

use crate::text::lemma_encode_injective;
use vstd::prelude::*;
use vstd::string::*;
use vstd::utf8::*;

verus! {

/// How one value stands to another in an order.
#[derive(Debug, Clone, Copy, PartialEq, Eq, Structural)]
pub enum Rank {
    /// The first comes before the second.
    Before,
    /// The two are the same.
    Same,
    /// The first comes after the second.
    After,
}

/// `a` comes before `b` in the lexicographic order of byte sequences.
pub open spec fn bytes_lt(a: Seq<u8>, b: Seq<u8>) -> bool
    decreases a.len(),
{
    if a.len() == 0 {
        b.len() > 0
    } else if b.len() == 0 {
        false
    } else if a[0] != b[0] {
        a[0] < b[0]
    } else {
        bytes_lt(a.drop_first(), b.drop_first())
    }
}

/// `a` comes before `b` in the order of strings.
pub open spec fn text_lt(a: Seq<char>, b: Seq<char>) -> bool {
    bytes_lt(encode_utf8(a), encode_utf8(b))
}

/// Of two byte sequences exactly one holds: they are equal, the first comes
/// before the second, or the second before the first.
pub proof fn lemma_bytes_trichotomy(a: Seq<u8>, b: Seq<u8>)
    ensures
        a == b || bytes_lt(a, b) || bytes_lt(b, a),
        !(a == b && bytes_lt(a, b)),
        !(a == b && bytes_lt(b, a)),
        !(bytes_lt(a, b) && bytes_lt(b, a)),
    decreases a.len(),
{
    if a.len() == 0 || b.len() == 0 {
        if a.len() == 0 && b.len() == 0 {
            assert(a =~= b);
        }
    } else if a[0] != b[0] {
    } else {
        lemma_bytes_trichotomy(a.drop_first(), b.drop_first());
        if a.drop_first() == b.drop_first() {
            assert(a =~= seq![a[0]] + a.drop_first());
            assert(b =~= seq![b[0]] + b.drop_first());
        }
    }
}

/// The order of byte sequences is transitive.
pub proof fn lemma_bytes_transitive(a: Seq<u8>, b: Seq<u8>, c: Seq<u8>)
    requires
        bytes_lt(a, b),
        bytes_lt(b, c),
    ensures
        bytes_lt(a, c),
    decreases a.len(),
{
    if a.len() == 0 {
    } else if a[0] != b[0] || b[0] != c[0] {
    } else {
        lemma_bytes_transitive(a.drop_first(), b.drop_first(), c.drop_first());
    }
}

/// Two byte sequences that agree on their first `n` bytes compare as their
/// remainders do.
pub proof fn lemma_bytes_common_prefix(a: Seq<u8>, b: Seq<u8>, n: int)
    requires
        0 <= n <= a.len(),
        n <= b.len(),
        a.take(n) == b.take(n),
    ensures
        bytes_lt(a, b) == bytes_lt(a.skip(n), b.skip(n)),
        (a == b) == (a.skip(n) == b.skip(n)),
    decreases n,
{
    if n == 0 {
        assert(a.skip(0) =~= a);
        assert(b.skip(0) =~= b);
    } else {
        assert(a[0] == a.take(n)[0]);
        assert(b[0] == b.take(n)[0]);
        assert(a.drop_first().take(n - 1) =~= a.take(n).drop_first());
        assert(b.drop_first().take(n - 1) =~= b.take(n).drop_first());
        lemma_bytes_common_prefix(a.drop_first(), b.drop_first(), n - 1);
        assert(a.drop_first().skip(n - 1) =~= a.skip(n));
        assert(b.drop_first().skip(n - 1) =~= b.skip(n));
        assert(a =~= a.take(n) + a.skip(n));
        assert(b =~= b.take(n) + b.skip(n));
    }
}

/// Of two strings exactly one holds: they are equal, the first comes before
/// the second, or the second before the first.
pub proof fn lemma_text_trichotomy(a: Seq<char>, b: Seq<char>)
    ensures
        a == b || text_lt(a, b) || text_lt(b, a),
        !(a == b && text_lt(a, b)),
        !(a == b && text_lt(b, a)),
        !(text_lt(a, b) && text_lt(b, a)),
{
    lemma_bytes_trichotomy(encode_utf8(a), encode_utf8(b));
    if encode_utf8(a) == encode_utf8(b) {
        lemma_encode_injective(a, b);
    }
}

/// The order of strings is transitive.
pub proof fn lemma_text_transitive(a: Seq<char>, b: Seq<char>, c: Seq<char>)
    requires
        text_lt(a, b),
        text_lt(b, c),
    ensures
        text_lt(a, c),
{
    lemma_bytes_transitive(encode_utf8(a), encode_utf8(b), encode_utf8(c));
}

/// How `a` stands to `b` in the order of byte sequences.
pub fn rank_bytes(a: &[u8], b: &[u8]) -> (rank: Rank)
    ensures
        rank == Rank::Before <==> bytes_lt(a@, b@),
        rank == Rank::Same <==> a@ == b@,
        rank == Rank::After <==> bytes_lt(b@, a@),
{
    let mut i: usize = 0;
    proof {
        assert(a@.take(0) =~= b@.take(0));
    }
    while i < a.len() && i < b.len()
        invariant
            i <= a.len(),
            i <= b.len(),
            a@.take(i as int) == b@.take(i as int),
        decreases a.len() - i,
    {
        let x = a[i];
        let y = b[i];
        if x != y {
            proof {
                lemma_bytes_common_prefix(a@, b@, i as int);
                lemma_bytes_common_prefix(b@, a@, i as int);
                lemma_bytes_trichotomy(a@, b@);
                assert(a@.skip(i as int)[0] == x);
                assert(b@.skip(i as int)[0] == y);
            }
            if x < y {
                return Rank::Before;
            } else {
                return Rank::After;
            }
        }
        proof {
            assert(a@.take(i + 1) =~= a@.take(i as int).push(x));
            assert(b@.take(i + 1) =~= b@.take(i as int).push(y));
        }
        i = i + 1;
    }
    proof {
        lemma_bytes_common_prefix(a@, b@, i as int);
        lemma_bytes_common_prefix(b@, a@, i as int);
        lemma_bytes_trichotomy(a@, b@);
    }
    if i < b.len() {
        Rank::Before
    } else if i < a.len() {
        Rank::After
    } else {
        Rank::Same
    }
}

/// How `a` stands to `b` in the order of strings.
pub fn rank_text(a: &str, b: &str) -> (rank: Rank)
    ensures
        rank == Rank::Before <==> text_lt(a@, b@),
        rank == Rank::Same <==> a@ == b@,
        rank == Rank::After <==> text_lt(b@, a@),
{
    proof {
        lemma_text_trichotomy(a@, b@);
        lemma_bytes_trichotomy(encode_utf8(a@), encode_utf8(b@));
    }
    rank_bytes(a.as_bytes(), b.as_bytes())
}

} // verus!
