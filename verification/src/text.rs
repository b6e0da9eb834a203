//! Character-indexed operations on UTF-8 strings.
//!
//! A `String` is viewed as its sequence of characters. Cursor positions are
//! character indices; byte offsets appear only where a string is mutated in
//! place, and every such offset is proved to lie on a character boundary.

use vstd::prelude::*;
use vstd::string::*;
use vstd::utf8::*;

verus! {

/// Number of bytes taken by the first `n` characters of `s` in UTF-8; the
/// whole byte length when `n` is past the end.
pub open spec fn byte_offset(s: Seq<char>, n: int) -> nat {
    if 0 <= n <= s.len() {
        encode_utf8(s.take(n)).len()
    } else {
        encode_utf8(s).len()
    }
}

/// Encoding distributes over concatenation.
pub proof fn lemma_encode_concat(a: Seq<char>, b: Seq<char>)
    ensures
        encode_utf8(a + b) == encode_utf8(a) + encode_utf8(b),
    decreases a.len(),
{
    if a.len() == 0 {
        assert(a + b =~= b);
        assert(encode_utf8(a) + encode_utf8(b) =~= encode_utf8(b));
    } else {
        lemma_encode_concat(a.drop_first(), b);
        assert((a + b).drop_first() =~= a.drop_first() + b);
        assert((a + b)[0] == a[0]);
        assert(encode_utf8(a + b) =~= encode_utf8(a) + encode_utf8(b));
    }
}

/// The end of an encoded prefix is a character boundary of the whole.
pub proof fn lemma_prefix_is_boundary(a: Seq<char>, b: Seq<char>)
    ensures
        is_char_boundary(encode_utf8(a + b), encode_utf8(a).len() as int),
    decreases a.len(),
{
    broadcast use encode_utf8_valid_utf8;

    let whole = a + b;
    let bytes = encode_utf8(whole);
    if a.len() == 0 {
    } else {
        encode_utf8_first_scalar(whole);
        encode_utf8_first_scalar(a);
        assert(whole[0] == a[0]);
        assert(whole.drop_first() =~= a.drop_first() + b);
        assert(pop_first_scalar(bytes) =~= encode_utf8(whole.drop_first()));
        lemma_prefix_is_boundary(a.drop_first(), b);
        assert(encode_utf8(a).len() == encode_scalar(a[0] as u32).len() + encode_utf8(
            a.drop_first(),
        ).len());
        assert(encode_scalar(a[0] as u32).len() > 0);
        lemma_encode_concat(a, b);
    }
}

/// Two character sequences with the same encoding are the same sequence.
pub proof fn lemma_encode_injective(a: Seq<char>, b: Seq<char>)
    requires
        encode_utf8(a) == encode_utf8(b),
    ensures
        a == b,
{
    encode_utf8_decode_utf8(a);
    encode_utf8_decode_utf8(b);
}

/// Every character index of `s` maps to a byte offset on a character
/// boundary, and larger indices map to larger or equal offsets.
pub proof fn lemma_byte_offset(s: Seq<char>, n: int)
    requires
        0 <= n <= s.len(),
    ensures
        byte_offset(s, n) <= encode_utf8(s).len(),
        is_char_boundary(encode_utf8(s), byte_offset(s, n) as int),
        encode_utf8(s).subrange(0, byte_offset(s, n) as int) == encode_utf8(s.take(n)),
        encode_utf8(s).subrange(byte_offset(s, n) as int, encode_utf8(s).len() as int)
            == encode_utf8(s.skip(n)),
{
    assert(s =~= s.take(n) + s.skip(n));
    lemma_encode_concat(s.take(n), s.skip(n));
    lemma_prefix_is_boundary(s.take(n), s.skip(n));
    let front = encode_utf8(s.take(n));
    let back = encode_utf8(s.skip(n));
    assert((front + back).subrange(0, front.len() as int) =~= front);
    assert((front + back).subrange(front.len() as int, (front + back).len() as int) =~= back);
}

/// `char::len_utf8` gives the number of bytes of the character's UTF-8
/// encoding, as the standard library documents it.
pub assume_specification[ char::len_utf8 ](c: char) -> (n: usize)
    ensures
        n == encode_scalar(c as u32).len(),
;

/// `String::push` appends one character to the end of the string.
#[verifier::external_body]
pub(crate) fn push_char(s: &mut String, c: char)
    ensures
        final(s)@ == old(s)@.push(c),
{
    s.push(c)
}

/// `String::insert` puts the encoding of `c` at byte position `at`, keeping
/// the bytes before and after it. The standard library panics when `at` is
/// past the end or inside a character; both are excluded here.
#[verifier::external_body]
pub(crate) fn insert_at_byte(s: &mut String, at: usize, c: char)
    requires
        at <= encode_utf8(old(s)@).len(),
        is_char_boundary(encode_utf8(old(s)@), at as int),
    ensures
        encode_utf8(final(s)@) == encode_utf8(old(s)@).subrange(0, at as int) + encode_scalar(
            c as u32,
        ) + encode_utf8(old(s)@).subrange(at as int, encode_utf8(old(s)@).len() as int),
{
    s.insert(at, c)
}

/// Number of characters of `s`.
pub fn char_count(s: &String) -> (n: usize)
    ensures
        n == s@.len(),
{
    s.as_str().unicode_len()
}

/// The encoding of a single character is the encoding of its scalar value.
pub proof fn lemma_encode_single(c: char)
    ensures
        encode_utf8(seq![c]) == encode_scalar(c as u32),
{
    reveal_with_fuel(encode_utf8, 2);
    assert(seq![c].drop_first() =~= Seq::<char>::empty());
    assert(encode_utf8(seq![c]) =~= encode_scalar(c as u32));
}

/// Byte offset at which the character with index `n` starts; the byte length
/// of `s` when `n` is at or past the end.
pub fn byte_index_of(s: &String, n: usize) -> (at: usize)
    ensures
        at == byte_offset(s@, n as int),
        at <= encode_utf8(s@).len(),
{
    let count = s.as_str().unicode_len();
    let total = s.as_str().as_bytes().len();
    let mut at: usize = 0;
    let mut seen: usize = 0;
    proof {
        assert(s@.take(0) =~= Seq::<char>::empty());
    }
    for c in it: s.as_str().chars()
        invariant
            seen == it.index(),
            it.seq() == s@,
            count == s@.len(),
            total == encode_utf8(s@).len(),
            at == byte_offset(s@, if seen <= n { seen as int } else { n as int }),
    {
        assert(seen < count);
        assert(c == s@[seen as int]);
        if seen < n {
            proof {
                let k = seen as int;
                lemma_byte_offset(s@, k + 1);
                assert(s@.take(k + 1) =~= s@.take(k) + seq![s@[k]]);
                lemma_encode_concat(s@.take(k), seq![s@[k]]);
                lemma_encode_single(s@[k]);
            }
            at = at + c.len_utf8();
        }
        seen = seen + 1;
    }
    proof {
        if n as int > s@.len() {
            assert(s@.take(s@.len() as int) =~= s@);
        } else {
            lemma_byte_offset(s@, n as int);
        }
    }
    at
}

/// The character sequence with `c` put at character index `n`, or at the end
/// when `n` is past it.
pub open spec fn inserted(s: Seq<char>, n: int, c: char) -> Seq<char> {
    if 0 <= n <= s.len() {
        s.insert(n, c)
    } else {
        s.push(c)
    }
}

/// The character sequence without the character at index `n`; unchanged when
/// there is no such character.
pub open spec fn removed(s: Seq<char>, n: int) -> Seq<char> {
    if 0 <= n < s.len() {
        s.remove(n)
    } else {
        s
    }
}

/// Puts `c` at character index `n` of `s`, or at its end when `n` is past it.
pub fn insert_char_at(s: &mut String, n: usize, c: char)
    ensures
        final(s)@ == inserted(old(s)@, n as int, c),
{
    let at = byte_index_of(s, n);
    proof {
        let before = s@;
        let k: int = if n as int <= before.len() { n as int } else { before.len() as int };
        assert(byte_offset(before, n as int) == byte_offset(before, k)) by {
            assert(before.take(before.len() as int) =~= before);
        }
        lemma_byte_offset(before, k);
    }
    let ghost before = s@;
    insert_at_byte(s, at, c);
    proof {
        let k: int = if n as int <= before.len() { n as int } else { before.len() as int };
        let front = before.take(k);
        let back = before.skip(k);
        lemma_byte_offset(before, k);
        lemma_encode_single(c);
        lemma_encode_concat(front, seq![c]);
        lemma_encode_concat(front + seq![c], back);
        lemma_encode_injective(s@, front + seq![c] + back);
        assert(front + seq![c] + back =~= before.insert(k, c));
        assert(before.insert(before.len() as int, c) =~= before.push(c));
    }
}

/// A copy of `s` without the character at index `n`; a plain copy when `s`
/// has no such character.
pub fn without_char_at(s: &String, n: usize) -> (out: String)
    ensures
        out@ == removed(s@, n as int),
{
    let count = s.as_str().unicode_len();
    let mut out = String::new();
    let mut seen: usize = 0;
    for c in it: s.as_str().chars()
        invariant
            seen == it.index(),
            it.seq() == s@,
            count == s@.len(),
            out@ == removed(s@.take(seen as int), n as int),
    {
        assert(seen < count);
        assert(c == s@[seen as int]);
        if seen != n {
            push_char(&mut out, c);
        }
        proof {
            let k = seen as int;
            assert(s@.take(k + 1) =~= s@.take(k).push(s@[k]));
            if k < n {
                assert(out@ =~= s@.take(k + 1));
            } else if k == n {
                assert(s@.take(k + 1).remove(n as int) =~= s@.take(k));
            } else {
                assert(s@.take(k + 1).remove(n as int) =~= s@.take(k).remove(n as int).push(
                    s@[k],
                ));
            }
        }
        seen = seen + 1;
    }
    proof {
        assert(s@.take(s@.len() as int) =~= s@);
    }
    out
}

/// The text of an optional string, as a sequence of characters.
pub open spec fn option_text(s: Option<String>) -> Option<Seq<char>> {
    match s {
        Some(text) => Some(text@),
        None => None,
    }
}

/// The text of an optional locator, empty when it is absent.
pub open spec fn text_or_empty(s: Option<Seq<char>>) -> Seq<char> {
    match s {
        Some(text) => text,
        None => Seq::empty(),
    }
}

/// A copy of an optional string.
pub fn clone_option(s: &Option<String>) -> (copy: Option<String>)
    ensures
        option_text(copy) == option_text(*s),
{
    match s {
        Some(text) => Some(text.clone()),
        None => None,
    }
}

/// A copy of the text of an optional string, empty when it is absent.
pub fn clone_or_empty(s: &Option<String>) -> (copy: String)
    ensures
        copy@ == text_or_empty(option_text(*s)),
{
    match s {
        Some(text) => text.clone(),
        None => String::new(),
    }
}

/// The concatenation of two strings.
pub fn joined(a: &str, b: &str) -> (out: String)
    ensures
        out@ == a@ + b@,
{
    let mut out = String::from_str(a);
    out.append(b);
    out
}

/// The decimal digits of `n`, most significant first.
pub open spec fn decimal(n: nat) -> Seq<char>
    decreases n,
{
    if n < 10 {
        seq![digit(n)]
    } else {
        decimal(n / 10).push(digit(n % 10))
    }
}

/// The character of one decimal digit.
pub open spec fn digit(d: nat) -> char {
    if d == 0 {
        '0'
    } else if d == 1 {
        '1'
    } else if d == 2 {
        '2'
    } else if d == 3 {
        '3'
    } else if d == 4 {
        '4'
    } else if d == 5 {
        '5'
    } else if d == 6 {
        '6'
    } else if d == 7 {
        '7'
    } else if d == 8 {
        '8'
    } else {
        '9'
    }
}

fn digit_char(d: u64) -> (c: char)
    requires
        d < 10,
    ensures
        c == digit(d as nat),
{
    if d == 0 {
        '0'
    } else if d == 1 {
        '1'
    } else if d == 2 {
        '2'
    } else if d == 3 {
        '3'
    } else if d == 4 {
        '4'
    } else if d == 5 {
        '5'
    } else if d == 6 {
        '6'
    } else if d == 7 {
        '7'
    } else if d == 8 {
        '8'
    } else {
        '9'
    }
}

/// Writes `n` in decimal, as `{}` formatting of an unsigned integer does.
pub fn decimal_string(n: u64) -> (out: String)
    ensures
        out@ == decimal(n as nat),
    decreases n,
{
    if n < 10 {
        let mut out = String::new();
        push_char(&mut out, digit_char(n));
        assert(out@ =~= seq![digit(n as nat)]);
        out
    } else {
        let mut out = decimal_string(n / 10);
        push_char(&mut out, digit_char(n % 10));
        out
    }
}

} // verus!
