//! Facts about strings as sequences of chars and their UTF-8 encoding, and
//! the std string operations the library relies on.
use vstd::prelude::*;
use vstd::std_specs::iter::IteratorSpec;
use vstd::utf8::*;

verus! {

broadcast use vstd::utf8::group_utf8_lib;

/// Number of bytes in the UTF-8 encoding of `chars`.
pub open spec fn utf8_len(chars: Seq<char>) -> nat {
    encode_utf8(chars).len()
}

/// Every char takes at least one byte.
pub proof fn lemma_utf8_len_at_least_char_count(chars: Seq<char>)
    ensures
        chars.len() <= utf8_len(chars),
    decreases chars.len(),
{
    if chars.len() > 0 {
        lemma_utf8_len_at_least_char_count(chars.drop_first());
    }
}

/// The encoding of a concatenation is the concatenation of the encodings.
pub proof fn lemma_encode_utf8_concat(a: Seq<char>, b: Seq<char>)
    ensures
        encode_utf8(a + b) == encode_utf8(a) + encode_utf8(b),
    decreases a.len(),
{
    if a.len() == 0 {
        assert(a + b =~= b);
        assert(encode_utf8(a) + encode_utf8(b) =~= encode_utf8(b));
    } else {
        assert((a + b).drop_first() =~= a.drop_first() + b);
        assert((a + b)[0] == a[0]);
        lemma_encode_utf8_concat(a.drop_first(), b);
        assert(encode_utf8(a + b) =~= encode_utf8(a) + encode_utf8(b));
    }
}

/// The encoding of a single char is the encoding of its scalar value.
pub proof fn lemma_encode_utf8_single(c: char)
    ensures
        encode_utf8(seq![c]) == encode_scalar(c as u32),
{
    assert(seq![c].drop_first() =~= Seq::<char>::empty());
    assert(encode_utf8(Seq::<char>::empty()) == Seq::<u8>::empty());
    assert(encode_scalar(c as u32) + Seq::<u8>::empty() =~= encode_scalar(c as u32));
}

/// Bytes taken by the first `k + 1` chars: those of the first `k` and of char `k`.
pub proof fn lemma_utf8_len_take_step(chars: Seq<char>, k: int)
    requires
        0 <= k < chars.len(),
    ensures
        utf8_len(chars.take(k + 1)) == utf8_len(chars.take(k)) + encode_scalar(chars[k] as u32).len(),
{
    assert(chars.take(k + 1) =~= chars.take(k) + seq![chars[k]]);
    lemma_encode_utf8_concat(chars.take(k), seq![chars[k]]);
    lemma_encode_utf8_single(chars[k]);
}

/// A prefix takes no more bytes than the whole.
pub proof fn lemma_utf8_len_take_le(chars: Seq<char>, k: int)
    requires
        0 <= k <= chars.len(),
    ensures
        utf8_len(chars.take(k)) <= utf8_len(chars),
        utf8_len(chars) == utf8_len(chars.take(k)) + utf8_len(chars.skip(k)),
{
    assert(chars =~= chars.take(k) + chars.skip(k));
    lemma_encode_utf8_concat(chars.take(k), chars.skip(k));
}

/// The byte offset at which char `k` starts lies on a char boundary.
pub proof fn lemma_prefix_len_is_char_boundary(chars: Seq<char>, k: int)
    requires
        0 <= k <= chars.len(),
    ensures
        is_char_boundary(encode_utf8(chars), utf8_len(chars.take(k)) as int),
    decreases k,
{
    let bytes = encode_utf8(chars);
    if k == 0 {
        assert(chars.take(0) =~= Seq::<char>::empty());
    } else {
        let rest = chars.drop_first();
        encode_utf8_first_scalar(chars);
        assert(chars.take(k) =~= seq![chars[0]] + rest.take(k - 1));
        lemma_encode_utf8_concat(seq![chars[0]], rest.take(k - 1));
        lemma_encode_utf8_single(chars[0]);
        lemma_utf8_len_take_le(rest, k - 1);
        assert(pop_first_scalar(bytes) =~= encode_utf8(rest));
        lemma_prefix_len_is_char_boundary(rest, k - 1);
    }
}

/// Width in bytes of the UTF-8 encoding of `c`.
pub fn char_utf8_width(c: char) -> (n: usize)
    ensures
        n == encode_scalar(c as u32).len(),
        1 <= n <= 4,
{
    let v = c as u32;
    if v < 0x80 {
        1
    } else if v < 0x800 {
        2
    } else if v < 0x10000 {
        3
    } else {
        4
    }
}

/// Appends `c` to `s`.
///
/// Calls `String::push`, which appends the given char to the end of the
/// string; the contract claims just that, over the chars of the string.
#[verifier::external_body]
pub(crate) fn string_push(s: &mut String, c: char)
    ensures
        final(s)@ == old(s)@.push(c),
{
    s.push(c)
}

/// Inserts `c` into `s` at byte offset `idx`.
///
/// Calls `String::insert`, which inserts a char at a byte position and
/// panics unless that position lies on a char boundary. The contract claims
/// that the new encoding is the old one with the encoding of `c` placed at
/// `idx`.
#[verifier::external_body]
pub(crate) fn string_insert(s: &mut String, idx: usize, c: char)
    requires
        is_char_boundary(encode_utf8(old(s)@), idx as int),
    ensures
        encode_utf8(final(s)@) == encode_utf8(old(s)@).take(idx as int) + encode_scalar(c as u32)
            + encode_utf8(old(s)@).skip(idx as int),
{
    s.insert(idx, c)
}

/// Appends the chars of `t` to `s`.
pub fn push_all(s: &mut String, t: &str)
    ensures
        final(s)@ == old(s)@ + t@,
{
    let mut chars = t.chars();
    let ghost start = s@;
    let ghost n: int = 0;
    loop
        invariant
            0 <= n <= t@.len(),
            chars.remaining() == t@.skip(n),
            s@ == start + t@.take(n),
        ensures
            s@ == start + t@,
        decreases t@.len() - n,
    {
        match chars.next() {
            Some(c) => {
                assert(t@.take(n + 1) =~= t@.take(n).push(c));
                string_push(s, c);
                proof {
                    n = n + 1;
                }
            },
            None => {
                assert(t@.take(n) =~= t@);
                break;
            },
        }
    }
}

/// Number of chars in `s`.
pub fn char_count(s: &str) -> (n: usize)
    ensures
        n == s@.len(),
        utf8_len(s@) <= usize::MAX,
{
    let bytes = s.as_bytes();
    let _byte_len = bytes.len();
    proof {
        lemma_utf8_len_at_least_char_count(s@);
    }
    let mut chars = s.chars();
    let mut n: usize = 0;
    loop
        invariant
            n <= s@.len(),
            s@.len() <= usize::MAX,
            chars.remaining() == s@.skip(n as int),
        ensures
            n == s@.len(),
        decreases s@.len() - n,
    {
        match chars.next() {
            Some(_) => {
                n = n + 1;
            },
            None => {
                break;
            },
        }
    }
    n
}

} // verus!
