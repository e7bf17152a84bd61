//! Plain-value views of strings and the few std string operations the library
//! relies on whose behaviour vstd does not already specify.

use vstd::prelude::*;
use vstd::utf8::{encode_utf8, encode_scalar, is_char_boundary, length_of_first_scalar, decode_first_scalar};

verus! {

/// The UTF-8 bytes of a character sequence (what `str::len` counts).
pub open spec fn utf8_bytes(s: Seq<char>) -> Seq<u8> {
    encode_utf8(s)
}

/// Bytes after inserting the encoding of `c` at byte offset `idx`.
pub open spec fn bytes_with_insert(b: Seq<u8>, idx: int, c: char) -> Seq<u8> {
    b.take(idx) + encode_scalar(c as u32) + b.skip(idx)
}

/// Bytes after removing the scalar that starts at byte offset `idx`.
pub open spec fn bytes_with_remove(b: Seq<u8>, idx: int) -> Seq<u8> {
    b.take(idx) + b.skip(idx + length_of_first_scalar(b.skip(idx)))
}

/// Decimal digits of `n`, most significant first, as `Display` prints them.
pub open spec fn decimal(n: nat) -> Seq<char>
    decreases n,
{
    if n < 10 {
        seq![digit_char(n)]
    } else {
        decimal(n / 10).push(digit_char(n % 10))
    }
}

pub open spec fn digit_char(d: nat) -> char {
    if d == 0 { '0' } else if d == 1 { '1' } else if d == 2 { '2' } else if d == 3 { '3' }
    else if d == 4 { '4' } else if d == 5 { '5' } else if d == 6 { '6' } else if d == 7 { '7' }
    else if d == 8 { '8' } else { '9' }
}

/// `String::insert`: std places the UTF-8 encoding of `c` at byte offset `idx`
/// and panics unless `idx` lies on a char boundary.
#[verifier::external_body]
pub(crate) fn string_insert(s: &mut String, idx: usize, c: char)
    requires
        is_char_boundary(encode_utf8(old(s)@), idx as int),
    ensures
        encode_utf8(final(s)@) == bytes_with_insert(encode_utf8(old(s)@), idx as int, c),
{
    s.insert(idx, c)
}

/// `String::remove`: std removes and returns the char that starts at byte
/// offset `idx`; it panics when `idx` is past the end or not on a boundary.
#[verifier::external_body]
pub(crate) fn string_remove(s: &mut String, idx: usize) -> (c: char)
    requires
        is_char_boundary(encode_utf8(old(s)@), idx as int),
        idx < encode_utf8(old(s)@).len(),
    ensures
        c as u32 == decode_first_scalar(encode_utf8(old(s)@).skip(idx as int)),
        encode_utf8(final(s)@) == bytes_with_remove(encode_utf8(old(s)@), idx as int),
{
    s.remove(idx)
}

/// `usize::to_string`: the decimal rendering that `Display` gives integers.
#[verifier::external_body]
pub(crate) fn usize_to_string(n: usize) -> (s: String)
    ensures
        s@ == decimal(n as nat),
{
    n.to_string()
}

/// `u64::to_string`: the decimal rendering that `Display` gives integers.
#[verifier::external_body]
pub(crate) fn u64_to_string(n: u64) -> (s: String)
    ensures
        s@ == decimal(n as nat),
{
    n.to_string()
}

/// `String::from_iter` over chars (`collect`): the string holding exactly these chars.
#[verifier::external_body]
pub(crate) fn string_from_chars(chars: &[char]) -> (s: String)
    ensures
        s@ == chars@,
{
    chars.iter().collect()
}

/// The number of UTF-8 bytes `s` holds (what `str::len` gives).
pub(crate) fn byte_len(s: &String) -> (n: usize)
    ensures
        n == encode_utf8(s@).len(),
{
    s.as_str().as_bytes().len()
}

/// The chars of a string, in order.
pub fn chars_of(s: &str) -> (v: Vec<char>)
    ensures
        v@ == s@,
{
    let n = s.unicode_len();
    let mut v: Vec<char> = Vec::new();
    let mut i: usize = 0;
    while i < n
        invariant
            n == s@.len(),
            i <= n,
            v@ == s@.take(i as int),
        decreases n - i,
    {
        let c = s.get_char(i);
        v.push(c);
        i = i + 1;
        assert(v@ =~= s@.take(i as int));
    }
    assert(v@ =~= s@);
    v
}

/// Whether two strings hold the same chars.
pub fn str_eq(a: &str, b: &str) -> (r: bool)
    ensures
        r == (a@ == b@),
{
    let n = a.unicode_len();
    let m = b.unicode_len();
    if n != m {
        return false;
    }
    let mut i: usize = 0;
    while i < n
        invariant
            n == a@.len(),
            m == b@.len(),
            n == m,
            i <= n,
            a@.take(i as int) == b@.take(i as int),
        decreases n - i,
    {
        if a.get_char(i) != b.get_char(i) {
            assert(a@[i as int] != b@[i as int]);
            return false;
        }
        assert(a@.take(i + 1) =~= a@.take(i as int).push(a@[i as int]));
        assert(b@.take(i + 1) =~= b@.take(i as int).push(b@[i as int]));
        i = i + 1;
    }
    assert(a@ =~= a@.take(n as int));
    assert(b@ =~= b@.take(n as int));
    true
}

/// A fresh string holding `s`.
pub fn to_owned(s: &str) -> (r: String)
    ensures
        r@ == s@,
{
    s.to_owned()
}

/// Number of UTF-8 bytes of a char sequence (what `str::len` counts).
pub open spec fn utf8_len(s: Seq<char>) -> nat {
    encode_utf8(s).len()
}

pub proof fn lemma_encode_utf8_push(s: Seq<char>, c: char)
    ensures
        encode_utf8(s.push(c)) == encode_utf8(s) + encode_scalar(c as u32),
    decreases s.len(),
{
    if s.len() == 0 {
        assert(s.push(c).drop_first() =~= Seq::<char>::empty());
        assert(encode_utf8(s.push(c)) =~= encode_scalar(c as u32) + encode_utf8(Seq::<char>::empty()));
        assert(encode_utf8(s.push(c)) =~= encode_utf8(s) + encode_scalar(c as u32));
    } else {
        lemma_encode_utf8_push(s.drop_first(), c);
        assert(s.push(c).drop_first() =~= s.drop_first().push(c));
        assert(s.push(c)[0] == s[0]);
        assert(encode_utf8(s.push(c)) =~= encode_utf8(s) + encode_scalar(c as u32));
    }
}

/// One more char adds its encoded width.
pub proof fn lemma_utf8_len_take_step(s: Seq<char>, k: int)
    requires
        0 <= k < s.len(),
    ensures
        utf8_len(s.take(k + 1)) == utf8_len(s.take(k)) + encode_scalar(s[k] as u32).len(),
{
    assert(s.take(k + 1) =~= s.take(k).push(s[k]));
    lemma_encode_utf8_push(s.take(k), s[k]);
}

/// Longer prefixes never have fewer bytes.
pub proof fn lemma_utf8_len_take_mono(s: Seq<char>, a: int, b: int)
    requires
        0 <= a <= b <= s.len(),
    ensures
        utf8_len(s.take(a)) <= utf8_len(s.take(b)),
    decreases b - a,
{
    if a < b {
        lemma_utf8_len_take_mono(s, a, b - 1);
        lemma_utf8_len_take_step(s, b - 1);
    }
}

/// The number of bytes `c` takes in UTF-8 (`char::len_utf8`).
pub fn char_utf8_width(c: char) -> (w: usize)
    ensures
        w == encode_scalar(c as u32).len(),
        1 <= w <= 4,
{
    proof {
        vstd::utf8::char_is_scalar(c);
    }
    let u = c as u32;
    if u <= 0x7F {
        1
    } else if u <= 0x7FF {
        2
    } else if u <= 0xFFFF {
        3
    } else {
        4
    }
}

} // verus!
