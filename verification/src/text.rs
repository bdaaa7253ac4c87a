//! Textual forms used by the identifier conversions: upper-case hexadecimal
//! digits and the hyphenated 8-4-4-4-12 layout of a GUID or UUID.
use vstd::prelude::*;

verus! {

/// The upper-case hexadecimal digit for a value below sixteen.
pub open spec fn hex_digit(n: nat) -> char {
    if n < 10 {
        (48 + n) as char
    } else {
        (55 + n) as char
    }
}

/// `n` upper-case hexadecimal digits of `v`, most significant first and padded
/// with zeros: the text that `{:0nX}` gives for a value below `16^n`.
pub open spec fn hex_digits(v: nat, n: nat) -> Seq<char>
    decreases n,
{
    if n == 0 {
        seq![]
    } else {
        hex_digits(v / 16, (n - 1) as nat).push(hex_digit(v % 16))
    }
}

/// The two upper-case hexadecimal digits of a byte.
pub open spec fn hex_pair(b: u8) -> Seq<char> {
    seq![hex_digit((b / 16) as nat), hex_digit((b % 16) as nat)]
}

/// The hyphenated upper-case text of sixteen bytes:
/// `XXXXXXXX-XXXX-XXXX-XXXX-XXXXXXXXXXXX`, two digits per byte.
pub open spec fn upper_hyphenated(b: Seq<u8>) -> Seq<char> {
    hex_pair(b[0]) + hex_pair(b[1]) + hex_pair(b[2]) + hex_pair(b[3]) + seq!['-']
        + hex_pair(b[4]) + hex_pair(b[5]) + seq!['-'] + hex_pair(b[6]) + hex_pair(b[7])
        + seq!['-'] + hex_pair(b[8]) + hex_pair(b[9]) + seq!['-'] + hex_pair(b[10])
        + hex_pair(b[11]) + hex_pair(b[12]) + hex_pair(b[13]) + hex_pair(b[14]) + hex_pair(
        b[15],
    )
}

/// Two more hexadecimal digits split off the low byte of the value.
pub proof fn lemma_hex_digits_low_byte(v: nat, n: nat)
    ensures
        hex_digits(v, n + 2) == hex_digits(v / 256, n) + hex_pair((v % 256) as u8),
{
    let b = (v % 256) as u8;
    assert(v / 16 / 16 == v / 256) by (nonlinear_arith);
    assert((v / 16) % 16 == (v % 256) / 16) by (nonlinear_arith);
    assert(v % 16 == (v % 256) % 16) by (nonlinear_arith);
    assert(hex_digits(v, n + 2) == hex_digits(v / 16, n + 1).push(hex_digit(v % 16)));
    assert(hex_digits(v / 16, n + 1) == hex_digits(v / 16 / 16, n).push(hex_digit((v / 16) % 16)));
    assert(hex_digits(v, n + 2) =~= hex_digits(v / 256, n) + hex_pair(b));
}

/// Whether `needle` occurs in `hay` as a contiguous run of characters.
pub open spec fn contains_text(hay: Seq<char>, needle: Seq<char>) -> bool {
    exists|i: int|
        0 <= i && i + needle.len() <= hay.len() && #[trigger] hay.subrange(i, i + needle.len())
            == needle
}

/// The characters of a text, in order.
pub fn chars_of(text: &str) -> (r: Vec<char>)
    ensures
        r@ == text@,
{
    let n = text.unicode_len();
    let mut r: Vec<char> = Vec::new();
    let mut i: usize = 0;
    while i < n
        invariant
            n == text@.len(),
            i <= n,
            r@ == text@.subrange(0, i as int),
        decreases n - i,
    {
        r.push(text.get_char(i));
        i = i + 1;
    }
    assert(r@ =~= text@);
    r
}

/// Whether `needle` occurs in `hay`.
pub fn contains_chars(hay: &Vec<char>, needle: &Vec<char>) -> (r: bool)
    ensures
        r == contains_text(hay@, needle@),
{
    let n = hay.len();
    let m = needle.len();
    if m > n {
        return false;
    }
    let mut i: usize = 0;
    while i <= n - m
        invariant
            n == hay@.len(),
            m == needle@.len(),
            m <= n,
            i <= n - m + 1,
            forall|k: int| 0 <= k < i ==> #[trigger] hay@.subrange(k, k + m) != needle@,
        decreases n - m + 1 - i,
    {
        let mut j: usize = 0;
        while j < m && hay[i + j] == needle[j]
            invariant
                n == hay@.len(),
                m == needle@.len(),
                i + m <= n,
                j <= m,
                forall|t: int| 0 <= t < j ==> hay@[i + t] == needle@[t],
            decreases m - j,
        {
            j = j + 1;
        }
        if j == m {
            assert(hay@.subrange(i as int, i + m) =~= needle@);
            return true;
        }
        assert(hay@.subrange(i as int, i + m)[j as int] != needle@[j as int]);
        i = i + 1;
    }
    false
}

/// Whether the text `needle` occurs in the text `hay`.
pub fn contains_str(hay: &str, needle: &str) -> (r: bool)
    ensures
        r == contains_text(hay@, needle@),
{
    let h = chars_of(hay);
    let n = chars_of(needle);
    contains_chars(&h, &n)
}

} // verus!
