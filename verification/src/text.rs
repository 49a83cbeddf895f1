//! Character and string helpers shared by the whole crate.
//!
//! The only two standard-library calls that vstd leaves unspecified and
//! that this crate needs (`char::from_u32`, `String::push`) are wrapped
//! here; everything else is verified code on `Seq<char>` views.
use vstd::prelude::*;

verus! {

broadcast use vstd::utf8::char_u32_cast;

/// Whether `cp` is a Unicode scalar value, i.e. a valid `char`.
pub open spec fn is_char_value(cp: u32) -> bool {
    cp < 0xD800 || (0xE000 <= cp && cp <= 0x10FFFF)
}

/// `char::from_u32`: the standard library documents that it returns
/// `Some` exactly for Unicode scalar values, and that the character it
/// returns has `cp` as its code point.
#[verifier::external_body]
pub(crate) fn char_from_u32(cp: u32) -> (r: Option<char>)
    ensures
        r is Some <==> is_char_value(cp),
        r matches Some(c) ==> c as u32 == cp,
{
    char::from_u32(cp)
}

/// `String::push`: appends one character to the end of the string.
#[verifier::external_body]
pub(crate) fn string_push(s: &mut String, c: char)
    ensures
        final(s)@ == old(s)@.push(c),
{
    s.push(c);
}

/// The character whose code point is `cp` (meaningful for scalar values).
pub open spec fn cp_char(cp: u32) -> char {
    cp as char
}

/// Append the character with code point `cp` when it is a scalar value;
/// other values append nothing.
pub fn push_cp(s: &mut String, cp: u32)
    ensures
        is_char_value(cp) ==> final(s)@ == old(s)@.push(cp_char(cp)),
        !is_char_value(cp) ==> final(s)@ == old(s)@,
{
    if let Some(c) = char_from_u32(cp) {
        proof {
            vstd::utf8::char_u32_cast(c, cp);
        }
        string_push(s, c);
    }
}

/// The characters of `s`, in order.
pub fn chars_of(s: &str) -> (r: Vec<char>)
    ensures
        r@ == s@,
{
    let mut out: Vec<char> = Vec::new();
    for c in it: s.chars()
        invariant
            out@ == it.seq().take(it.index() as int),
    {
        out.push(c);
    }
    out
}

/// A `String` holding exactly the characters of `v`.
pub fn string_from_chars(v: &[char]) -> (r: String)
    ensures
        r@ == v@,
{
    let mut s = String::new();
    let mut i: usize = 0;
    while i < v.len()
        invariant
            i <= v.len(),
            s@ == v@.take(i as int),
        decreases v.len() - i,
    {
        string_push(&mut s, v[i]);
        assert(v@.take(i as int).push(v@[i as int]) == v@.take(i + 1));
        i = i + 1;
    }
    assert(v@.take(v.len() as int) == v@);
    s
}

/// Append every character of `t` to `s`.
pub fn push_str(s: &mut String, t: &str)
    ensures
        final(s)@ == old(s)@ + t@,
{
    let ghost start = s@;
    for c in it: t.chars()
        invariant
            s@ == start + it.seq().take(it.index() as int),
    {
        proof {
            assert(it.seq().take(it.index() as int).push(c) == it.seq().take(it.index() + 1));
        }
        string_push(s, c);
    }
}

/// A fresh `String` equal to `t`.
pub fn string_of(t: &str) -> (r: String)
    ensures
        r@ == t@,
{
    let mut s = String::new();
    push_str(&mut s, t);
    assert(Seq::<char>::empty() + t@ == t@);
    s
}

/// Whether two character sequences are equal.
pub fn chars_eq(a: &[char], b: &[char]) -> (r: bool)
    ensures
        r == (a@ == b@),
{
    if a.len() != b.len() {
        return false;
    }
    let mut i: usize = 0;
    while i < a.len()
        invariant
            a.len() == b.len(),
            i <= a.len(),
            forall|j: int| 0 <= j < i ==> a@[j] == b@[j],
        decreases a.len() - i,
    {
        if a[i] != b[i] {
            return false;
        }
        i = i + 1;
    }
    assert(a@ =~= b@);
    true
}

/// Whether two strings hold the same characters.
pub fn str_eq(a: &str, b: &str) -> (r: bool)
    ensures
        r == (a@ == b@),
{
    let va = chars_of(a);
    let vb = chars_of(b);
    chars_eq(va.as_slice(), vb.as_slice())
}

/// Whether `p` is a prefix of `s`.
pub fn starts_with(s: &str, p: &str) -> (r: bool)
    ensures
        r == p@.is_prefix_of(s@),
{
    let a = chars_of(s);
    let b = chars_of(p);
    if b.len() > a.len() {
        return false;
    }
    let mut i: usize = 0;
    while i < b.len()
        invariant
            a@ == s@,
            b@ == p@,
            b@.len() <= a@.len(),
            i <= b@.len(),
            forall|k: int| 0 <= k < i ==> a@[k] == b@[k],
        decreases b@.len() - i,
    {
        if a[i] != b[i] {
            assert(p@[i as int] != s@.subrange(0, p@.len() as int)[i as int]);
            return false;
        }
        i = i + 1;
    }
    assert(b@ =~= a@.subrange(0, b@.len() as int));
    true
}

/// The digit character for `d` (0..=15): `0`-`9`, then `A`-`F`.
pub open spec fn digit_char(d: nat) -> char {
    cp_char((if d < 10 { 48 + d } else { 55 + d }) as u32)
}

/// The decimal representation of `n`, without leading zeros.
pub open spec fn decimal(n: nat) -> Seq<char>
    decreases n,
{
    if n < 10 {
        seq![digit_char(n)]
    } else {
        decimal(n / 10).push(digit_char(n % 10))
    }
}

/// [`decimal`] padded on the left with `0` to at least `width`
/// characters.
pub open spec fn decimal_padded(n: nat, width: nat) -> Seq<char> {
    let t = decimal(n);
    if t.len() < width {
        Seq::new((width - t.len()) as nat, |i: int| '0') + t
    } else {
        t
    }
}

/// The upper-case hexadecimal representation of `n`, without leading
/// zeros.
pub open spec fn hex(n: nat) -> Seq<char>
    decreases n,
{
    if n < 16 {
        seq![digit_char(n)]
    } else {
        hex(n / 16).push(digit_char(n % 16))
    }
}

/// [`hex`] padded on the left with `0` to at least `width` characters.
pub open spec fn hex_padded(n: nat, width: nat) -> Seq<char> {
    let h = hex(n);
    if h.len() < width {
        Seq::new((width - h.len()) as nat, |i: int| '0') + h
    } else {
        h
    }
}

fn push_digit(s: &mut String, d: u32)
    requires
        d < 16,
    ensures
        final(s)@ == old(s)@.push(digit_char(d as nat)),
{
    let cp: u32 = if d < 10 { 48 + d } else { 55 + d };
    push_cp(s, cp);
}

/// Append the decimal representation of `n`.
pub fn push_decimal(s: &mut String, n: u64)
    ensures
        final(s)@ == old(s)@ + decimal(n as nat),
    decreases n,
{
    if n >= 10 {
        push_decimal(s, n / 10);
    }
    push_digit(s, (n % 10) as u32);
    proof {
        if n < 10 {
            assert(decimal(n as nat) == seq![digit_char(n as nat)]);
        }
    }
}

/// Append the upper-case hexadecimal representation of `n`.
pub fn push_hex(s: &mut String, n: u32)
    ensures
        final(s)@ == old(s)@ + hex(n as nat),
    decreases n,
{
    if n >= 16 {
        push_hex(s, n / 16);
    }
    push_digit(s, n % 16);
    proof {
        if n < 16 {
            assert(hex(n as nat) == seq![digit_char(n as nat)]);
        }
    }
}

/// Append the upper-case hexadecimal representation of `n`, padded on
/// the left with `0` to at least `width` characters.
pub fn push_hex_padded(s: &mut String, n: u32, width: usize)
    ensures
        final(s)@ == old(s)@ + hex_padded(n as nat, width as nat),
{
    let mut h = String::new();
    push_hex(&mut h, n);
    assert(Seq::<char>::empty() + hex(n as nat) == hex(n as nat));
    let len = chars_of(h.as_str()).len();
    let ghost start = s@;
    if len < width {
        let pad = width - len;
        let mut i: usize = 0;
        while i < pad
            invariant
                i <= pad,
                s@ == start + Seq::new(i as nat, |j: int| '0'),
            decreases pad - i,
        {
            string_push(s, '0');
            assert(Seq::new(i as nat, |j: int| '0').push('0') == Seq::new((i + 1) as nat, |j: int| '0'));
            i = i + 1;
        }
    }
    push_str(s, h.as_str());
    assert(s@ == start + hex_padded(n as nat, width as nat));
}

/// Append `n` in decimal, padded on the left with `0` to at least
/// `width` characters.
pub fn push_decimal_padded(s: &mut String, n: u64, width: usize)
    ensures
        final(s)@ == old(s)@ + decimal_padded(n as nat, width as nat),
{
    let mut t = String::new();
    push_decimal(&mut t, n);
    assert(Seq::<char>::empty() + decimal(n as nat) == decimal(n as nat));
    let len = chars_of(t.as_str()).len();
    let ghost start = s@;
    if len < width {
        let pad = width - len;
        let mut i: usize = 0;
        while i < pad
            invariant
                i <= pad,
                s@ == start + Seq::new(i as nat, |j: int| '0'),
            decreases pad - i,
        {
            string_push(s, '0');
            assert(Seq::new(i as nat, |j: int| '0').push('0') == Seq::new((i + 1) as nat, |j: int| '0'));
            i = i + 1;
        }
    }
    push_str(s, t.as_str());
    assert(s@ == start + decimal_padded(n as nat, width as nat));
}

} // verus!
