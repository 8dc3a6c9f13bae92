//! Characters, decimal numerals and blank strings.

use vstd::prelude::*;

verus! {

/// `String::push` appends the given character to the end of the string and
/// leaves the characters before it as they were.
pub assume_specification[ String::push ](s: &mut String, c: char)
    ensures
        final(s)@ == old(s)@.push(c),
;

/// The characters of `s`, in order.
pub fn chars_of(s: &str) -> (v: Vec<char>)
    ensures
        v@ == s@,
{
    let mut v: Vec<char> = Vec::new();
    for c in it: s.chars()
        invariant
            it.seq() == s@,
            v@ == s@.take(it.index() as int),
    {
        v.push(c);
    }
    v
}

/// The text of an optional string.
pub open spec fn opt_text(s: Option<String>) -> Option<Seq<char>> {
    match s {
        Some(t) => Some(t@),
        None => None,
    }
}

/// The texts of a list of strings.
pub open spec fn texts(v: Seq<String>) -> Seq<Seq<char>> {
    v.map_values(|s: String| s@)
}

/// `r` is an error that reads `message`.
pub open spec fn fails_with<T>(r: Result<T, String>, message: Seq<char>) -> bool {
    match r {
        Ok(_) => false,
        Err(e) => e@ == message,
    }
}

/// A copy of an optional string.
pub fn copy_text(s: &Option<String>) -> (r: Option<String>)
    ensures
        r == *s,
{
    match s {
        Some(t) => Some(t.clone()),
        None => None,
    }
}

/// A copy of a list of strings, from position `from` on.
pub fn copy_texts(v: &Vec<String>, from: usize) -> (r: Vec<String>)
    requires
        from <= v@.len(),
    ensures
        r@ == v@.skip(from as int),
{
    let mut r: Vec<String> = Vec::new();
    for i in from..v.len()
        invariant
            from <= v@.len(),
            r@ == v@.subrange(from as int, i as int),
    {
        r.push(v[i].clone());
        assert(r@ =~= v@.subrange(from as int, i + 1));
    }
    assert(r@ =~= v@.skip(from as int));
    r
}

/// The character of the decimal digit `d`.
pub open spec fn digit_char(d: nat) -> char {
    ('0' as nat + d) as char
}

/// The decimal numeral of `n`, without leading zeros.
pub open spec fn decimal(n: nat) -> Seq<char>
    decreases n,
{
    if n < 10 {
        seq![digit_char(n)]
    } else {
        decimal(n / 10).push(digit_char(n % 10))
    }
}

/// The decimal numeral of an integer, with a leading minus sign when it is
/// negative.
pub open spec fn decimal_int(i: int) -> Seq<char> {
    if i < 0 {
        "-"@ + decimal((-i) as nat)
    } else {
        decimal(i as nat)
    }
}

/// Writes `n` as a decimal numeral.
pub fn decimal_string(n: u64) -> (s: String)
    ensures
        s@ == decimal(n as nat),
    decreases n,
{
    let mut s = if n < 10 {
        String::new()
    } else {
        decimal_string(n / 10)
    };
    let digit: u8 = (n % 10) as u8;
    s.push((48u8 + digit) as char);
    assert(n < 10 ==> s@ =~= seq![digit_char(n as nat)]);
    s
}

/// Writes a signed number as a decimal numeral.
pub fn signed_decimal_string(i: i32) -> (s: String)
    ensures
        s@ == decimal_int(i as int),
{
    if i < 0 {
        let magnitude: u64 = (-(i as i64)) as u64;
        String::from_str("-").concat(decimal_string(magnitude).as_str())
    } else {
        decimal_string(i as u64)
    }
}

/// The Unicode `White_Space` characters.
pub open spec fn is_white_space(c: char) -> bool {
    let p = c as u32;
    ||| 0x9 <= p <= 0xd
    ||| p == 0x20
    ||| p == 0x85
    ||| p == 0xa0
    ||| p == 0x1680
    ||| 0x2000 <= p <= 0x200a
    ||| p == 0x2028
    ||| p == 0x2029
    ||| p == 0x202f
    ||| p == 0x205f
    ||| p == 0x3000
}

/// A blank text holds nothing but white space: trimming it leaves nothing.
pub open spec fn blank(s: Seq<char>) -> bool {
    forall|i: int| 0 <= i < s.len() ==> is_white_space(#[trigger] s[i])
}

/// Whether `s` is blank.
pub fn is_blank(s: &str) -> (b: bool)
    ensures
        b == blank(s@),
{
    let chars = chars_of(s);
    for i in 0..chars.len()
        invariant
            chars@ == s@,
            forall|j: int| 0 <= j < i ==> is_white_space(#[trigger] s@[j]),
    {
        let p: u32 = chars[i] as u32;
        let white = (0x9 <= p && p <= 0xd) || p == 0x20 || p == 0x85 || p == 0xa0 || p == 0x1680
            || (0x2000 <= p && p <= 0x200a) || p == 0x2028 || p == 0x2029 || p == 0x202f || p
            == 0x205f || p == 0x3000;
        if !white {
            assert(!is_white_space(s@[i as int]));
            return false;
        }
    }
    true
}

/// An optional text, dropped when it is blank.
pub open spec fn non_blank(s: Option<Seq<char>>) -> Option<Seq<char>> {
    match s {
        Some(t) if !blank(t) => Some(t),
        _ => None,
    }
}

/// Keeps `s` unless it is blank.
pub fn keep_non_blank(s: Option<String>) -> (r: Option<String>)
    ensures
        opt_text(r) == non_blank(opt_text(s)),
        r is Some ==> r == s,
{
    match s {
        Some(t) => if is_blank(t.as_str()) {
            None
        } else {
            Some(t)
        },
        None => None,
    }
}

} // verus!
