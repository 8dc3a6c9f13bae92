//! The line by which the engine announces its address.

use vstd::prelude::*;
use crate::text::{chars_of, decimal, decimal_string, digit_char};

verus! {

/// How every address on the loopback interface begins.
pub const LOCAL_PREFIX: &'static str = "http://127.0.0.1:";

/// The address at which an engine on `port` serves its web UI.
pub open spec fn local_address(port: nat) -> Seq<char> {
    LOCAL_PREFIX@ + decimal(port)
}

/// Writes the address of the engine on `port`.
pub fn local_url(port: u16) -> (url: String)
    ensures
        url@ == local_address(port as nat),
{
    String::from_str(LOCAL_PREFIX).concat(decimal_string(port as u64).as_str())
}

/// `pat` stands in `s` at position `i`.
pub open spec fn occurs_at(s: Seq<char>, pat: Seq<char>, i: int) -> bool {
    0 <= i && i + pat.len() <= s.len() && s.subrange(i, i + pat.len()) == pat
}

/// `pat` stands in `s` at position `i` and nowhere before.
pub open spec fn first_at(s: Seq<char>, pat: Seq<char>, i: int) -> bool {
    occurs_at(s, pat, i) && forall|j: int| j < i ==> !occurs_at(s, pat, j)
}

pub open spec fn is_digit(c: char) -> bool {
    '0' <= c && c <= '9'
}

/// The longest run of decimal digits at the head of `s`.
pub open spec fn leading_digits(s: Seq<char>) -> Seq<char>
    decreases s.len(),
{
    if s.len() == 0 || !is_digit(s[0]) {
        Seq::empty()
    } else {
        seq![s[0]] + leading_digits(s.skip(1))
    }
}

/// The number that a run of decimal digits denotes.
pub open spec fn digits_value(s: Seq<char>) -> nat
    decreases s.len(),
{
    if s.len() == 0 {
        0
    } else {
        digits_value(s.drop_last()) * 10 + (s.last() as nat - '0' as nat) as nat
    }
}

/// The port number at the head of `s`: at least one digit, and a value of
/// sixteen bits. Leading zeros do not count.
pub open spec fn port_at_head(s: Seq<char>) -> Option<nat> {
    let digits = leading_digits(s);
    if digits.len() > 0 && digits_value(digits) <= u16::MAX {
        Some(digits_value(digits))
    } else {
        None
    }
}

/// The first loopback address in `line` is one on `port`.
pub open spec fn announces(line: Seq<char>, port: nat) -> bool {
    exists|i: int| #[trigger]
        first_at(line, LOCAL_PREFIX@, i) && port_at_head(line.skip(i + LOCAL_PREFIX@.len()))
            == Some(port)
}

/// Finds the first position at which `pat` stands in `s`.
fn find_first(s: &Vec<char>, pat: &Vec<char>) -> (r: Option<usize>)
    ensures
        match r {
            Some(i) => first_at(s@, pat@, i as int),
            None => forall|i: int| !occurs_at(s@, pat@, i),
        },
{
    let len: usize = s.len();
    if len < pat.len() {
        return None;
    }
    let last: usize = len - pat.len();
    let mut i: usize = 0;
    while i <= last
        invariant
            len == s@.len(),
            last + pat@.len() == len,
            i <= last + 1,
            forall|j: int| j < i ==> !occurs_at(s@, pat@, j),
        decreases last + 1 - i,
    {
        let mut k: usize = 0;
        while k < pat.len() && s[i + k] == pat[k]
            invariant
                i <= last,
                len == s@.len(),
                last + pat@.len() == len,
                k <= pat@.len(),
                forall|m: int| 0 <= m < k ==> s@[i + m] == pat@[m],
            decreases pat@.len() - k,
        {
            k = k + 1;
        }
        if k == pat.len() {
            assert(s@.subrange(i as int, i + pat@.len()) =~= pat@);
            return Some(i);
        }
        assert(!occurs_at(s@, pat@, i as int)) by {
            assert(s@.subrange(i as int, i + pat@.len())[k as int] == s@[i + k]);
        }
        if i == last {
            return None;
        }
        i = i + 1;
    }
    None
}

proof fn leading_digits_step(s: Seq<char>, from: int, to: int)
    requires
        0 <= from <= to <= s.len(),
        forall|m: int| from <= m < to ==> is_digit(#[trigger] s[m]),
        to == s.len() || !is_digit(s[to]),
    ensures
        leading_digits(s.skip(from)) == s.subrange(from, to),
    decreases to - from,
{
    if from < to {
        leading_digits_step(s, from + 1, to);
        assert(is_digit(s[from]));
        assert(s.skip(from).skip(1) =~= s.skip(from + 1));
        assert(s.subrange(from, to) =~= seq![s[from]] + s.subrange(from + 1, to));
    } else {
        assert(s.subrange(from, to) =~= Seq::empty());
    }
}

/// Reads the port number that stands in `s` at position `from`.
fn read_port(s: &Vec<char>, from: usize) -> (r: Option<u16>)
    requires
        from <= s@.len(),
    ensures
        match r {
            Some(port) => port_at_head(s@.skip(from as int)) == Some(port as nat),
            None => port_at_head(s@.skip(from as int)) is None,
        },
{
    let mut value: u32 = 0;
    let mut i: usize = from;
    assert(s@.subrange(from as int, from as int) =~= Seq::empty());
    while i < s.len() && '0' <= s[i] && s[i] <= '9'
        invariant
            from <= i <= s@.len(),
            forall|m: int| from <= m < i ==> is_digit(#[trigger] s@[m]),
            value <= 0x10000,
            value < 0x10000 ==> value == digits_value(s@.subrange(from as int, i as int)),
            value == 0x10000 ==> digits_value(s@.subrange(from as int, i as int)) >= 0x10000,
        decreases s@.len() - i,
    {
        let digit: u32 = s[i] as u32 - 48;
        proof {
            let next = s@.subrange(from as int, i + 1);
            assert(next.drop_last() =~= s@.subrange(from as int, i as int));
        }
        value = value * 10 + digit;
        if value > 0xffff {
            value = 0x10000;
        }
        i = i + 1;
    }
    proof {
        leading_digits_step(s@, from as int, i as int);
    }
    if i == from || value > 0xffff {
        None
    } else {
        Some(value as u16)
    }
}

/// Reads the engine's address out of a line of its output, such as
/// `Web UI served at http://127.0.0.1:38123`, but only for the port that this
/// run reserved.
pub fn extract_local_url(line: &str, expected_port: u16) -> (url: Option<String>)
    ensures
        url is Some <==> announces(line@, expected_port as nat),
        url is Some ==> url->0@ == local_address(expected_port as nat),
{
    let chars = chars_of(line);
    let prefix = chars_of(LOCAL_PREFIX);
    match find_first(&chars, &prefix) {
        None => None,
        Some(start) => {
            proof {
                assert forall|i: int| #[trigger] first_at(line@, LOCAL_PREFIX@, i) implies i
                    == start by {
                    assert(occurs_at(line@, LOCAL_PREFIX@, start as int));
                }
            }
            assert(start + prefix@.len() <= chars.len());
            match read_port(&chars, start + prefix.len()) {
                None => None,
                Some(port) => {
                    if port != expected_port {
                        None
                    } else {
                        Some(local_url(port))
                    }
                },
            }
        },
    }
}

/// Every numeral is made of digits, and denotes the number that it was
/// written for.
pub proof fn decimal_reads_back(n: nat)
    ensures
        decimal(n).len() > 0,
        forall|i: int| 0 <= i < decimal(n).len() ==> is_digit(#[trigger] decimal(n)[i]),
        digits_value(decimal(n)) == n,
    decreases n,
{
    if n < 10 {
        let s = seq![digit_char(n)];
        assert(s.drop_last() =~= Seq::empty());
        assert(digits_value(s.drop_last()) == 0);
    } else {
        decimal_reads_back(n / 10);
        assert(decimal(n).drop_last() =~= decimal(n / 10));
    }
}

/// A line announces at most one port.
pub proof fn announcement_is_unique(line: Seq<char>, p: nat, q: nat)
    requires
        announces(line, p),
        announces(line, q),
    ensures
        p == q,
{
    let i = choose|i: int| #[trigger]
        first_at(line, LOCAL_PREFIX@, i) && port_at_head(line.skip(i + LOCAL_PREFIX@.len()))
            == Some(p);
    let j = choose|j: int| #[trigger]
        first_at(line, LOCAL_PREFIX@, j) && port_at_head(line.skip(j + LOCAL_PREFIX@.len()))
            == Some(q);
    assert(occurs_at(line, LOCAL_PREFIX@, i) && occurs_at(line, LOCAL_PREFIX@, j));
}

/// An address that is written into a line is announced by it, whatever
/// stands around it: no loopback address may begin earlier in the line, and
/// no digit may follow the port.
pub proof fn written_address_is_announced(before: Seq<char>, port: u16, after: Seq<char>)
    requires
        forall|j: int|
            j < before.len() ==> !occurs_at(
                before + local_address(port as nat) + after,
                LOCAL_PREFIX@,
                j,
            ),
        after.len() == 0 || !is_digit(after[0]),
    ensures
        announces(before + local_address(port as nat) + after, port as nat),
{
    let digits = decimal(port as nat);
    let line = before + local_address(port as nat) + after;
    let at = before.len() as int;
    let end = at + LOCAL_PREFIX@.len();
    decimal_reads_back(port as nat);
    assert(line.subrange(at, end) =~= LOCAL_PREFIX@);
    assert(first_at(line, LOCAL_PREFIX@, at));
    assert forall|m: int| end <= m < end + digits.len() implies is_digit(#[trigger] line[m]) by {
        assert(line[m] == digits[m - end]);
    }
    leading_digits_step(line, end, end + digits.len());
    assert(line.subrange(end, end + digits.len()) =~= digits);
}

/// The line that the engine prints once its web UI is up announces its port.
pub proof fn engine_line_is_announced(port: u16)
    ensures
        announces("dsh web: "@ + local_address(port as nat), port as nat),
{
    reveal_strlit("dsh web: ");
    reveal_strlit("http://127.0.0.1:");
    let before = "dsh web: "@;
    let line = before + local_address(port as nat) + Seq::<char>::empty();
    assert(line =~= before + local_address(port as nat));
    assert forall|j: int| j < before.len() implies !occurs_at(line, LOCAL_PREFIX@, j) by {
        if occurs_at(line, LOCAL_PREFIX@, j) {
            let found = line.subrange(j, j + LOCAL_PREFIX@.len());
            assert(found[0] == line[j] && found[1] == line[j + 1]);
            assert(line[j] == before[j]);
            assert(line[j] == 'h' && line[j + 1] == 't');
            assert(j == 2);
            assert(line[3] == before[3]);
        }
    }
    written_address_is_announced(before, port, Seq::empty());
}

} // verus!
