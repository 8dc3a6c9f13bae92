//! Plain text out of terminal output.

use vstd::prelude::*;
use crate::text::chars_of;

verus! {

/// The escape character, which opens every control sequence.
pub const ESC: char = '\u{1b}';

/// The bell character, which ends an operating system command.
pub const BEL: char = '\u{7}';

pub open spec fn is_ascii_letter(c: char) -> bool {
    ('a' <= c && c <= 'z') || ('A' <= c && c <= 'Z')
}

/// The final character of a control sequence that `ESC [` opened.
pub open spec fn ends_csi(c: char) -> bool {
    is_ascii_letter(c) || c == '~'
}

/// A sequence with a body begins here: a control sequence (`ESC [`), such as
/// one that sets a colour, or an operating system command (`ESC ]`).
pub open spec fn opens(s: Seq<char>) -> bool {
    s.len() >= 2 && s[0] == ESC && (s[1] == '[' || s[1] == ']')
}

/// What is left to read at the escape character at the head of `s`, which cut
/// the sequence before it short: the sequence that it opens, or else what
/// follows it.
pub open spec fn at_break(s: Seq<char>) -> Seq<char> {
    if opens(s) {
        s
    } else {
        s.skip(1)
    }
}

/// What is left to read after the rest `s` of a control sequence. It ends with
/// its final character, at the next escape character, or with the text.
pub open spec fn after_csi(s: Seq<char>) -> Seq<char>
    decreases s.len(),
{
    if s.len() == 0 {
        s
    } else if ends_csi(s[0]) {
        s.skip(1)
    } else if s[0] == ESC {
        at_break(s)
    } else {
        after_csi(s.skip(1))
    }
}

/// What is left to read after the rest `s` of an operating system command. It
/// ends with the bell, with the string terminator (`ESC \`), at another escape
/// character, or with the text.
pub open spec fn after_osc(s: Seq<char>) -> Seq<char>
    decreases s.len(),
{
    if s.len() == 0 {
        s
    } else if s[0] == BEL {
        s.skip(1)
    } else if s[0] == ESC && s.len() >= 2 && s[1] == '\\' {
        s.skip(2)
    } else if s[0] == ESC {
        at_break(s)
    } else {
        after_osc(s.skip(1))
    }
}

/// What is left to read once the sequence that the escape character at the
/// head of `s` opens is over. A sequence without a body is that character and
/// the next one.
pub open spec fn after_escape(s: Seq<char>) -> Seq<char> {
    if s.len() < 2 {
        Seq::empty()
    } else if s[1] == '[' {
        after_csi(s.skip(2))
    } else if s[1] == ']' {
        after_osc(s.skip(2))
    } else if opens(s.skip(1)) {
        s.skip(1)
    } else {
        s.skip(2)
    }
}

/// Reading a sequence never adds to what is left to read.
pub proof fn rest_is_no_longer(s: Seq<char>)
    ensures
        after_csi(s).len() <= s.len(),
        after_osc(s).len() <= s.len(),
    decreases s.len(),
{
    if s.len() != 0 {
        rest_is_no_longer(s.skip(1));
    }
}

/// The text of `s` without its control sequences.
pub open spec fn plain(s: Seq<char>) -> Seq<char>
    decreases s.len(),
{
    if s.len() == 0 {
        s
    } else if s[0] != ESC {
        seq![s[0]] + plain(s.skip(1))
    } else {
        proof {
            rest_is_no_longer(s.skip(2));
        }
        plain(after_escape(s))
    }
}

/// Whether a sequence with a body begins at position `i`.
fn opens_at(chars: &Vec<char>, i: usize) -> (b: bool)
    requires
        i < chars@.len(),
    ensures
        b == opens(chars@.skip(i as int)),
{
    chars.len() - i >= 2 && chars[i] == ESC && (chars[i + 1] == '[' || chars[i + 1] == ']')
}

/// Skips the rest of a control sequence.
fn skip_csi(chars: &Vec<char>, from: usize) -> (next: usize)
    requires
        from <= chars@.len(),
    ensures
        from <= next <= chars@.len(),
        chars@.skip(next as int) == after_csi(chars@.skip(from as int)),
{
    let mut i: usize = from;
    while i < chars.len()
        invariant
            from <= i <= chars@.len(),
            after_csi(chars@.skip(i as int)) == after_csi(chars@.skip(from as int)),
        decreases chars@.len() - i,
    {
        let c = chars[i];
        assert(chars@.skip(i as int).skip(1) =~= chars@.skip(i + 1));
        if ('a' <= c && c <= 'z') || ('A' <= c && c <= 'Z') || c == '~' {
            return i + 1;
        }
        if c == ESC {
            return if opens_at(chars, i) {
                i
            } else {
                i + 1
            };
        }
        i = i + 1;
    }
    i
}

/// Skips the rest of an operating system command.
fn skip_osc(chars: &Vec<char>, from: usize) -> (next: usize)
    requires
        from <= chars@.len(),
    ensures
        from <= next <= chars@.len(),
        chars@.skip(next as int) == after_osc(chars@.skip(from as int)),
{
    let mut i: usize = from;
    while i < chars.len()
        invariant
            from <= i <= chars@.len(),
            after_osc(chars@.skip(i as int)) == after_osc(chars@.skip(from as int)),
        decreases chars@.len() - i,
    {
        let c = chars[i];
        assert(chars@.skip(i as int).skip(1) =~= chars@.skip(i + 1));
        if c == BEL {
            return i + 1;
        }
        if c == ESC {
            if i + 1 < chars.len() && chars[i + 1] == '\\' {
                assert(chars@.skip(i as int).skip(2) =~= chars@.skip(i + 2));
                return i + 2;
            }
            return if opens_at(chars, i) {
                i
            } else {
                i + 1
            };
        }
        i = i + 1;
    }
    i
}

/// Drops the control sequences out of a line, so that it reads as plain text.
pub fn strip_ansi(line: &str) -> (out: String)
    ensures
        out@ == plain(line@),
{
    let chars = chars_of(line);
    let mut out = String::new();
    let mut i: usize = 0;
    assert(chars@.skip(0) =~= chars@);
    while i < chars.len()
        invariant
            chars@ == line@,
            i <= chars@.len(),
            out@ + plain(chars@.skip(i as int)) == plain(line@),
        decreases chars@.len() - i,
    {
        let ghost rest = chars@.skip(i as int);
        if chars[i] != ESC {
            out.push(chars[i]);
            i = i + 1;
            assert(rest.skip(1) =~= chars@.skip(i as int));
            assert(out@ + plain(rest.skip(1)) =~= out@.drop_last() + plain(rest));
        } else if i + 1 == chars.len() {
            i = i + 1;
            assert(after_escape(rest) =~= chars@.skip(i as int));
        } else {
            let opener = chars[i + 1];
            assert(rest.skip(1) =~= chars@.skip(i + 1));
            assert(rest.skip(2) =~= chars@.skip(i + 2));
            if opener == '[' {
                i = skip_csi(&chars, i + 2);
            } else if opener == ']' {
                i = skip_osc(&chars, i + 2);
            } else if opens_at(&chars, i + 1) {
                i = i + 1;
            } else {
                i = i + 2;
            }
            assert(after_escape(rest) =~= chars@.skip(i as int));
        }
    }
    assert(chars@.skip(i as int) =~= Seq::empty());
    assert(out@ =~= plain(line@));
    out
}

/// Plain text holds no escape character, and so no control sequence.
pub proof fn plain_text_has_no_escape(s: Seq<char>)
    ensures
        !plain(s).contains('\u{1b}'),
    decreases s.len(),
{
    if s.len() == 0 {
    } else if s[0] != ESC {
        plain_text_has_no_escape(s.skip(1));
        let rest = plain(s.skip(1));
        assert forall|i: int| 0 <= i < plain(s).len() implies plain(s)[i] != ESC by {
            if i > 0 {
                assert(plain(s)[i] == rest[i - 1]);
            }
        }
    } else {
        rest_is_no_longer(s.skip(2));
        plain_text_has_no_escape(after_escape(s));
    }
}

/// A text without an escape character is its own plain text.
pub proof fn text_without_escape_is_plain(s: Seq<char>)
    requires
        !s.contains('\u{1b}'),
    ensures
        plain(s) == s,
    decreases s.len(),
{
    if s.len() != 0 {
        assert(s[0] != ESC);
        assert forall|i: int| 0 <= i < s.skip(1).len() implies s.skip(1)[i] != ESC by {
            assert(s[i + 1] != ESC);
        }
        text_without_escape_is_plain(s.skip(1));
        assert(plain(s) =~= s);
    }
}

/// Stripping is idempotent: plain text stays as it is.
pub proof fn plain_is_idempotent(s: Seq<char>)
    ensures
        plain(plain(s)) == plain(s),
{
    plain_text_has_no_escape(s);
    text_without_escape_is_plain(plain(s));
}

/// Text without an escape character in front of a line comes through
/// untouched, and does not change how the rest of the line reads.
pub proof fn plain_keeps_leading_text(before: Seq<char>, rest: Seq<char>)
    requires
        !before.contains('\u{1b}'),
    ensures
        plain(before + rest) == before + plain(rest),
    decreases before.len(),
{
    if before.len() == 0 {
        assert(before + rest =~= rest);
        assert(before + plain(rest) =~= plain(rest));
    } else {
        assert(before[0] != ESC);
        assert forall|i: int| 0 <= i < before.skip(1).len() implies before.skip(1)[i] != ESC by {
            assert(before[i + 1] != ESC);
        }
        plain_keeps_leading_text(before.skip(1), rest);
        assert((before + rest).skip(1) =~= before.skip(1) + rest);
        assert(plain(before + rest) =~= before + plain(rest));
    }
}

proof fn open_sequence_breaks_in(t: Seq<char>, s: Seq<char>)
    requires
        opens(s),
    ensures
        after_csi(t + s) == after_csi(t) + s,
        after_osc(t + s) == after_osc(t) + s,
    decreases t.len(),
{
    if t.len() == 0 {
        assert(t + s =~= s);
        assert(after_csi(t) + s =~= s && after_osc(t) + s =~= s);
    } else {
        open_sequence_breaks_in(t.skip(1), s);
        assert((t + s).skip(1) =~= t.skip(1) + s);
        if t.len() >= 2 {
            assert((t + s).skip(2) =~= t.skip(2) + s);
        }
    }
}

/// A line can be read in two parts wherever a sequence with a body begins:
/// whatever stands before it, finished or not, does not swallow its opening.
pub proof fn plain_splits_at_sequences(before: Seq<char>, s: Seq<char>)
    requires
        s.len() >= 2 && s[0] == '\u{1b}' && (s[1] == '[' || s[1] == ']'),
    ensures
        plain(before + s) == plain(before) + plain(s),
    decreases before.len(),
{
    let all = before + s;
    if before.len() == 0 {
        assert(all =~= s);
        assert(plain(before) + plain(s) =~= plain(s));
    } else if before[0] != ESC {
        plain_splits_at_sequences(before.skip(1), s);
        assert(all.skip(1) =~= before.skip(1) + s);
        assert(plain(all) =~= plain(before) + plain(s));
    } else if before.len() == 1 {
        assert(all.skip(1) =~= s);
        assert(plain(Seq::<char>::empty()) =~= Seq::empty());
        assert(plain(before) + plain(s) =~= plain(s));
    } else {
        open_sequence_breaks_in(before.skip(2), s);
        rest_is_no_longer(before.skip(2));
        assert(all.skip(1) =~= before.skip(1) + s);
        assert(all.skip(2) =~= before.skip(2) + s);
        assert(opens(all.skip(1)) == opens(before.skip(1)));
        assert(after_escape(all) =~= after_escape(before) + s);
        plain_splits_at_sequences(after_escape(before), s);
    }
}

proof fn after_csi_skips(body: Seq<char>, rest: Seq<char>)
    requires
        forall|i: int| 0 <= i < body.len() ==> !ends_csi(#[trigger] body[i]) && body[i] != ESC,
    ensures
        after_csi(body + rest) == after_csi(rest),
    decreases body.len(),
{
    if body.len() == 0 {
        assert(body + rest =~= rest);
    } else {
        assert(!ends_csi(body[0]) && body[0] != ESC);
        assert forall|i: int| 0 <= i < body.skip(1).len() implies !ends_csi(
            #[trigger] body.skip(1)[i],
        ) && body.skip(1)[i] != ESC by {
            assert(body.skip(1)[i] == body[i + 1]);
        }
        after_csi_skips(body.skip(1), rest);
        assert((body + rest).skip(1) =~= body.skip(1) + rest);
    }
}

proof fn after_osc_skips(body: Seq<char>, rest: Seq<char>)
    requires
        forall|i: int| 0 <= i < body.len() ==> #[trigger] body[i] != BEL && body[i] != ESC,
    ensures
        after_osc(body + rest) == after_osc(rest),
    decreases body.len(),
{
    if body.len() == 0 {
        assert(body + rest =~= rest);
    } else {
        assert(body[0] != BEL && body[0] != ESC);
        assert forall|i: int| 0 <= i < body.skip(1).len() implies #[trigger] body.skip(1)[i] != BEL
            && body.skip(1)[i] != ESC by {
            assert(body.skip(1)[i] == body[i + 1]);
        }
        after_osc_skips(body.skip(1), rest);
        assert((body + rest).skip(1) =~= body.skip(1) + rest);
    }
}

/// A control sequence (`ESC [`, a body, then its final character) is dropped
/// whole, wherever it stands in a line. With the letter `m` at its end it is
/// one that sets a colour.
pub proof fn plain_drops_csi(before: Seq<char>, body: Seq<char>, end: char, rest: Seq<char>)
    requires
        forall|i: int|
            0 <= i < body.len() ==> !('a' <= #[trigger] body[i] <= 'z') && !('A' <= body[i] <= 'Z')
                && body[i] != '~' && body[i] != '\u{1b}',
        'a' <= end <= 'z' || 'A' <= end <= 'Z' || end == '~',
    ensures
        plain(before + (seq!['\u{1b}', '['] + body + seq![end] + rest)) == plain(before) + plain(
            rest,
        ),
{
    let s = seq![ESC, '['] + body + seq![end] + rest;
    let tail = seq![end] + rest;
    plain_splits_at_sequences(before, s);
    after_csi_skips(body, tail);
    assert(s.skip(2) =~= body + tail);
    assert(tail.skip(1) =~= rest);
}

/// An operating system command (`ESC ]`, a body, then the bell) is dropped
/// whole, wherever it stands in a line.
pub proof fn plain_drops_osc(before: Seq<char>, body: Seq<char>, rest: Seq<char>)
    requires
        forall|i: int| 0 <= i < body.len() ==> #[trigger] body[i] != '\u{7}' && body[i] != '\u{1b}',
    ensures
        plain(before + (seq!['\u{1b}', ']'] + body + seq!['\u{7}'] + rest)) == plain(before)
            + plain(rest),
{
    let s = seq![ESC, ']'] + body + seq![BEL] + rest;
    let tail = seq![BEL] + rest;
    plain_splits_at_sequences(before, s);
    after_osc_skips(body, tail);
    assert(s.skip(2) =~= body + tail);
    assert(tail.skip(1) =~= rest);
}

/// An operating system command that the string terminator (`ESC \`) ends is
/// dropped whole, wherever it stands in a line.
pub proof fn plain_drops_terminated_osc(before: Seq<char>, body: Seq<char>, rest: Seq<char>)
    requires
        forall|i: int| 0 <= i < body.len() ==> #[trigger] body[i] != '\u{7}' && body[i] != '\u{1b}',
    ensures
        plain(before + (seq!['\u{1b}', ']'] + body + seq!['\u{1b}', '\\'] + rest)) == plain(before)
            + plain(rest),
{
    let s = seq![ESC, ']'] + body + seq![ESC, '\\'] + rest;
    let tail = seq![ESC, '\\'] + rest;
    plain_splits_at_sequences(before, s);
    after_osc_skips(body, tail);
    assert(s.skip(2) =~= body + tail);
    assert(tail.skip(2) =~= rest);
}

/// A control sequence that the line does not finish is dropped to the end.
pub proof fn plain_drops_unfinished_csi(before: Seq<char>, body: Seq<char>)
    requires
        forall|i: int|
            0 <= i < body.len() ==> !('a' <= #[trigger] body[i] <= 'z') && !('A' <= body[i] <= 'Z')
                && body[i] != '~' && body[i] != '\u{1b}',
    ensures
        plain(before + (seq!['\u{1b}', '['] + body)) == plain(before),
{
    let s = seq![ESC, '['] + body;
    let none = Seq::<char>::empty();
    plain_splits_at_sequences(before, s);
    after_csi_skips(body, none);
    assert(s.skip(2) =~= body + none);
    assert(plain(none) == none);
    assert(plain(before) + plain(s) =~= plain(before));
}

/// An operating system command that the line does not finish is dropped to
/// the end.
pub proof fn plain_drops_unfinished_osc(before: Seq<char>, body: Seq<char>)
    requires
        forall|i: int| 0 <= i < body.len() ==> #[trigger] body[i] != '\u{7}' && body[i] != '\u{1b}',
    ensures
        plain(before + (seq!['\u{1b}', ']'] + body)) == plain(before),
{
    let s = seq![ESC, ']'] + body;
    let none = Seq::<char>::empty();
    plain_splits_at_sequences(before, s);
    after_osc_skips(body, none);
    assert(s.skip(2) =~= body + none);
    assert(plain(none) == none);
    assert(plain(before) + plain(s) =~= plain(before));
}

/// A control sequence that an escape character cuts short is dropped with that
/// character. What follows reads as if it began a line, unless it makes the
/// escape character open another sequence.
pub proof fn plain_resumes_after_a_broken_csi(before: Seq<char>, body: Seq<char>, rest: Seq<char>)
    requires
        forall|i: int|
            0 <= i < body.len() ==> !('a' <= #[trigger] body[i] <= 'z') && !('A' <= body[i] <= 'Z')
                && body[i] != '~' && body[i] != '\u{1b}',
        rest.len() == 0 || (rest[0] != '[' && rest[0] != ']'),
    ensures
        plain(before + (seq!['\u{1b}', '['] + body + seq!['\u{1b}'] + rest)) == plain(before)
            + plain(rest),
{
    let s = seq![ESC, '['] + body + seq![ESC] + rest;
    let broken = seq![ESC] + rest;
    plain_splits_at_sequences(before, s);
    after_csi_skips(body, broken);
    assert(s.skip(2) =~= body + broken);
    assert(broken.skip(1) =~= rest);
}

/// An operating system command that an escape character cuts short, without
/// the backslash that would make it the string terminator, is dropped with
/// that character. What follows reads as if it began a line, unless it makes
/// the escape character open another sequence.
pub proof fn plain_resumes_after_a_broken_osc(before: Seq<char>, body: Seq<char>, rest: Seq<char>)
    requires
        forall|i: int|
            0 <= i < body.len() ==> #[trigger] body[i] != '\u{7}' && body[i] != '\u{1b}',
        rest.len() == 0 || (rest[0] != '[' && rest[0] != ']' && rest[0] != '\\'),
    ensures
        plain(before + (seq!['\u{1b}', ']'] + body + seq!['\u{1b}'] + rest)) == plain(before)
            + plain(rest),
{
    let s = seq![ESC, ']'] + body + seq![ESC] + rest;
    let broken = seq![ESC] + rest;
    plain_splits_at_sequences(before, s);
    after_osc_skips(body, broken);
    assert(s.skip(2) =~= body + broken);
    assert(broken.skip(1) =~= rest);
}

/// A sequence without a body is the escape character and the next one, if
/// there is one, and is dropped.
pub proof fn plain_drops_short_sequences(c: char, rest: Seq<char>)
    requires
        c != '[' && c != ']',
        c == '\u{1b}' && rest.len() > 0 ==> rest[0] != '[' && rest[0] != ']',
    ensures
        plain(seq!['\u{1b}', c] + rest) == plain(rest),
        plain(seq!['\u{1b}']) == Seq::<char>::empty(),
{
    let s = seq![ESC, c] + rest;
    assert(s.skip(2) =~= rest);
    assert(!opens(s.skip(1)));
    assert(plain(after_escape(seq![ESC])) =~= Seq::empty());
}

/// A stripped line is the plain text of the line. It holds no escape
/// character, and stripping it once more changes nothing.
pub proof fn stripped_line_is_plain(line: &str, out: String, again: &str, twice: String)
    requires
        call_ensures(strip_ansi, (line,), out),
        again@ == out@,
        call_ensures(strip_ansi, (again,), twice),
    ensures
        out@ == plain(line@),
        !out@.contains('\u{1b}'),
        twice@ == out@,
{
    plain_text_has_no_escape(line@);
    plain_is_idempotent(line@);
}

} // verus!
