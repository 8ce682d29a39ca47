//! Low-level text primitives shared by every grammar: newline detection,
//! keyword tags, whitespace and character runs, decimal numbers, booleans,
//! comment lines, and character ids.
//!
//! Every executable parser takes the whole input as a character vector plus a
//! start position and returns the next position with the parsed value; its
//! contract ties the result to the spec parser of the same grammar.

use vstd::prelude::*;

use crate::ast::{CommentLine, SurfaceTargetCharacterId};

verus! {

/// The keyword `t` occurs in `s` at exactly position `pos`.
pub open spec fn tag_at(s: Seq<char>, pos: int, t: Seq<char>) -> bool {
    &&& 0 <= pos
    &&& pos + t.len() <= s.len()
    &&& forall|j: int| 0 <= j < t.len() ==> s[pos + j] == t[j]
}

/// A newline at `pos`: `\r\n`, `\r`, or `\n`; returns the position after it.
pub open spec fn spec_newline(s: Seq<char>, pos: int) -> Option<int> {
    if 0 <= pos && pos + 1 < s.len() && s[pos] == '\r' && s[pos + 1] == '\n' {
        Some(pos + 2)
    } else if 0 <= pos && pos < s.len() && (s[pos] == '\r' || s[pos] == '\n') {
        Some(pos + 1)
    } else {
        None
    }
}

/// End of the longest run of characters satisfying `p`, starting at `pos`.
pub open spec fn run_end(s: Seq<char>, pos: int, p: spec_fn(char) -> bool) -> int
    decreases s.len() - pos,
{
    if 0 <= pos && pos < s.len() && p(s[pos]) {
        run_end(s, pos + 1, p)
    } else {
        pos
    }
}

pub proof fn lemma_run_end(s: Seq<char>, pos: int, p: spec_fn(char) -> bool)
    requires
        0 <= pos <= s.len(),
    ensures
        pos <= run_end(s, pos, p) <= s.len(),
        forall|i: int| pos <= i < run_end(s, pos, p) ==> p(s[i]),
        run_end(s, pos, p) < s.len() ==> !p(s[run_end(s, pos, p)]),
    decreases s.len() - pos,
{
    if pos < s.len() && p(s[pos]) {
        lemma_run_end(s, pos + 1, p);
    }
}

pub proof fn lemma_run_end_is(s: Seq<char>, pos: int, p: spec_fn(char) -> bool, e: int)
    requires
        0 <= pos <= e <= s.len(),
        forall|i: int| pos <= i < e ==> p(s[i]),
        e < s.len() ==> !p(s[e]),
    ensures
        run_end(s, pos, p) == e,
    decreases e - pos,
{
    if pos < e {
        assert(p(s[pos]));
        lemma_run_end_is(s, pos + 1, p, e);
    }
}

pub open spec fn is_space(c: char) -> bool {
    c == ' ' || c == '\t'
}

pub open spec fn is_ascii_digit(c: char) -> bool {
    48 <= c as u32 <= 57
}

pub open spec fn is_newline_char(c: char) -> bool {
    c == '\r' || c == '\n'
}

/// End of the run of spaces and tabs starting at `pos`.
pub open spec fn spec_space0(s: Seq<char>, pos: int) -> int {
    run_end(s, pos, |c: char| is_space(c))
}

/// End of the run of decimal digits starting at `pos`.
pub open spec fn digit_end(s: Seq<char>, pos: int) -> int {
    run_end(s, pos, |c: char| is_ascii_digit(c))
}

/// Numeric value of the digit characters of `s` between `pos` and `end`.
pub open spec fn digits_val(s: Seq<char>, pos: int, end: int) -> nat
    decreases end - pos,
{
    if pos >= end {
        0
    } else {
        (digits_val(s, pos, end - 1) * 10 + (s[end - 1] as u32 - 48)) as nat
    }
}

/// The longest digit run starting at `pos`, as a number: fails when there is
/// no digit at `pos` or the run's value exceeds `max` (the target width).
pub open spec fn spec_digits(s: Seq<char>, pos: int, max: u64) -> Option<(int, u64)> {
    let e = digit_end(s, pos);
    if e == pos {
        None
    } else if digits_val(s, pos, e) > max {
        None
    } else {
        Some((e, digits_val(s, pos, e) as u64))
    }
}

/// Executable match of the keyword `t` at `pos`.
pub fn tag(input: &Vec<char>, pos: usize, t: &str) -> (r: Option<usize>)
    requires
        pos <= input@.len(),
    ensures
        match r {
            Some(p) => tag_at(input@, pos as int, t@) && p == pos + t@.len() && p <= input@.len(),
            None => !tag_at(input@, pos as int, t@),
        },
{
    let tlen = t.unicode_len();
    if input.len() - pos < tlen {
        return None;
    }
    let mut i: usize = 0;
    while i < tlen
        invariant
            0 <= i <= tlen,
            tlen == t@.len(),
            pos + tlen <= input@.len(),
            input@.len() <= usize::MAX,
            forall|j: int| 0 <= j < i ==> input@[pos + j] == t@[j],
        decreases tlen - i,
    {
        if input[pos + i] != t.get_char(i) {
            return None;
        }
        i += 1;
    }
    Some(pos + tlen)
}

/// Executable newline parser.
pub fn newline_body(input: &Vec<char>, pos: usize) -> (r: Option<usize>)
    requires
        pos <= input@.len(),
    ensures
        match r {
            Some(p) => spec_newline(input@, pos as int) == Some(p as int) && pos < p
                <= input@.len(),
            None => spec_newline(input@, pos as int) is None,
        },
{
    if pos < input.len() && input[pos] == '\r' {
        if pos + 1 < input.len() && input[pos + 1] == '\n' {
            Some(pos + 2)
        } else {
            Some(pos + 1)
        }
    } else if pos < input.len() && input[pos] == '\n' {
        Some(pos + 1)
    } else {
        None
    }
}

/// Executable run of spaces and tabs; total, returns the end position.
pub fn space0(input: &Vec<char>, pos: usize) -> (r: usize)
    requires
        pos <= input@.len(),
    ensures
        r as int == spec_space0(input@, pos as int),
        pos <= r <= input@.len(),
{
    let mut i = pos;
    while i < input.len() && (input[i] == ' ' || input[i] == '\t')
        invariant
            pos <= i <= input@.len(),
            forall|j: int| pos <= j < i ==> is_space(input@[j]),
        decreases input@.len() - i,
    {
        i += 1;
    }
    proof {
        lemma_run_end_is(input@, pos as int, |c: char| is_space(c), i as int);
    }
    i
}

/// Executable digit-run number parser with an explicit maximum.
pub fn digits_u64(input: &Vec<char>, pos: usize, max: u64) -> (r: Option<(usize, u64)>)
    requires
        pos <= input@.len(),
    ensures
        match r {
            Some((p, v)) => spec_digits(input@, pos as int, max) == Some((p as int, v)) && pos < p
                <= input@.len(),
            None => spec_digits(input@, pos as int, max) is None,
        },
{
    let mut e = pos;
    while e < input.len() && 48 <= input[e] as u32 && input[e] as u32 <= 57
        invariant
            pos <= e <= input@.len(),
            forall|j: int| pos <= j < e ==> is_ascii_digit(input@[j]),
        decreases input@.len() - e,
    {
        e += 1;
    }
    proof {
        lemma_run_end_is(input@, pos as int, |c: char| is_ascii_digit(c), e as int);
    }
    if e == pos {
        return None;
    }
    let ghost s = input@;
    let ghost gpos = pos as int;
    let ghost ge = e as int;
    let mut acc: u64 = 0;
    let mut ok = true;
    let mut i = pos;
    while i < e
        invariant
            pos <= i <= e <= input@.len(),
            s == input@,
            gpos == pos as int,
            ge == e as int,
            forall|j: int| gpos <= j < ge ==> is_ascii_digit(s[j]),
            ok ==> acc == digits_val(s, gpos, i as int),
            !ok ==> digits_val(s, gpos, i as int) > u64::MAX,
        decreases e - i,
    {
        let d = (input[i] as u32 - 48) as u64;
        if ok {
            if acc > (u64::MAX - d) / 10 {
                proof {
                    assert(digits_val(s, gpos, i + 1) == digits_val(s, gpos, i as int) * 10 + (
                    s[i as int] as u32 - 48));
                    assert(acc * 10 + d > u64::MAX) by (nonlinear_arith)
                        requires
                            acc > (u64::MAX - d) / 10,
                            d <= 9,
                    ;
                }
                ok = false;
            } else {
                proof {
                    assert(acc * 10 + d <= u64::MAX) by (nonlinear_arith)
                        requires
                            acc <= (u64::MAX - d) / 10,
                            d <= 9,
                    ;
                }
                acc = acc * 10 + d;
            }
        }
        i += 1;
    }
    if !ok {
        return None;
    }
    if acc > max {
        None
    } else {
        Some((e, acc))
    }
}

pub open spec fn spec_digit_u8(s: Seq<char>, pos: int) -> Option<(int, u8)> {
    match spec_digits(s, pos, 255) {
        Some((p, v)) => Some((p, v as u8)),
        None => None,
    }
}

pub open spec fn spec_digit_u16(s: Seq<char>, pos: int) -> Option<(int, u16)> {
    match spec_digits(s, pos, 65535) {
        Some((p, v)) => Some((p, v as u16)),
        None => None,
    }
}

pub open spec fn spec_digit_u32(s: Seq<char>, pos: int) -> Option<(int, u32)> {
    match spec_digits(s, pos, 0xffff_ffff) {
        Some((p, v)) => Some((p, v as u32)),
        None => None,
    }
}

/// An optional leading `-` followed by a digit run, as an `i64`. The digit
/// run must fit in the positive range even under a minus sign, as a string
/// conversion of the unsigned part would demand.
pub open spec fn spec_digit_neg_i64(s: Seq<char>, pos: int) -> Option<(int, i64)> {
    if 0 <= pos && pos < s.len() && s[pos] == '-' {
        match spec_digits(s, pos + 1, 0x7fff_ffff_ffff_ffff) {
            Some((p, v)) => Some((p, (-(v as int)) as i64)),
            None => None,
        }
    } else {
        match spec_digits(s, pos, 0x7fff_ffff_ffff_ffff) {
            Some((p, v)) => Some((p, v as i64)),
            None => None,
        }
    }
}

pub fn digit_u8(input: &Vec<char>, pos: usize) -> (r: Option<(usize, u8)>)
    requires
        pos <= input@.len(),
    ensures
        match r {
            Some((p, v)) => spec_digit_u8(input@, pos as int) == Some((p as int, v)) && pos < p
                <= input@.len(),
            None => spec_digit_u8(input@, pos as int) is None,
        },
{
    match digits_u64(input, pos, 255) {
        Some((p, v)) => Some((p, v as u8)),
        None => None,
    }
}

pub fn digit_u16(input: &Vec<char>, pos: usize) -> (r: Option<(usize, u16)>)
    requires
        pos <= input@.len(),
    ensures
        match r {
            Some((p, v)) => spec_digit_u16(input@, pos as int) == Some((p as int, v)) && pos < p
                <= input@.len(),
            None => spec_digit_u16(input@, pos as int) is None,
        },
{
    match digits_u64(input, pos, 65535) {
        Some((p, v)) => Some((p, v as u16)),
        None => None,
    }
}

pub fn digit_u32(input: &Vec<char>, pos: usize) -> (r: Option<(usize, u32)>)
    requires
        pos <= input@.len(),
    ensures
        match r {
            Some((p, v)) => spec_digit_u32(input@, pos as int) == Some((p as int, v)) && pos < p
                <= input@.len(),
            None => spec_digit_u32(input@, pos as int) is None,
        },
{
    match digits_u64(input, pos, 0xffff_ffff) {
        Some((p, v)) => Some((p, v as u32)),
        None => None,
    }
}

pub fn digit_neg_i64(input: &Vec<char>, pos: usize) -> (r: Option<(usize, i64)>)
    requires
        pos <= input@.len(),
    ensures
        match r {
            Some((p, v)) => spec_digit_neg_i64(input@, pos as int) == Some((p as int, v)) && pos
                < p <= input@.len(),
            None => spec_digit_neg_i64(input@, pos as int) is None,
        },
{
    if pos < input.len() && input[pos] == '-' {
        match digits_u64(input, pos + 1, 0x7fff_ffff_ffff_ffff) {
            Some((p, v)) => Some((p, -(v as i64))),
            None => None,
        }
    } else {
        match digits_u64(input, pos, 0x7fff_ffff_ffff_ffff) {
            Some((p, v)) => Some((p, v as i64)),
            None => None,
        }
    }
}

/// The literals `true` and `false`, case-sensitive.
pub open spec fn spec_boolean(s: Seq<char>, pos: int) -> Option<(int, bool)> {
    if tag_at(s, pos, "true"@) {
        Some((pos + "true"@.len(), true))
    } else if tag_at(s, pos, "false"@) {
        Some((pos + "false"@.len(), false))
    } else {
        None
    }
}

pub fn boolean(input: &Vec<char>, pos: usize) -> (r: Option<(usize, bool)>)
    requires
        pos <= input@.len(),
    ensures
        match r {
            Some((p, v)) => spec_boolean(input@, pos as int) == Some((p as int, v)) && pos <= p
                <= input@.len(),
            None => spec_boolean(input@, pos as int) is None,
        },
{
    if let Some(p) = tag(input, pos, "true") {
        Some((p, true))
    } else if let Some(p) = tag(input, pos, "false") {
        Some((p, false))
    } else {
        None
    }
}

/// `sakura`, `kero`, or `char<digits>`.
pub open spec fn spec_char_id(s: Seq<char>, pos: int) -> Option<(int, SurfaceTargetCharacterId)> {
    if tag_at(s, pos, "sakura"@) {
        Some(((pos + "sakura"@.len()) as int, SurfaceTargetCharacterId::Sakura))
    } else if tag_at(s, pos, "kero"@) {
        Some(((pos + "kero"@.len()) as int, SurfaceTargetCharacterId::Kero))
    } else if tag_at(s, pos, "char"@) {
        match spec_digit_u32(s, pos + "char"@.len()) {
            Some((p, v)) => Some((p, SurfaceTargetCharacterId::Char(v))),
            None => None,
        }
    } else {
        None
    }
}

pub fn surface_target_character_id(input: &Vec<char>, pos: usize) -> (r: Option<
    (usize, SurfaceTargetCharacterId),
>)
    requires
        pos <= input@.len(),
    ensures
        match r {
            Some((p, v)) => spec_char_id(input@, pos as int) == Some((p as int, v)) && pos <= p
                <= input@.len(),
            None => spec_char_id(input@, pos as int) is None,
        },
{
    if let Some(p) = tag(input, pos, "sakura") {
        Some((p, SurfaceTargetCharacterId::Sakura))
    } else if let Some(p) = tag(input, pos, "kero") {
        Some((p, SurfaceTargetCharacterId::Kero))
    } else if let Some(p) = tag(input, pos, "char") {
        match digit_u32(input, p) {
            Some((p2, v)) => Some((p2, SurfaceTargetCharacterId::Char(v))),
            None => None,
        }
    } else {
        None
    }
}

/// Trailing spaces and the newline that close a block name line.
pub open spec fn spec_line_tail(s: Seq<char>, pos: int) -> Option<int> {
    spec_newline(s, spec_space0(s, pos))
}

pub fn line_tail(input: &Vec<char>, pos: usize) -> (r: Option<usize>)
    requires
        pos <= input@.len(),
    ensures
        match r {
            Some(p) => spec_line_tail(input@, pos as int) == Some(p as int) && pos < p
                <= input@.len(),
            None => spec_line_tail(input@, pos as int) is None,
        },
{
    let sp = space0(input, pos);
    newline_body(input, sp)
}

/// End of the run of characters that are not part of a newline.
pub open spec fn not_nl_end(s: Seq<char>, pos: int) -> int {
    run_end(s, pos, |c: char| !is_newline_char(c))
}

/// Executable scan to the end of the current line.
pub fn scan_not_newline(input: &Vec<char>, pos: usize) -> (r: usize)
    requires
        pos <= input@.len(),
    ensures
        r as int == not_nl_end(input@, pos as int),
        pos <= r <= input@.len(),
{
    let mut i = pos;
    while i < input.len() && input[i] != '\r' && input[i] != '\n'
        invariant
            pos <= i <= input@.len(),
            forall|j: int| pos <= j < i ==> !is_newline_char(input@[j]),
        decreases input@.len() - i,
    {
        i += 1;
    }
    proof {
        lemma_run_end_is(input@, pos as int, |c: char| !is_newline_char(c), i as int);
    }
    i
}

/// Greedy run of `,<digit>` continuations.
pub open spec fn spec_comma_digit_tail(s: Seq<char>, pos: int) -> (int, Seq<u32>)
    decreases s.len() - pos,
{
    if 0 <= pos && pos < s.len() && s[pos] == ',' {
        match spec_digit_u32(s, pos + 1) {
            Some((p, v)) => if pos < p && p <= s.len() {
                let rest = spec_comma_digit_tail(s, p);
                (rest.0, seq![v] + rest.1)
            } else {
                (pos, Seq::empty())
            },
            None => (pos, Seq::empty()),
        }
    } else {
        (pos, Seq::empty())
    }
}

/// `<digit>(,<digit>)*`.
pub open spec fn spec_digit_list(s: Seq<char>, pos: int) -> Option<(int, Seq<u32>)> {
    match spec_digit_u32(s, pos) {
        Some((p, v)) => {
            let rest = spec_comma_digit_tail(s, p);
            Some((rest.0, seq![v] + rest.1))
        },
        None => None,
    }
}

pub fn digit_list(input: &Vec<char>, pos: usize) -> (r: Option<(usize, Vec<u32>)>)
    requires
        pos <= input@.len(),
    ensures
        match r {
            Some((p, v)) => spec_digit_list(input@, pos as int) == Some((p as int, v.deep_view()))
                && pos <= p <= input@.len(),
            None => spec_digit_list(input@, pos as int) is None,
        },
{
    let ghost s = input@;
    let first = match digit_u32(input, pos) {
        Some(r) => r,
        None => {
            return None;
        },
    };
    let mut acc: Vec<u32> = Vec::new();
    acc.push(first.1);
    let start = first.0;
    let mut cur = start;
    proof {
        assert(acc.deep_view() =~= seq![first.1]);
    }
    loop
        invariant
            pos <= start <= cur <= input@.len(),
            s == input@,
            spec_digit_u32(s, pos as int) == Some((start as int, first.1)),
            spec_comma_digit_tail(s, start as int).0 == spec_comma_digit_tail(s, cur as int).0,
            seq![first.1] + spec_comma_digit_tail(s, start as int).1 == acc.deep_view()
                + spec_comma_digit_tail(s, cur as int).1,
        decreases input@.len() - cur,
    {
        let ghost acc0 = acc;
        if cur < input.len() && input[cur] == ',' {
            match digit_u32(input, cur + 1) {
                Some((p, v)) => {
                    acc.push(v);
                    proof {
                        assert(acc.deep_view() =~= acc0.deep_view().push(v));
                        assert(acc0.deep_view() + (seq![v] + spec_comma_digit_tail(
                            s,
                            p as int,
                        ).1) =~= acc.deep_view() + spec_comma_digit_tail(s, p as int).1);
                    }
                    cur = p;
                },
                None => {
                    proof {
                        assert(spec_comma_digit_tail(s, cur as int).1 =~= Seq::<u32>::empty());
                        assert(acc.deep_view() + spec_comma_digit_tail(s, cur as int).1
                            =~= acc.deep_view());
                    }
                    return Some((cur, acc));
                },
            }
        } else {
            proof {
                assert(spec_comma_digit_tail(s, cur as int).1 =~= Seq::<u32>::empty());
                assert(acc.deep_view() + spec_comma_digit_tail(s, cur as int).1
                    =~= acc.deep_view());
            }
            return Some((cur, acc));
        }
    }
}

/// End of the run of characters other than a comma.
pub open spec fn not_comma_end(s: Seq<char>, pos: int) -> int {
    run_end(s, pos, |c: char| c != ',')
}

/// Executable scan to the next comma or the end of input.
pub fn scan_not_comma(input: &Vec<char>, pos: usize) -> (r: usize)
    requires
        pos <= input@.len(),
    ensures
        r as int == not_comma_end(input@, pos as int),
        pos <= r <= input@.len(),
{
    let mut i = pos;
    while i < input.len() && input[i] != ','
        invariant
            pos <= i <= input@.len(),
            forall|j: int| pos <= j < i ==> input@[j] != ',',
        decreases input@.len() - i,
    {
        i += 1;
    }
    proof {
        lemma_run_end_is(input@, pos as int, |c: char| c != ',', i as int);
    }
    i
}

/// Relies on `String`'s `FromIterator<char>` impl through `Iterator::collect`:
/// the result holds exactly the given characters, in order.
#[verifier::external_body]
fn chars_to_string(chars: &Vec<char>) -> (r: String)
    ensures
        r@ == chars@,
{
    chars.iter().collect()
}

/// The characters of a text, one vector entry per `char`, so that parsers
/// can index positions directly.
pub fn text_chars(s: &str) -> (r: Vec<char>)
    ensures
        r@ == s@,
{
    let n = s.unicode_len();
    let mut v: Vec<char> = Vec::new();
    let mut i: usize = 0;
    while i < n
        invariant
            0 <= i <= n,
            n == s@.len(),
            v@ == s@.subrange(0, i as int),
        decreases n - i,
    {
        let c = s.get_char(i);
        v.push(c);
        proof {
            assert(v@ =~= s@.subrange(0, (i + 1) as int));
        }
        i += 1;
    }
    proof {
        assert(v@ =~= s@);
    }
    v
}

/// The characters of `input` between `from` and `to`, as a `String`.
pub fn char_range_string(input: &Vec<char>, from: usize, to: usize) -> (r: String)
    requires
        from <= to <= input@.len(),
    ensures
        r@ == input@.subrange(from as int, to as int),
{
    let mut v: Vec<char> = Vec::new();
    let mut i = from;
    while i < to
        invariant
            from <= i <= to <= input@.len(),
            v@ == input@.subrange(from as int, i as int),
        decreases to - i,
    {
        v.push(input[i]);
        proof {
            assert(v@ =~= input@.subrange(from as int, (i + 1) as int));
        }
        i += 1;
    }
    chars_to_string(&v)
}

/// A whole physical line taken verbatim as comment text, without its newline.
/// An immediate newline yields the empty text; a line that starts with `{` or
/// `}` is refused; the newline after the text is mandatory.
pub open spec fn spec_comment_text(s: Seq<char>, pos: int) -> Option<(int, Seq<char>)> {
    match spec_newline(s, pos) {
        Some(p) => Some((p, Seq::empty())),
        None => if 0 <= pos && pos < s.len() && s[pos] != '{' && s[pos] != '}' {
            let e = not_nl_end(s, pos);
            match spec_newline(s, e) {
                Some(p2) => Some((p2, s.subrange(pos, e))),
                None => None,
            }
        } else {
            None
        },
    }
}

pub fn whole_line_without_newline(input: &Vec<char>, pos: usize) -> (r: Option<(usize, String)>)
    requires
        pos <= input@.len(),
    ensures
        match r {
            Some((p, t)) => spec_comment_text(input@, pos as int) == Some((p as int, t@)) && pos
                < p <= input@.len(),
            None => spec_comment_text(input@, pos as int) is None,
        },
{
    if let Some(p) = newline_body(input, pos) {
        let t = String::new();
        proof {
            assert(t@ =~= Seq::<char>::empty());
        }
        return Some((p, t));
    }
    if pos < input.len() && input[pos] != '{' && input[pos] != '}' {
        let e = scan_not_newline(input, pos);
        match newline_body(input, e) {
            Some(p2) => Some((p2, char_range_string(input, pos, e))),
            None => None,
        }
    } else {
        None
    }
}

pub fn whole_line_as_comment_line(input: &Vec<char>, pos: usize) -> (r: Option<
    (usize, CommentLine),
>)
    requires
        pos <= input@.len(),
    ensures
        match r {
            Some((p, c)) => spec_comment_text(input@, pos as int) == Some((p as int, c.body@))
                && pos < p <= input@.len(),
            None => spec_comment_text(input@, pos as int) is None,
        },
{
    match whole_line_without_newline(input, pos) {
        Some((p, t)) => Some((p, CommentLine { body: t })),
        None => None,
    }
}

} // verus!
