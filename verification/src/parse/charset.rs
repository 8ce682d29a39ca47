//! The mandatory `charset,<name>` declaration line.

use vstd::prelude::*;

use crate::ast::{Charset, CommentLine};
use crate::parse::parts::{
    newline_body, space0, spec_comment_text, spec_newline, spec_space0, tag, tag_at,
    whole_line_as_comment_line,
};

verus! {

/// One recognized charset name.
pub open spec fn spec_charset_value(s: Seq<char>, pos: int) -> Option<(int, Charset)> {
    if tag_at(s, pos, "ASCII"@) {
        Some((pos + "ASCII"@.len(), Charset::ASCII))
    } else if tag_at(s, pos, "Shift_JIS"@) {
        Some((pos + "Shift_JIS"@.len(), Charset::ShiftJIS))
    } else if tag_at(s, pos, "UTF-8"@) {
        Some((pos + "UTF-8"@.len(), Charset::UTF8))
    } else {
        None
    }
}

pub fn charset_value(input: &Vec<char>, pos: usize) -> (r: Option<(usize, Charset)>)
    requires
        pos <= input@.len(),
    ensures
        match r {
            Some((p, v)) => spec_charset_value(input@, pos as int) == Some((p as int, v)) && pos
                <= p <= input@.len(),
            None => spec_charset_value(input@, pos as int) is None,
        },
{
    if let Some(p) = tag(input, pos, "ASCII") {
        Some((p, Charset::ASCII))
    } else if let Some(p) = tag(input, pos, "Shift_JIS") {
        Some((p, Charset::ShiftJIS))
    } else if let Some(p) = tag(input, pos, "UTF-8") {
        Some((p, Charset::UTF8))
    } else {
        None
    }
}

/// The whole declaration line: `charset,<name>`, optionally surrounded by
/// spaces, closed by a newline or the end of input.
pub open spec fn spec_charset_line(s: Seq<char>, pos: int) -> Option<(int, Charset)> {
    let sp = spec_space0(s, pos);
    if tag_at(s, sp, "charset,"@) {
        match spec_charset_value(s, sp + "charset,"@.len()) {
            Some((p, cs)) => {
                let sp2 = spec_space0(s, p);
                match spec_newline(s, sp2) {
                    Some(p2) => Some((p2, cs)),
                    None => if sp2 == s.len() {
                        Some((sp2, cs))
                    } else {
                        None
                    },
                }
            },
            None => None,
        }
    } else {
        None
    }
}

pub fn charset_line(input: &Vec<char>, pos: usize) -> (r: Option<(usize, Charset)>)
    requires
        pos <= input@.len(),
    ensures
        match r {
            Some((p, v)) => spec_charset_line(input@, pos as int) == Some((p as int, v)) && pos
                <= p <= input@.len(),
            None => spec_charset_line(input@, pos as int) is None,
        },
{
    let sp = space0(input, pos);
    let p0 = match tag(input, sp, "charset,") {
        Some(p) => p,
        None => {
            return None;
        },
    };
    match charset_value(input, p0) {
        Some((p, cs)) => {
            let sp2 = space0(input, p);
            match newline_body(input, sp2) {
                Some(p2) => Some((p2, cs)),
                None => if sp2 == input.len() {
                    Some((sp2, cs))
                } else {
                    None
                },
            }
        },
        None => None,
    }
}

/// Comment lines scanned until the charset declaration starts; never fails.
pub open spec fn spec_charset_header_comments(s: Seq<char>, pos: int) -> (int, Seq<Seq<char>>)
    decreases s.len() - pos,
{
    if spec_charset_line(s, pos) is Some {
        (pos, Seq::empty())
    } else {
        match spec_comment_text(s, pos) {
            Some((p, t)) => if pos < p && p <= s.len() {
                let rest = spec_charset_header_comments(s, p);
                (rest.0, seq![t] + rest.1)
            } else {
                (pos, Seq::empty())
            },
            None => (pos, Seq::empty()),
        }
    }
}

pub fn charset_header_comments(input: &Vec<char>, pos: usize) -> (r: (usize, Vec<CommentLine>))
    requires
        pos <= input@.len(),
    ensures
        r.0 as int == spec_charset_header_comments(input@, pos as int).0,
        r.1.deep_view() == spec_charset_header_comments(input@, pos as int).1,
        pos <= r.0 <= input@.len(),
{
    let ghost s = input@;
    let mut cur = pos;
    let mut acc: Vec<CommentLine> = Vec::new();
    proof {
        assert(acc.deep_view() =~= Seq::<Seq<char>>::empty());
        assert(spec_charset_header_comments(s, pos as int).1 =~= acc.deep_view()
            + spec_charset_header_comments(s, pos as int).1);
    }
    loop
        invariant
            pos <= cur <= input@.len(),
            s == input@,
            spec_charset_header_comments(s, pos as int).0 == spec_charset_header_comments(
                s,
                cur as int,
            ).0,
            spec_charset_header_comments(s, pos as int).1 == acc.deep_view()
                + spec_charset_header_comments(s, cur as int).1,
        decreases input@.len() - cur,
    {
        let ghost acc0 = acc;
        if charset_line(input, cur).is_some() {
            proof {
                assert(spec_charset_header_comments(s, cur as int).1 =~= Seq::<
                    Seq<char>,
                >::empty());
                assert(acc.deep_view() + spec_charset_header_comments(s, cur as int).1
                    =~= acc.deep_view());
            }
            return (cur, acc);
        }
        match whole_line_as_comment_line(input, cur) {
            Some((p, c)) => {
                acc.push(c);
                proof {
                    assert(acc.deep_view() =~= acc0.deep_view().push(c.body@));
                    assert(acc0.deep_view() + (seq![c.body@] + spec_charset_header_comments(
                        s,
                        p as int,
                    ).1) =~= acc.deep_view() + spec_charset_header_comments(s, p as int).1);
                }
                cur = p;
            },
            None => {
                proof {
                    assert(spec_charset_header_comments(s, cur as int).1 =~= Seq::<
                        Seq<char>,
                    >::empty());
                    assert(acc.deep_view() + spec_charset_header_comments(s, cur as int).1
                        =~= acc.deep_view());
                }
                return (cur, acc);
            },
        }
    }
}

} // verus!
