//! Parsers that turn decoded text into a [`Seriko`] tree.
//!
//! The top level is a linear pass: leading comment lines, the mandatory
//! `charset,<name>` declaration, any number of brace blocks of the six
//! kinds, trailing comment lines, and the exact end of input. [`parse`] is
//! the public entry point; [`spec_seriko`] is the grammar it is proved
//! against.
//!
//! [`Seriko`]: crate::ast::Seriko

pub mod blocks;
pub mod charset;
pub mod cursor;
pub mod descript;
pub mod parts;
pub mod surface;
pub mod surface_alias;
pub mod tooltip;

use vstd::prelude::*;

use crate::ast::{
    BraceContainer, CommentLine, Descript, SerikoCursor, Seriko, Surface, SurfaceAlias,
    SurfaceAppend, Tooltip,
};
use crate::model::{SpecBraceContainer, SpecSeriko};
use crate::parse::blocks::{
    parse_brace_block, parse_brace_block_full, spec_brace_block, spec_brace_block_full,
};
use crate::parse::charset::{
    charset_header_comments, charset_line, spec_charset_header_comments, spec_charset_line,
};
use crate::parse::parts::{spec_comment_text, text_chars, whole_line_as_comment_line};

verus! {

/// A failed parse: `offset` is the character position of the first input
/// the grammar could not consume.
#[derive(Debug, Clone, Copy, PartialEq, Eq, Structural)]
pub struct SerikoParseError {
    pub offset: usize,
}

/// One brace block of any kind, trying the six kinds in a fixed order.
pub open spec fn spec_brace(s: Seq<char>, pos: int) -> Option<(int, SpecBraceContainer)> {
    match spec_brace_block::<Descript>(s, pos) {
        Some(r) => Some(r),
        None => match spec_brace_block::<Surface>(s, pos) {
            Some(r) => Some(r),
            None => match spec_brace_block_full::<SurfaceAppend>(s, pos) {
                Some(r) => Some(r),
                None => match spec_brace_block::<SurfaceAlias>(s, pos) {
                    Some(r) => Some(r),
                    None => match spec_brace_block::<SerikoCursor>(s, pos) {
                        Some(r) => Some(r),
                        None => spec_brace_block::<Tooltip>(s, pos),
                    },
                },
            },
        },
    }
}

pub fn brace(input: &Vec<char>, pos: usize) -> (r: Option<(usize, BraceContainer)>)
    requires
        pos <= input@.len(),
    ensures
        match r {
            Some((p, b)) => spec_brace(input@, pos as int) == Some((p as int, b.deep_view()))
                && pos <= p <= input@.len(),
            None => spec_brace(input@, pos as int) is None,
        },
{
    if let Some(r) = parse_brace_block::<Descript>(input, pos) {
        Some(r)
    } else if let Some(r) = parse_brace_block::<Surface>(input, pos) {
        Some(r)
    } else if let Some(r) = parse_brace_block_full::<SurfaceAppend>(input, pos) {
        Some(r)
    } else if let Some(r) = parse_brace_block::<SurfaceAlias>(input, pos) {
        Some(r)
    } else if let Some(r) = parse_brace_block::<SerikoCursor>(input, pos) {
        Some(r)
    } else {
        parse_brace_block::<Tooltip>(input, pos)
    }
}

/// As many brace blocks as possible; never fails.
pub open spec fn spec_braces(s: Seq<char>, pos: int) -> (int, Seq<SpecBraceContainer>)
    decreases s.len() - pos,
{
    match spec_brace(s, pos) {
        Some((p, b)) => if pos < p && p <= s.len() {
            let rest = spec_braces(s, p);
            (rest.0, seq![b] + rest.1)
        } else {
            (pos, Seq::empty())
        },
        None => (pos, Seq::empty()),
    }
}

pub fn braces(input: &Vec<char>, pos: usize) -> (r: (usize, Vec<BraceContainer>))
    requires
        pos <= input@.len(),
    ensures
        r.0 as int == spec_braces(input@, pos as int).0,
        r.1.deep_view() == spec_braces(input@, pos as int).1,
        pos <= r.0 <= input@.len(),
{
    let ghost s = input@;
    let mut cur = pos;
    let mut acc: Vec<BraceContainer> = Vec::new();
    proof {
        assert(acc.deep_view() =~= Seq::<SpecBraceContainer>::empty());
        assert(spec_braces(s, pos as int).1 =~= acc.deep_view() + spec_braces(s, pos as int).1);
    }
    loop
        invariant
            pos <= cur <= input@.len(),
            s == input@,
            spec_braces(s, pos as int).0 == spec_braces(s, cur as int).0,
            spec_braces(s, pos as int).1 == acc.deep_view() + spec_braces(s, cur as int).1,
        decreases input@.len() - cur,
    {
        let ghost acc0 = acc;
        match brace(input, cur) {
            Some((p, b)) => {
                if p == cur {
                    proof {
                        assert(spec_braces(s, cur as int).1 =~= Seq::<
                            SpecBraceContainer,
                        >::empty());
                        assert(acc.deep_view() + spec_braces(s, cur as int).1 =~= acc.deep_view());
                    }
                    return (cur, acc);
                }
                let ghost bv = b.deep_view();
                acc.push(b);
                proof {
                    assert(acc.deep_view() =~= acc0.deep_view().push(bv));
                    assert(acc0.deep_view() + (seq![bv] + spec_braces(s, p as int).1)
                        =~= acc.deep_view() + spec_braces(s, p as int).1);
                }
                cur = p;
            },
            None => {
                proof {
                    assert(spec_braces(s, cur as int).1 =~= Seq::<SpecBraceContainer>::empty());
                    assert(acc.deep_view() + spec_braces(s, cur as int).1 =~= acc.deep_view());
                }
                return (cur, acc);
            },
        }
    }
}

/// Trailing comment lines after the last block; never fails.
pub open spec fn spec_trailing_comments(s: Seq<char>, pos: int) -> (int, Seq<Seq<char>>)
    decreases s.len() - pos,
{
    match spec_comment_text(s, pos) {
        Some((p, t)) => if pos < p && p <= s.len() {
            let rest = spec_trailing_comments(s, p);
            (rest.0, seq![t] + rest.1)
        } else {
            (pos, Seq::empty())
        },
        None => (pos, Seq::empty()),
    }
}

pub fn trailing_comments(input: &Vec<char>, pos: usize) -> (r: (usize, Vec<CommentLine>))
    requires
        pos <= input@.len(),
    ensures
        r.0 as int == spec_trailing_comments(input@, pos as int).0,
        r.1.deep_view() == spec_trailing_comments(input@, pos as int).1,
        pos <= r.0 <= input@.len(),
{
    let ghost s = input@;
    let mut cur = pos;
    let mut acc: Vec<CommentLine> = Vec::new();
    proof {
        assert(acc.deep_view() =~= Seq::<Seq<char>>::empty());
        assert(spec_trailing_comments(s, pos as int).1 =~= acc.deep_view()
            + spec_trailing_comments(s, pos as int).1);
    }
    loop
        invariant
            pos <= cur <= input@.len(),
            s == input@,
            spec_trailing_comments(s, pos as int).0 == spec_trailing_comments(s, cur as int).0,
            spec_trailing_comments(s, pos as int).1 == acc.deep_view() + spec_trailing_comments(
                s,
                cur as int,
            ).1,
        decreases input@.len() - cur,
    {
        let ghost acc0 = acc;
        match whole_line_as_comment_line(input, cur) {
            Some((p, c)) => {
                acc.push(c);
                proof {
                    assert(acc.deep_view() =~= acc0.deep_view().push(c.body@));
                    assert(acc0.deep_view() + (seq![c.body@] + spec_trailing_comments(
                        s,
                        p as int,
                    ).1) =~= acc.deep_view() + spec_trailing_comments(s, p as int).1);
                }
                cur = p;
            },
            None => {
                proof {
                    assert(spec_trailing_comments(s, cur as int).1 =~= Seq::<Seq<char>>::empty());
                    assert(acc.deep_view() + spec_trailing_comments(s, cur as int).1
                        =~= acc.deep_view());
                }
                return (cur, acc);
            },
        }
    }
}

/// The whole document grammar. `Ok` carries the model tree; `Err` carries
/// the position of the first character the grammar could not consume: the
/// start of the comment scan when no charset declaration is found, otherwise
/// the first position after the blocks and trailing comments that is not the
/// end of input.
pub open spec fn spec_seriko(s: Seq<char>) -> Result<SpecSeriko, int> {
    let head = spec_charset_header_comments(s, 0);
    match spec_charset_line(s, head.0) {
        None => Err(head.0),
        Some((p1, cs)) => {
            let bs = spec_braces(s, p1);
            let tr = spec_trailing_comments(s, bs.0);
            if tr.0 == s.len() {
                Ok(
                    SpecSeriko {
                        header_comments: head.1,
                        charset: cs,
                        braces: bs.1,
                        footer_comments: tr.1,
                    },
                )
            } else {
                Err(tr.0)
            }
        },
    }
}

/// Parse a whole document from its characters.
pub fn seriko(input: &Vec<char>) -> (r: Result<Seriko, SerikoParseError>)
    ensures
        match r {
            Ok(doc) => spec_seriko(input@) == Ok::<SpecSeriko, int>(doc.deep_view()),
            Err(e) => spec_seriko(input@) == Err::<SpecSeriko, int>(e.offset as int),
        },
{
    let (p0, header_comments) = charset_header_comments(input, 0);
    let (p1, cs) = match charset_line(input, p0) {
        Some(r) => r,
        None => {
            return Err(SerikoParseError { offset: p0 });
        },
    };
    let (p2, bs) = braces(input, p1);
    let (p3, footer_comments) = trailing_comments(input, p2);
    if p3 == input.len() {
        Ok(
            Seriko {
                header_comments,
                charset: cs,
                braces: bs,
                footer_comments,
            },
        )
    } else {
        Err(SerikoParseError { offset: p3 })
    }
}

/// Parse a whole document from text.
///
/// Succeeds exactly when the document grammar consumes the entire input;
/// the returned tree is then the model tree of the grammar, comment lines,
/// order, and all. On failure the error holds the offset of the first
/// character the grammar could not consume.
pub fn parse(input: &str) -> (r: Result<Seriko, SerikoParseError>)
    ensures
        match r {
            Ok(doc) => spec_seriko(input@) == Ok::<SpecSeriko, int>(doc.deep_view()),
            Err(e) => spec_seriko(input@) == Err::<SpecSeriko, int>(e.offset as int),
        },
{
    let chars = text_chars(input);
    seriko(&chars)
}

} // verus!
