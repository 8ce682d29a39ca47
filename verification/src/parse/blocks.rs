//! The generic brace-block engine.
//!
//! Every block kind shares one shape: optional comment lines, a name line,
//! an opening `{` line, classified body lines, and a closing `}` line. A
//! block kind plugs its name grammar, body-line grammar, and constructors
//! into [`BlockGrammar`]; the engine parses the shared shape once, generically,
//! with one spec parser and one proved executable parser for each layer.

use vstd::prelude::*;

use crate::ast::{Brace, BraceContainer, CommentLine, LineContainer};
use crate::model::{SpecBrace, SpecBraceContainer, SpecLine};
use crate::parse::parts::{
    char_range_string, newline_body, not_nl_end, scan_not_newline, space0, spec_comment_text,
    spec_newline, spec_space0, tag, tag_at, whole_line_as_comment_line,
};

verus! {

/// One brace-block kind: its name grammar, its body-line grammar, and how a
/// parsed name and line list become a tree node.
pub trait BlockGrammar: Sized + DeepView {
    /// Value carried by the block's name line.
    type Name: DeepView;

    /// Value carried by one parsed body line.
    type Inner: DeepView;

    /// The block's whole name line (leading spaces, the name itself, trailing
    /// spaces, and the newline) starting at `pos`.
    spec fn spec_name(s: Seq<char>, pos: int) -> Option<(int, <Self::Name as DeepView>::V)>;

    /// One body line's meaningful content starting at `pos` (spaces and the
    /// newline around it belong to the line classifier, not to this grammar).
    spec fn spec_inner(s: Seq<char>, pos: int) -> Option<(int, <Self::Inner as DeepView>::V)>;

    /// Model-level constructor.
    spec fn make(
        name: <Self::Name as DeepView>::V,
        lines: Seq<SpecLine<<Self::Inner as DeepView>::V>>,
    ) -> Self::V;

    /// Model-level injection into the block-kind sum.
    spec fn wrap(v: Self::V) -> SpecBrace;

    fn parse_name(input: &Vec<char>, pos: usize) -> (r: Option<(usize, Self::Name)>)
        requires
            pos <= input@.len(),
        ensures
            match r {
                Some((p, v)) => Self::spec_name(input@, pos as int) == Some(
                    (p as int, v.deep_view()),
                ) && pos <= p <= input@.len(),
                None => Self::spec_name(input@, pos as int) is None,
            },
    ;

    fn parse_inner(input: &Vec<char>, pos: usize) -> (r: Option<(usize, Self::Inner)>)
        requires
            pos <= input@.len(),
        ensures
            match r {
                Some((p, v)) => Self::spec_inner(input@, pos as int) == Some(
                    (p as int, v.deep_view()),
                ) && pos <= p <= input@.len(),
                None => Self::spec_inner(input@, pos as int) is None,
            },
    ;

    fn make_exec(name: Self::Name, lines: Vec<LineContainer<Self::Inner>>) -> (r: Self)
        ensures
            r.deep_view() == Self::make(name.deep_view(), lines.deep_view()),
    ;

    fn wrap_exec(self) -> (r: Brace)
        ensures
            r.deep_view() == Self::wrap(self.deep_view()),
    ;
}

/// A block-body line taken wholesale as comment text: the entire physical
/// line up to (and not including) its newline, leading whitespace and all.
/// A line whose first non-space character is `{` or `}` is refused, so that
/// an indented closing brace still ends the body scan; the newline after
/// the line is mandatory.
pub open spec fn spec_body_comment_line(s: Seq<char>, pos: int) -> Option<(int, Seq<char>)> {
    let sp = spec_space0(s, pos);
    match spec_newline(s, sp) {
        Some(p) => Some((p, s.subrange(pos, sp))),
        None => if 0 <= sp && sp < s.len() && s[sp] != '{' && s[sp] != '}' {
            let e = not_nl_end(s, sp);
            match spec_newline(s, e) {
                Some(p2) => Some((p2, s.subrange(pos, e))),
                None => None,
            }
        } else {
            None
        },
    }
}

pub fn body_comment_line(input: &Vec<char>, pos: usize) -> (r: Option<(usize, CommentLine)>)
    requires
        pos <= input@.len(),
    ensures
        match r {
            Some((p, c)) => spec_body_comment_line(input@, pos as int) == Some(
                (p as int, c.body@),
            ) && pos < p <= input@.len(),
            None => spec_body_comment_line(input@, pos as int) is None,
        },
{
    let sp = space0(input, pos);
    if let Some(p) = newline_body(input, sp) {
        return Some((p, CommentLine { body: char_range_string(input, pos, sp) }));
    }
    if sp < input.len() && input[sp] != '{' && input[sp] != '}' {
        let e = scan_not_newline(input, sp);
        match newline_body(input, e) {
            Some(p2) => Some((p2, CommentLine { body: char_range_string(input, pos, e) })),
            None => None,
        }
    } else {
        None
    }
}

/// One classified line of a block body: the body grammar bracketed by spaces
/// and a newline, or else the whole physical line verbatim as a comment.
pub open spec fn spec_line<B: BlockGrammar>(s: Seq<char>, pos: int) -> Option<
    (int, SpecLine<<B::Inner as DeepView>::V>),
> {
    let sp = spec_space0(s, pos);
    let body = match B::spec_inner(s, sp) {
        Some((p2, v)) => {
            let sp2 = spec_space0(s, p2);
            match spec_newline(s, sp2) {
                Some(p3) => Some((p3, SpecLine::Body(v))),
                None => None,
            }
        },
        None => None,
    };
    match body {
        Some(r) => Some(r),
        None => match spec_body_comment_line(s, pos) {
            Some((p2, t)) => Some((p2, SpecLine::<<B::Inner as DeepView>::V>::Comment(t))),
            None => None,
        },
    }
}

/// As many classified lines as possible; never fails.
pub open spec fn spec_lines<B: BlockGrammar>(s: Seq<char>, pos: int) -> (
    int,
    Seq<SpecLine<<B::Inner as DeepView>::V>>,
)
    decreases s.len() - pos,
{
    match spec_line::<B>(s, pos) {
        Some((p, l)) => if pos < p <= s.len() {
            let rest = spec_lines::<B>(s, p);
            (rest.0, seq![l] + rest.1)
        } else {
            (pos, Seq::empty())
        },
        None => (pos, Seq::empty()),
    }
}

/// The braced body: a `{` line, classified lines, and a `}` line (which may
/// end at end of input instead of a newline).
pub open spec fn spec_inner_brace<B: BlockGrammar>(s: Seq<char>, pos: int) -> Option<
    (int, Seq<SpecLine<<B::Inner as DeepView>::V>>),
> {
    let sp = spec_space0(s, pos);
    if tag_at(s, sp, "{"@) {
        let sp2 = spec_space0(s, sp + "{"@.len());
        match spec_newline(s, sp2) {
            Some(p) => {
                let body = spec_lines::<B>(s, p);
                let sp3 = spec_space0(s, body.0);
                if tag_at(s, sp3, "}"@) {
                    let sp4 = spec_space0(s, sp3 + "}"@.len());
                    match spec_newline(s, sp4) {
                        Some(p2) => Some((p2, body.1)),
                        None => if sp4 == s.len() {
                            Some((sp4, body.1))
                        } else {
                            None
                        },
                    }
                } else {
                    None
                }
            },
            None => None,
        }
    } else {
        None
    }
}

/// A whole block: name line, then braced body.
pub open spec fn spec_block<B: BlockGrammar>(s: Seq<char>, pos: int) -> Option<(int, B::V)> {
    match B::spec_name(s, pos) {
        Some((p, name)) => match spec_inner_brace::<B>(s, p) {
            Some((p2, lines)) => Some((p2, B::make(name, lines))),
            None => None,
        },
        None => None,
    }
}

/// Comment lines scanned one at a time until this block kind's name line
/// starts; never fails.
pub open spec fn spec_header_comments<B: BlockGrammar>(s: Seq<char>, pos: int) -> (
    int,
    Seq<Seq<char>>,
)
    decreases s.len() - pos,
{
    if B::spec_name(s, pos) is Some {
        (pos, Seq::empty())
    } else {
        match spec_comment_text(s, pos) {
            Some((p, t)) => if pos < p <= s.len() {
                let rest = spec_header_comments::<B>(s, p);
                (rest.0, seq![t] + rest.1)
            } else {
                (pos, Seq::empty())
            },
            None => (pos, Seq::empty()),
        }
    }
}

/// Header comments followed by the block itself.
pub open spec fn spec_brace_block<B: BlockGrammar>(s: Seq<char>, pos: int) -> Option<
    (int, SpecBraceContainer),
> {
    let head = spec_header_comments::<B>(s, pos);
    match spec_block::<B>(s, head.0) {
        Some((p2, b)) => Some(
            (p2, SpecBraceContainer { header_comments: head.1, body: B::wrap(b) }),
        ),
        None => None,
    }
}

/// A block never parses without its closing brace: whenever the block
/// grammar succeeds, a `}` character stands somewhere before the position
/// where the block ends. Together with the whole-document grammar's
/// end-of-input requirement this is why an unclosed block yields a syntax
/// error and never a partial document.
pub proof fn lemma_block_has_closing_brace<B: BlockGrammar>(s: Seq<char>, pos: int, p: int)
    requires
        spec_block::<B>(s, pos) matches Some((q, _)) && q == p,
    ensures
        exists|i: int| 0 <= i < p && s[i] == '}',
{
    reveal_strlit("{");
    reveal_strlit("}");
    let name = B::spec_name(s, pos)->Some_0;
    let np = name.0;
    let body = spec_lines::<B>(s, spec_newline(s, spec_space0(s, spec_space0(s, np) + 1))->Some_0);
    let sp3 = spec_space0(s, body.0);
    assert(tag_at(s, sp3, "}"@));
    assert(s[sp3 + 0] == "}"@[0]);
    assert(s[sp3] == '}');
    lemma_space0_bounds(s, sp3 + 1);
    assert(sp3 < p);
}

/// `spec_space0` never moves backwards and never leaves the text.
pub proof fn lemma_space0_bounds(s: Seq<char>, pos: int)
    requires
        0 <= pos <= s.len(),
    ensures
        pos <= spec_space0(s, pos) <= s.len(),
{
    crate::parse::parts::lemma_run_end(s, pos, |c: char| crate::parse::parts::is_space(c));
}

/// A blank line inside a block body is kept as an empty comment at its
/// position: when a newline stands directly at `pos` and the body grammar
/// does not match there, the classified line is `Comment("")`.
pub proof fn lemma_blank_line_is_empty_comment<B: BlockGrammar>(s: Seq<char>, pos: int)
    requires
        0 <= pos < s.len(),
        s[pos] == '\r' || s[pos] == '\n',
        B::spec_inner(s, pos) is None,
    ensures
        spec_line::<B>(s, pos) matches Some((p, l)) && p == spec_newline(s, pos)->Some_0 && l
            == SpecLine::<<B::Inner as DeepView>::V>::Comment(Seq::empty()),
{
    assert(spec_space0(s, pos) == pos);
    assert(s.subrange(pos, pos) =~= Seq::<char>::empty());
}

/// A line whose content the body grammar does not accept is demoted
/// wholesale to a comment: when the body grammar fails after the leading
/// spaces and the body-comment grammar accepts the line, the classified
/// line is exactly that comment — the entire physical line verbatim, from
/// its first character (leading whitespace included) up to and not
/// including the newline.
pub proof fn lemma_unmatched_line_is_verbatim_comment<B: BlockGrammar>(s: Seq<char>, pos: int)
    requires
        0 <= pos <= s.len(),
        B::spec_inner(s, spec_space0(s, pos)) is None,
        spec_body_comment_line(s, pos) is Some,
    ensures
        spec_line::<B>(s, pos) matches Some((p, l)) && (p, l) == (
            spec_body_comment_line(s, pos)->Some_0.0,
            SpecLine::<<B::Inner as DeepView>::V>::Comment(
                spec_body_comment_line(s, pos)->Some_0.1,
            ),
        ),
        spec_body_comment_line(s, pos)->Some_0.1 == s.subrange(
            pos,
            pos + spec_body_comment_line(s, pos)->Some_0.1.len(),
        ),
{
    lemma_space0_bounds(s, pos);
    let sp = spec_space0(s, pos);
    if spec_newline(s, sp) is None {
        crate::parse::parts::lemma_run_end(
            s,
            sp,
            |c: char| !crate::parse::parts::is_newline_char(c),
        );
    }
    let t = spec_body_comment_line(s, pos)->Some_0.1;
    assert(t =~= s.subrange(pos, pos + t.len()));
}

pub fn parse_line<B: BlockGrammar>(input: &Vec<char>, pos: usize) -> (r: Option<
    (usize, LineContainer<B::Inner>),
>)
    requires
        pos <= input@.len(),
    ensures
        match r {
            Some((p, l)) => spec_line::<B>(input@, pos as int) == Some((p as int, l.deep_view()))
                && pos < p <= input@.len(),
            None => spec_line::<B>(input@, pos as int) is None,
        },
{
    let sp = space0(input, pos);
    match B::parse_inner(input, sp) {
        Some((p2, v)) => {
            let sp2 = space0(input, p2);
            match newline_body(input, sp2) {
                Some(p3) => {
                    return Some((p3, LineContainer::Body(v)));
                },
                None => {},
            }
        },
        None => {},
    }
    match body_comment_line(input, pos) {
        Some((p2, c)) => Some((p2, LineContainer::Comment(c))),
        None => None,
    }
}

pub fn parse_lines<B: BlockGrammar>(input: &Vec<char>, pos: usize) -> (r: (
    usize,
    Vec<LineContainer<B::Inner>>,
))
    requires
        pos <= input@.len(),
    ensures
        r.0 as int == spec_lines::<B>(input@, pos as int).0,
        r.1.deep_view() == spec_lines::<B>(input@, pos as int).1,
        pos <= r.0 <= input@.len(),
{
    let ghost s = input@;
    let mut cur = pos;
    let mut acc: Vec<LineContainer<B::Inner>> = Vec::new();
    proof {
        assert(acc.deep_view() =~= Seq::<SpecLine<<B::Inner as DeepView>::V>>::empty());
        assert(spec_lines::<B>(s, pos as int).1 =~= acc.deep_view() + spec_lines::<B>(
            s,
            pos as int,
        ).1);
    }
    loop
        invariant
            pos <= cur <= input@.len(),
            s == input@,
            spec_lines::<B>(s, pos as int).0 == spec_lines::<B>(s, cur as int).0,
            spec_lines::<B>(s, pos as int).1 == acc.deep_view() + spec_lines::<B>(
                s,
                cur as int,
            ).1,
        decreases input@.len() - cur,
    {
        let ghost acc0 = acc;
        match parse_line::<B>(input, cur) {
            Some((p, l)) => {
                proof {
                    assert(spec_lines::<B>(s, cur as int).0 == spec_lines::<B>(s, p as int).0);
                    assert(spec_lines::<B>(s, cur as int).1 == seq![l.deep_view()]
                        + spec_lines::<B>(s, p as int).1);
                }
                acc.push(l);
                proof {
                    assert(acc.deep_view() =~= acc0.deep_view().push(l.deep_view()));
                    assert(acc0.deep_view() + (seq![l.deep_view()] + spec_lines::<B>(
                        s,
                        p as int,
                    ).1) =~= acc.deep_view() + spec_lines::<B>(s, p as int).1);
                }
                cur = p;
            },
            None => {
                proof {
                    assert(spec_lines::<B>(s, cur as int).1 =~= Seq::<
                        SpecLine<<B::Inner as DeepView>::V>,
                    >::empty());
                    assert(acc.deep_view() + spec_lines::<B>(s, cur as int).1 =~= acc.deep_view());
                }
                return (cur, acc);
            },
        }
    }
}

pub fn parse_inner_brace<B: BlockGrammar>(input: &Vec<char>, pos: usize) -> (r: Option<
    (usize, Vec<LineContainer<B::Inner>>),
>)
    requires
        pos <= input@.len(),
    ensures
        match r {
            Some((p, v)) => spec_inner_brace::<B>(input@, pos as int) == Some(
                (p as int, v.deep_view()),
            ) && pos <= p <= input@.len(),
            None => spec_inner_brace::<B>(input@, pos as int) is None,
        },
{
    let sp = space0(input, pos);
    let p = match tag(input, sp, "{") {
        Some(p) => p,
        None => {
            return None;
        },
    };
    let sp2 = space0(input, p);
    let p2 = match newline_body(input, sp2) {
        Some(p2) => p2,
        None => {
            return None;
        },
    };
    let (q, lines) = parse_lines::<B>(input, p2);
    let sp3 = space0(input, q);
    let p3 = match tag(input, sp3, "}") {
        Some(p3) => p3,
        None => {
            return None;
        },
    };
    let sp4 = space0(input, p3);
    match newline_body(input, sp4) {
        Some(p4) => Some((p4, lines)),
        None => if sp4 == input.len() {
            Some((sp4, lines))
        } else {
            None
        },
    }
}

pub fn parse_block<B: BlockGrammar>(input: &Vec<char>, pos: usize) -> (r: Option<(usize, B)>)
    requires
        pos <= input@.len(),
    ensures
        match r {
            Some((p, b)) => spec_block::<B>(input@, pos as int) == Some((p as int, b.deep_view()))
                && pos <= p <= input@.len(),
            None => spec_block::<B>(input@, pos as int) is None,
        },
{
    match B::parse_name(input, pos) {
        Some((p, name)) => match parse_inner_brace::<B>(input, p) {
            Some((p2, lines)) => Some((p2, B::make_exec(name, lines))),
            None => None,
        },
        None => None,
    }
}

pub fn parse_header_comments<B: BlockGrammar>(input: &Vec<char>, pos: usize) -> (r: (
    usize,
    Vec<CommentLine>,
))
    requires
        pos <= input@.len(),
    ensures
        r.0 as int == spec_header_comments::<B>(input@, pos as int).0,
        r.1.deep_view() == spec_header_comments::<B>(input@, pos as int).1,
        pos <= r.0 <= input@.len(),
{
    let ghost s = input@;
    let mut cur = pos;
    let mut acc: Vec<CommentLine> = Vec::new();
    proof {
        assert(acc.deep_view() =~= Seq::<Seq<char>>::empty());
        assert(spec_header_comments::<B>(s, pos as int).1 =~= acc.deep_view()
            + spec_header_comments::<B>(s, pos as int).1);
    }
    loop
        invariant
            pos <= cur <= input@.len(),
            s == input@,
            spec_header_comments::<B>(s, pos as int).0 == spec_header_comments::<B>(
                s,
                cur as int,
            ).0,
            spec_header_comments::<B>(s, pos as int).1 == acc.deep_view()
                + spec_header_comments::<B>(s, cur as int).1,
        decreases input@.len() - cur,
    {
        let ghost acc0 = acc;
        if B::parse_name(input, cur).is_some() {
            proof {
                assert(spec_header_comments::<B>(s, cur as int).1 =~= Seq::<Seq<char>>::empty());
                assert(acc.deep_view() + spec_header_comments::<B>(s, cur as int).1
                    =~= acc.deep_view());
            }
            return (cur, acc);
        }
        match whole_line_as_comment_line(input, cur) {
            Some((p, c)) => {
                acc.push(c);
                proof {
                    assert(acc.deep_view() =~= acc0.deep_view().push(c.body@));
                    assert(acc0.deep_view() + (seq![c.body@] + spec_header_comments::<B>(
                        s,
                        p as int,
                    ).1) =~= acc.deep_view() + spec_header_comments::<B>(s, p as int).1);
                }
                cur = p;
            },
            None => {
                proof {
                    assert(spec_header_comments::<B>(s, cur as int).1 =~= Seq::<
                        Seq<char>,
                    >::empty());
                    assert(acc.deep_view() + spec_header_comments::<B>(s, cur as int).1
                        =~= acc.deep_view());
                }
                return (cur, acc);
            },
        }
    }
}

/// Comment lines scanned until a complete block of this kind starts. The
/// `surface.append` kind scans this way: its comment scan stops only at a
/// whole well-formed block, not merely at a line that looks like its name.
pub open spec fn spec_header_comments_full<B: BlockGrammar>(s: Seq<char>, pos: int) -> (
    int,
    Seq<Seq<char>>,
)
    decreases s.len() - pos,
{
    if spec_block::<B>(s, pos) is Some {
        (pos, Seq::empty())
    } else {
        match spec_comment_text(s, pos) {
            Some((p, t)) => if pos < p && p <= s.len() {
                let rest = spec_header_comments_full::<B>(s, p);
                (rest.0, seq![t] + rest.1)
            } else {
                (pos, Seq::empty())
            },
            None => (pos, Seq::empty()),
        }
    }
}

pub fn parse_header_comments_full<B: BlockGrammar>(input: &Vec<char>, pos: usize) -> (r: (
    usize,
    Vec<CommentLine>,
))
    requires
        pos <= input@.len(),
    ensures
        r.0 as int == spec_header_comments_full::<B>(input@, pos as int).0,
        r.1.deep_view() == spec_header_comments_full::<B>(input@, pos as int).1,
        pos <= r.0 <= input@.len(),
{
    let ghost s = input@;
    let mut cur = pos;
    let mut acc: Vec<CommentLine> = Vec::new();
    proof {
        assert(acc.deep_view() =~= Seq::<Seq<char>>::empty());
        assert(spec_header_comments_full::<B>(s, pos as int).1 =~= acc.deep_view()
            + spec_header_comments_full::<B>(s, pos as int).1);
    }
    loop
        invariant
            pos <= cur <= input@.len(),
            s == input@,
            spec_header_comments_full::<B>(s, pos as int).0 == spec_header_comments_full::<B>(
                s,
                cur as int,
            ).0,
            spec_header_comments_full::<B>(s, pos as int).1 == acc.deep_view()
                + spec_header_comments_full::<B>(s, cur as int).1,
        decreases input@.len() - cur,
    {
        let ghost acc0 = acc;
        if parse_block::<B>(input, cur).is_some() {
            proof {
                assert(spec_header_comments_full::<B>(s, cur as int).1 =~= Seq::<
                    Seq<char>,
                >::empty());
                assert(acc.deep_view() + spec_header_comments_full::<B>(s, cur as int).1
                    =~= acc.deep_view());
            }
            return (cur, acc);
        }
        match whole_line_as_comment_line(input, cur) {
            Some((p, c)) => {
                acc.push(c);
                proof {
                    assert(acc.deep_view() =~= acc0.deep_view().push(c.body@));
                    assert(acc0.deep_view() + (seq![c.body@] + spec_header_comments_full::<B>(
                        s,
                        p as int,
                    ).1) =~= acc.deep_view() + spec_header_comments_full::<B>(s, p as int).1);
                }
                cur = p;
            },
            None => {
                proof {
                    assert(spec_header_comments_full::<B>(s, cur as int).1 =~= Seq::<
                        Seq<char>,
                    >::empty());
                    assert(acc.deep_view() + spec_header_comments_full::<B>(s, cur as int).1
                        =~= acc.deep_view());
                }
                return (cur, acc);
            },
        }
    }
}

/// Header comments scanned against the whole-block head, then the block.
pub open spec fn spec_brace_block_full<B: BlockGrammar>(s: Seq<char>, pos: int) -> Option<
    (int, SpecBraceContainer),
> {
    let head = spec_header_comments_full::<B>(s, pos);
    match spec_block::<B>(s, head.0) {
        Some((p2, b)) => Some(
            (p2, SpecBraceContainer { header_comments: head.1, body: B::wrap(b) }),
        ),
        None => None,
    }
}

pub fn parse_brace_block_full<B: BlockGrammar>(input: &Vec<char>, pos: usize) -> (r: Option<
    (usize, BraceContainer),
>)
    requires
        pos <= input@.len(),
    ensures
        match r {
            Some((p, b)) => spec_brace_block_full::<B>(input@, pos as int) == Some(
                (p as int, b.deep_view()),
            ) && pos <= p <= input@.len(),
            None => spec_brace_block_full::<B>(input@, pos as int) is None,
        },
{
    let (p, comments) = parse_header_comments_full::<B>(input, pos);
    match parse_block::<B>(input, p) {
        Some((p2, b)) => Some(
            (p2, BraceContainer { header_comments: comments, body: b.wrap_exec() }),
        ),
        None => None,
    }
}

/// Header comments, then the block, wrapped as one [`BraceContainer`].
pub fn parse_brace_block<B: BlockGrammar>(input: &Vec<char>, pos: usize) -> (r: Option<
    (usize, BraceContainer),
>)
    requires
        pos <= input@.len(),
    ensures
        match r {
            Some((p, b)) => spec_brace_block::<B>(input@, pos as int) == Some(
                (p as int, b.deep_view()),
            ) && pos <= p <= input@.len(),
            None => spec_brace_block::<B>(input@, pos as int) is None,
        },
{
    let (p, comments) = parse_header_comments::<B>(input, pos);
    match parse_block::<B>(input, p) {
        Some((p2, b)) => Some(
            (p2, BraceContainer { header_comments: comments, body: b.wrap_exec() }),
        ),
        None => None,
    }
}

} // verus!
