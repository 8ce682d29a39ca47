//! The `<character>.tooltips` block: collision names with free-text
//! descriptions.

use vstd::prelude::*;

use crate::ast::{Brace, LineContainer, SurfaceTargetCharacterId, Tooltip, TooltipInner};
use crate::model::{SpecBrace, SpecLine, SpecTooltip, SpecTooltipInner};
use crate::parse::blocks::BlockGrammar;
use crate::parse::parts::{
    char_range_string, is_newline_char, lemma_run_end_is, line_tail, not_nl_end, run_end,
    scan_not_newline, space0, spec_char_id, spec_line_tail, spec_space0,
    surface_target_character_id, tag, tag_at,
};

verus! {

/// End of a tooltip collision name: characters other than comma and newline.
pub open spec fn tooltip_name_end(s: Seq<char>, pos: int) -> int {
    run_end(s, pos, |c: char| c != ',' && !is_newline_char(c))
}

fn scan_tooltip_name(input: &Vec<char>, pos: usize) -> (r: usize)
    requires
        pos <= input@.len(),
    ensures
        r as int == tooltip_name_end(input@, pos as int),
        pos <= r <= input@.len(),
{
    let mut i = pos;
    while i < input.len() && input[i] != ',' && input[i] != '\r' && input[i] != '\n'
        invariant
            pos <= i <= input@.len(),
            forall|j: int| pos <= j < i ==> (input@[j] != ',' && !is_newline_char(input@[j])),
        decreases input@.len() - i,
    {
        i += 1;
    }
    proof {
        lemma_run_end_is(
            input@,
            pos as int,
            |c: char| c != ',' && !is_newline_char(c),
            i as int,
        );
    }
    i
}

/// One tooltip line: `<collision>,<description>`; the description is the
/// rest of the line verbatim and must be nonempty.
pub open spec fn spec_tooltip_inner(s: Seq<char>, pos: int) -> Option<(int, SpecTooltipInner)> {
    let e = tooltip_name_end(s, pos);
    if e > pos && tag_at(s, e, ","@) {
        let q = e + ","@.len();
        let e2 = not_nl_end(s, q);
        if e2 > q {
            Some(
                (
                    e2,
                    SpecTooltipInner {
                        collision: s.subrange(pos, e),
                        description: s.subrange(q, e2),
                    },
                ),
            )
        } else {
            None
        }
    } else {
        None
    }
}

pub fn tooltip_inner(input: &Vec<char>, pos: usize) -> (r: Option<(usize, TooltipInner)>)
    requires
        pos <= input@.len(),
    ensures
        match r {
            Some((p, v)) => spec_tooltip_inner(input@, pos as int) == Some(
                (p as int, v.deep_view()),
            ) && pos <= p <= input@.len(),
            None => spec_tooltip_inner(input@, pos as int) is None,
        },
{
    let e = scan_tooltip_name(input, pos);
    if !(e > pos) {
        return None;
    }
    let q = match tag(input, e, ",") {
        Some(p) => p,
        None => {
            return None;
        },
    };
    let e2 = scan_not_newline(input, q);
    if e2 > q {
        let collision = char_range_string(input, pos, e);
        let description = char_range_string(input, q, e2);
        Some((e2, TooltipInner { collision, description }))
    } else {
        None
    }
}

/// The `<character>.tooltips` name line.
pub open spec fn spec_tooltip_name(s: Seq<char>, pos: int) -> Option<
    (int, SurfaceTargetCharacterId),
> {
    let sp = spec_space0(s, pos);
    match spec_char_id(s, sp) {
        Some((p, id)) => if tag_at(s, p, ".tooltips"@) {
            match spec_line_tail(s, p + ".tooltips"@.len()) {
                Some(p2) => Some((p2, id)),
                None => None,
            }
        } else {
            None
        },
        None => None,
    }
}

pub fn tooltip_name(input: &Vec<char>, pos: usize) -> (r: Option<(usize, SurfaceTargetCharacterId)>)
    requires
        pos <= input@.len(),
    ensures
        match r {
            Some((p, v)) => spec_tooltip_name(input@, pos as int) == Some((p as int, v)) && pos
                <= p <= input@.len(),
            None => spec_tooltip_name(input@, pos as int) is None,
        },
{
    let sp = space0(input, pos);
    match surface_target_character_id(input, sp) {
        Some((p, id)) => match tag(input, p, ".tooltips") {
            Some(pa) => match line_tail(input, pa) {
                Some(p2) => Some((p2, id)),
                None => None,
            },
            None => None,
        },
        None => None,
    }
}

impl BlockGrammar for Tooltip {
    type Name = SurfaceTargetCharacterId;

    type Inner = TooltipInner;

    open spec fn spec_name(s: Seq<char>, pos: int) -> Option<(int, SurfaceTargetCharacterId)> {
        spec_tooltip_name(s, pos)
    }

    open spec fn spec_inner(s: Seq<char>, pos: int) -> Option<(int, SpecTooltipInner)> {
        spec_tooltip_inner(s, pos)
    }

    open spec fn make(
        name: SurfaceTargetCharacterId,
        lines: Seq<SpecLine<SpecTooltipInner>>,
    ) -> SpecTooltip {
        SpecTooltip { id: name, lines }
    }

    open spec fn wrap(v: SpecTooltip) -> SpecBrace {
        SpecBrace::Tooltip(v)
    }

    fn parse_name(input: &Vec<char>, pos: usize) -> (r: Option<(usize, SurfaceTargetCharacterId)>) {
        tooltip_name(input, pos)
    }

    fn parse_inner(input: &Vec<char>, pos: usize) -> (r: Option<(usize, TooltipInner)>) {
        tooltip_inner(input, pos)
    }

    fn make_exec(name: SurfaceTargetCharacterId, lines: Vec<LineContainer<TooltipInner>>) -> (r:
        Tooltip) {
        Tooltip { id: name, lines }
    }

    fn wrap_exec(self) -> (r: Brace) {
        Brace::Tooltip(self)
    }
}

} // verus!
