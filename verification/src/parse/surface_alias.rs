//! The `<character>.surface.alias` block: labels mapped to ordered surface
//! id lists.

use vstd::prelude::*;

use crate::ast::{Brace, LineContainer, SurfaceAlias, SurfaceAliasInner, SurfaceTargetCharacterId};
use crate::model::{SpecBrace, SpecLine, SpecSurfaceAlias, SpecSurfaceAliasInner};
use crate::parse::blocks::BlockGrammar;
use crate::parse::parts::{
    char_range_string, digit_list, is_newline_char, lemma_run_end_is, line_tail, run_end, space0,
    spec_char_id, spec_digit_list, spec_line_tail, spec_space0, surface_target_character_id, tag,
    tag_at,
};

verus! {

/// End of an alias label: characters other than `}`, comma, and newline.
pub open spec fn alias_target_end(s: Seq<char>, pos: int) -> int {
    run_end(s, pos, |c: char| c != '}' && c != ',' && !is_newline_char(c))
}

fn scan_alias_target(input: &Vec<char>, pos: usize) -> (r: usize)
    requires
        pos <= input@.len(),
    ensures
        r as int == alias_target_end(input@, pos as int),
        pos <= r <= input@.len(),
{
    let mut i = pos;
    while i < input.len() && input[i] != '}' && input[i] != ',' && input[i] != '\r' && input[i]
        != '\n'
        invariant
            pos <= i <= input@.len(),
            forall|j: int|
                pos <= j < i ==> (input@[j] != '}' && input@[j] != ',' && !is_newline_char(
                    input@[j],
                )),
        decreases input@.len() - i,
    {
        i += 1;
    }
    proof {
        lemma_run_end_is(
            input@,
            pos as int,
            |c: char| c != '}' && c != ',' && !is_newline_char(c),
            i as int,
        );
    }
    i
}

/// One alias line: `<label>,[<id>,<id>,…]`.
pub open spec fn spec_surface_alias_inner(s: Seq<char>, pos: int) -> Option<
    (int, SpecSurfaceAliasInner),
> {
    let e = alias_target_end(s, pos);
    if e > pos && tag_at(s, e, ","@) && tag_at(s, e + ","@.len(), "["@) {
        match spec_digit_list(s, e + ","@.len() + "["@.len()) {
            Some((p, v)) => if tag_at(s, p, "]"@) {
                Some(
                    (
                        p + "]"@.len(),
                        SpecSurfaceAliasInner { target: s.subrange(pos, e), surfaces: v },
                    ),
                )
            } else {
                None
            },
            None => None,
        }
    } else {
        None
    }
}

pub fn surface_alias_inner(input: &Vec<char>, pos: usize) -> (r: Option<(usize, SurfaceAliasInner)>)
    requires
        pos <= input@.len(),
    ensures
        match r {
            Some((p, v)) => spec_surface_alias_inner(input@, pos as int) == Some(
                (p as int, v.deep_view()),
            ) && pos <= p <= input@.len(),
            None => spec_surface_alias_inner(input@, pos as int) is None,
        },
{
    let e = scan_alias_target(input, pos);
    if !(e > pos) {
        return None;
    }
    let pa = match tag(input, e, ",") {
        Some(p) => p,
        None => {
            return None;
        },
    };
    let pb = match tag(input, pa, "[") {
        Some(p) => p,
        None => {
            return None;
        },
    };
    match digit_list(input, pb) {
        Some((p, v)) => match tag(input, p, "]") {
            Some(p2) => {
                let target = char_range_string(input, pos, e);
                Some((p2, SurfaceAliasInner { target, surfaces: v }))
            },
            None => None,
        },
        None => None,
    }
}

/// The `<character>.surface.alias` name line.
pub open spec fn spec_surface_alias_name(s: Seq<char>, pos: int) -> Option<
    (int, SurfaceTargetCharacterId),
> {
    let sp = spec_space0(s, pos);
    match spec_char_id(s, sp) {
        Some((p, id)) => if tag_at(s, p, ".surface.alias"@) {
            match spec_line_tail(s, p + ".surface.alias"@.len()) {
                Some(p2) => Some((p2, id)),
                None => None,
            }
        } else {
            None
        },
        None => None,
    }
}

pub fn surface_alias_name(input: &Vec<char>, pos: usize) -> (r: Option<
    (usize, SurfaceTargetCharacterId),
>)
    requires
        pos <= input@.len(),
    ensures
        match r {
            Some((p, v)) => spec_surface_alias_name(input@, pos as int) == Some((p as int, v))
                && pos <= p <= input@.len(),
            None => spec_surface_alias_name(input@, pos as int) is None,
        },
{
    let sp = space0(input, pos);
    match surface_target_character_id(input, sp) {
        Some((p, id)) => match tag(input, p, ".surface.alias") {
            Some(pa) => match line_tail(input, pa) {
                Some(p2) => Some((p2, id)),
                None => None,
            },
            None => None,
        },
        None => None,
    }
}

impl BlockGrammar for SurfaceAlias {
    type Name = SurfaceTargetCharacterId;

    type Inner = SurfaceAliasInner;

    open spec fn spec_name(s: Seq<char>, pos: int) -> Option<(int, SurfaceTargetCharacterId)> {
        spec_surface_alias_name(s, pos)
    }

    open spec fn spec_inner(s: Seq<char>, pos: int) -> Option<(int, SpecSurfaceAliasInner)> {
        spec_surface_alias_inner(s, pos)
    }

    open spec fn make(
        name: SurfaceTargetCharacterId,
        lines: Seq<SpecLine<SpecSurfaceAliasInner>>,
    ) -> SpecSurfaceAlias {
        SpecSurfaceAlias { id: name, lines }
    }

    open spec fn wrap(v: SpecSurfaceAlias) -> SpecBrace {
        SpecBrace::SurfaceAlias(v)
    }

    fn parse_name(input: &Vec<char>, pos: usize) -> (r: Option<(usize, SurfaceTargetCharacterId)>) {
        surface_alias_name(input, pos)
    }

    fn parse_inner(input: &Vec<char>, pos: usize) -> (r: Option<(usize, SurfaceAliasInner)>) {
        surface_alias_inner(input, pos)
    }

    fn make_exec(
        name: SurfaceTargetCharacterId,
        lines: Vec<LineContainer<SurfaceAliasInner>>,
    ) -> (r: SurfaceAlias) {
        SurfaceAlias { id: name, lines }
    }

    fn wrap_exec(self) -> (r: Brace) {
        Brace::SurfaceAlias(self)
    }
}

} // verus!
