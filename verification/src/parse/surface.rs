//! The `surface` and `surface.append` blocks: id selector lists in both the
//! SSP and the legacy materia dialect, and the shared body grammar.
//!
//! The SSP form (`surface` once, then a comma list of units, ranges, and `!`
//! negations) is tried before the materia form (`surface<n>` repeated per
//! id): an input valid under both resolves to the SSP reading.

pub mod animation_collision;
pub mod animation_interval;
pub mod animation_option;
pub mod animation_pattern;
pub mod collision;
pub mod draw_method;
pub mod element;
pub mod offset;

use vstd::prelude::*;

use crate::ast::{Brace, LineContainer, Surface, SurfaceAppend, SurfaceId, SurfaceInner};
use crate::model::{SpecBrace, SpecLine, SpecSurface, SpecSurfaceAppend, SpecSurfaceInner};
use crate::parse::blocks::BlockGrammar;
use crate::parse::parts::{
    digit_u32, line_tail, space0, spec_digit_u32, spec_line_tail, spec_space0, tag, tag_at,
};

use self::animation_collision::{
    animation_collision, animation_collision_ex, spec_animation_collision,
    spec_animation_collision_ex,
};
use self::animation_interval::{animation_interval, spec_animation_interval};
use self::animation_option::{animation_option, spec_animation_option};
use self::animation_pattern::{animation_pattern, spec_animation_pattern};
use self::collision::{collision, collision_ex, spec_collision, spec_collision_ex};
use self::element::{element, spec_element};
use self::offset::{spec_surface_offset, surface_offset};

verus! {

/// A single id.
pub open spec fn spec_surface_id_unit(s: Seq<char>, pos: int) -> Option<(int, SurfaceId)> {
    match spec_digit_u32(s, pos) {
        Some((p, v)) => Some((p, SurfaceId::Unit(v))),
        None => None,
    }
}

/// An inclusive id range `a-b`.
pub open spec fn spec_surface_id_range(s: Seq<char>, pos: int) -> Option<(int, SurfaceId)> {
    match spec_digit_u32(s, pos) {
        Some((p, a)) => if 0 <= p && p < s.len() && s[p] == '-' {
            match spec_digit_u32(s, p + 1) {
                Some((p2, b)) => Some((p2, SurfaceId::Range(a, b))),
                None => None,
            }
        } else {
            None
        },
        None => None,
    }
}

/// One selector: a negation of a range or unit, a range, or a unit.
pub open spec fn spec_surface_id(s: Seq<char>, pos: int) -> Option<(int, SurfaceId)> {
    if 0 <= pos && pos < s.len() && s[pos] == '!' {
        match spec_surface_id_range(s, pos + 1) {
            Some((p, v)) => Some((p, SurfaceId::Not(Box::new(v)))),
            None => match spec_surface_id_unit(s, pos + 1) {
                Some((p, v)) => Some((p, SurfaceId::Not(Box::new(v)))),
                None => None,
            },
        }
    } else {
        match spec_surface_id_range(s, pos) {
            Some(r) => Some(r),
            None => spec_surface_id_unit(s, pos),
        }
    }
}

pub fn surface_id_unit(input: &Vec<char>, pos: usize) -> (r: Option<(usize, SurfaceId)>)
    requires
        pos <= input@.len(),
    ensures
        match r {
            Some((p, v)) => spec_surface_id_unit(input@, pos as int) == Some((p as int, v)) && pos
                < p <= input@.len(),
            None => spec_surface_id_unit(input@, pos as int) is None,
        },
{
    match digit_u32(input, pos) {
        Some((p, v)) => Some((p, SurfaceId::Unit(v))),
        None => None,
    }
}

pub fn surface_id_range(input: &Vec<char>, pos: usize) -> (r: Option<(usize, SurfaceId)>)
    requires
        pos <= input@.len(),
    ensures
        match r {
            Some((p, v)) => spec_surface_id_range(input@, pos as int) == Some((p as int, v))
                && pos < p <= input@.len(),
            None => spec_surface_id_range(input@, pos as int) is None,
        },
{
    match digit_u32(input, pos) {
        Some((p, a)) => if p < input.len() && input[p] == '-' {
            match digit_u32(input, p + 1) {
                Some((p2, b)) => Some((p2, SurfaceId::Range(a, b))),
                None => None,
            }
        } else {
            None
        },
        None => None,
    }
}

pub fn surface_id(input: &Vec<char>, pos: usize) -> (r: Option<(usize, SurfaceId)>)
    requires
        pos <= input@.len(),
    ensures
        match r {
            Some((p, v)) => spec_surface_id(input@, pos as int) == Some((p as int, v)) && pos < p
                <= input@.len(),
            None => spec_surface_id(input@, pos as int) is None,
        },
{
    if pos < input.len() && input[pos] == '!' {
        match surface_id_range(input, pos + 1) {
            Some((p, v)) => Some((p, SurfaceId::Not(Box::new(v)))),
            None => match surface_id_unit(input, pos + 1) {
                Some((p, v)) => Some((p, SurfaceId::Not(Box::new(v)))),
                None => None,
            },
        }
    } else {
        match surface_id_range(input, pos) {
            Some(r) => Some(r),
            None => surface_id_unit(input, pos),
        }
    }
}

/// Greedy run of `,<selector>` continuations.
pub open spec fn spec_surface_id_tail(s: Seq<char>, pos: int) -> (int, Seq<SurfaceId>)
    decreases s.len() - pos,
{
    if 0 <= pos && pos < s.len() && s[pos] == ',' {
        match spec_surface_id(s, pos + 1) {
            Some((p, v)) => if pos < p && p <= s.len() {
                let rest = spec_surface_id_tail(s, p);
                (rest.0, seq![v] + rest.1)
            } else {
                (pos, Seq::empty())
            },
            None => (pos, Seq::empty()),
        }
    } else {
        (pos, Seq::empty())
    }
}

/// `<selector>(,<selector>)*`.
pub open spec fn spec_surface_ids(s: Seq<char>, pos: int) -> Option<(int, Seq<SurfaceId>)> {
    match spec_surface_id(s, pos) {
        Some((p, v)) => {
            let rest = spec_surface_id_tail(s, p);
            Some((rest.0, seq![v] + rest.1))
        },
        None => None,
    }
}

pub fn surface_ids(input: &Vec<char>, pos: usize) -> (r: Option<(usize, Vec<SurfaceId>)>)
    requires
        pos <= input@.len(),
    ensures
        match r {
            Some((p, v)) => spec_surface_ids(input@, pos as int) == Some(
                (p as int, v.deep_view()),
            ) && pos <= p <= input@.len(),
            None => spec_surface_ids(input@, pos as int) is None,
        },
{
    let ghost s = input@;
    let first = match surface_id(input, pos) {
        Some(r) => r,
        None => {
            return None;
        },
    };
    let mut acc: Vec<SurfaceId> = Vec::new();
    let ghost firstv = first.1;
    let start = first.0;
    acc.push(first.1);
    let mut cur = start;
    proof {
        assert(acc.deep_view() =~= seq![firstv]);
    }
    loop
        invariant
            pos <= start <= cur <= input@.len(),
            s == input@,
            spec_surface_id(s, pos as int) == Some((start as int, firstv)),
            spec_surface_id_tail(s, start as int).0 == spec_surface_id_tail(s, cur as int).0,
            seq![firstv] + spec_surface_id_tail(s, start as int).1 == acc.deep_view()
                + spec_surface_id_tail(s, cur as int).1,
        decreases input@.len() - cur,
    {
        let ghost acc0 = acc;
        if cur < input.len() && input[cur] == ',' {
            match surface_id(input, cur + 1) {
                Some((p, v)) => {
                    let ghost gv = v;
                    acc.push(v);
                    proof {
                        assert(acc.deep_view() =~= acc0.deep_view().push(gv));
                        assert(acc0.deep_view() + (seq![gv] + spec_surface_id_tail(s, p as int).1)
                            =~= acc.deep_view() + spec_surface_id_tail(s, p as int).1);
                    }
                    cur = p;
                },
                None => {
                    proof {
                        assert(spec_surface_id_tail(s, cur as int).1 =~= Seq::<
                            SurfaceId,
                        >::empty());
                        assert(acc.deep_view() + spec_surface_id_tail(s, cur as int).1
                            =~= acc.deep_view());
                    }
                    return Some((cur, acc));
                },
            }
        } else {
            proof {
                assert(spec_surface_id_tail(s, cur as int).1 =~= Seq::<SurfaceId>::empty());
                assert(acc.deep_view() + spec_surface_id_tail(s, cur as int).1
                    =~= acc.deep_view());
            }
            return Some((cur, acc));
        }
    }
}

/// One legacy list entry: the `surface` keyword directly followed by one id.
pub open spec fn spec_materia_elem(s: Seq<char>, pos: int) -> Option<(int, SurfaceId)> {
    if tag_at(s, pos, "surface"@) {
        spec_surface_id_unit(s, pos + "surface"@.len())
    } else {
        None
    }
}

pub fn materia_elem(input: &Vec<char>, pos: usize) -> (r: Option<(usize, SurfaceId)>)
    requires
        pos <= input@.len(),
    ensures
        match r {
            Some((p, v)) => spec_materia_elem(input@, pos as int) == Some((p as int, v)) && pos
                < p <= input@.len(),
            None => spec_materia_elem(input@, pos as int) is None,
        },
{
    match tag(input, pos, "surface") {
        Some(p) => surface_id_unit(input, p),
        None => None,
    }
}

/// Greedy run of `,surface<id>` continuations.
pub open spec fn spec_materia_tail(s: Seq<char>, pos: int) -> (int, Seq<SurfaceId>)
    decreases s.len() - pos,
{
    if 0 <= pos && pos < s.len() && s[pos] == ',' {
        match spec_materia_elem(s, pos + 1) {
            Some((p, v)) => if pos < p && p <= s.len() {
                let rest = spec_materia_tail(s, p);
                (rest.0, seq![v] + rest.1)
            } else {
                (pos, Seq::empty())
            },
            None => (pos, Seq::empty()),
        }
    } else {
        (pos, Seq::empty())
    }
}

/// `surface<id>(,surface<id>)*`: the legacy materia name list, units only.
pub open spec fn spec_materia_ids(s: Seq<char>, pos: int) -> Option<(int, Seq<SurfaceId>)> {
    match spec_materia_elem(s, pos) {
        Some((p, v)) => {
            let rest = spec_materia_tail(s, p);
            Some((rest.0, seq![v] + rest.1))
        },
        None => None,
    }
}

pub fn materia_ids(input: &Vec<char>, pos: usize) -> (r: Option<(usize, Vec<SurfaceId>)>)
    requires
        pos <= input@.len(),
    ensures
        match r {
            Some((p, v)) => spec_materia_ids(input@, pos as int) == Some(
                (p as int, v.deep_view()),
            ) && pos <= p <= input@.len(),
            None => spec_materia_ids(input@, pos as int) is None,
        },
{
    let ghost s = input@;
    let first = match materia_elem(input, pos) {
        Some(r) => r,
        None => {
            return None;
        },
    };
    let mut acc: Vec<SurfaceId> = Vec::new();
    let ghost firstv = first.1;
    let start = first.0;
    acc.push(first.1);
    let mut cur = start;
    proof {
        assert(acc.deep_view() =~= seq![firstv]);
    }
    loop
        invariant
            pos <= start <= cur <= input@.len(),
            s == input@,
            spec_materia_elem(s, pos as int) == Some((start as int, firstv)),
            spec_materia_tail(s, start as int).0 == spec_materia_tail(s, cur as int).0,
            seq![firstv] + spec_materia_tail(s, start as int).1 == acc.deep_view()
                + spec_materia_tail(s, cur as int).1,
        decreases input@.len() - cur,
    {
        let ghost acc0 = acc;
        if cur < input.len() && input[cur] == ',' {
            match materia_elem(input, cur + 1) {
                Some((p, v)) => {
                    let ghost gv = v;
                    acc.push(v);
                    proof {
                        assert(acc.deep_view() =~= acc0.deep_view().push(gv));
                        assert(acc0.deep_view() + (seq![gv] + spec_materia_tail(s, p as int).1)
                            =~= acc.deep_view() + spec_materia_tail(s, p as int).1);
                    }
                    cur = p;
                },
                None => {
                    proof {
                        assert(spec_materia_tail(s, cur as int).1 =~= Seq::<SurfaceId>::empty());
                        assert(acc.deep_view() + spec_materia_tail(s, cur as int).1
                            =~= acc.deep_view());
                    }
                    return Some((cur, acc));
                },
            }
        } else {
            proof {
                assert(spec_materia_tail(s, cur as int).1 =~= Seq::<SurfaceId>::empty());
                assert(acc.deep_view() + spec_materia_tail(s, cur as int).1 =~= acc.deep_view());
            }
            return Some((cur, acc));
        }
    }
}

/// SSP name line: `surface<selectors>`.
pub open spec fn spec_ssp_name(s: Seq<char>, pos: int) -> Option<(int, Seq<SurfaceId>)> {
    let sp = spec_space0(s, pos);
    if tag_at(s, sp, "surface"@) {
        match spec_surface_ids(s, sp + "surface"@.len()) {
            Some((p, ids)) => match spec_line_tail(s, p) {
                Some(p2) => Some((p2, ids)),
                None => None,
            },
            None => None,
        }
    } else {
        None
    }
}

/// Materia name line: `surface<n>,surface<m>,…`.
pub open spec fn spec_materia_name(s: Seq<char>, pos: int) -> Option<(int, Seq<SurfaceId>)> {
    let sp = spec_space0(s, pos);
    match spec_materia_ids(s, sp) {
        Some((p, ids)) => match spec_line_tail(s, p) {
            Some(p2) => Some((p2, ids)),
            None => None,
        },
        None => None,
    }
}

/// Either dialect, SSP first.
pub open spec fn spec_surface_name(s: Seq<char>, pos: int) -> Option<(int, Seq<SurfaceId>)> {
    match spec_ssp_name(s, pos) {
        Some(r) => Some(r),
        None => spec_materia_name(s, pos),
    }
}

/// `surface.append` name line: SSP-style selectors only.
pub open spec fn spec_append_name(s: Seq<char>, pos: int) -> Option<(int, Seq<SurfaceId>)> {
    let sp = spec_space0(s, pos);
    if tag_at(s, sp, "surface.append"@) {
        match spec_surface_ids(s, sp + "surface.append"@.len()) {
            Some((p, ids)) => match spec_line_tail(s, p) {
                Some(p2) => Some((p2, ids)),
                None => None,
            },
            None => None,
        }
    } else {
        None
    }
}

fn ssp_name(input: &Vec<char>, pos: usize) -> (r: Option<(usize, Vec<SurfaceId>)>)
    requires
        pos <= input@.len(),
    ensures
        match r {
            Some((p, v)) => spec_ssp_name(input@, pos as int) == Some((p as int, v.deep_view()))
                && pos <= p <= input@.len(),
            None => spec_ssp_name(input@, pos as int) is None,
        },
{
    let sp = space0(input, pos);
    let p0 = match tag(input, sp, "surface") {
        Some(p) => p,
        None => {
            return None;
        },
    };
    match surface_ids(input, p0) {
        Some((p, ids)) => match line_tail(input, p) {
            Some(p2) => Some((p2, ids)),
            None => None,
        },
        None => None,
    }
}

fn materia_name(input: &Vec<char>, pos: usize) -> (r: Option<(usize, Vec<SurfaceId>)>)
    requires
        pos <= input@.len(),
    ensures
        match r {
            Some((p, v)) => spec_materia_name(input@, pos as int) == Some(
                (p as int, v.deep_view()),
            ) && pos <= p <= input@.len(),
            None => spec_materia_name(input@, pos as int) is None,
        },
{
    let sp = space0(input, pos);
    match materia_ids(input, sp) {
        Some((p, ids)) => match line_tail(input, p) {
            Some(p2) => Some((p2, ids)),
            None => None,
        },
        None => None,
    }
}

pub fn surface_name(input: &Vec<char>, pos: usize) -> (r: Option<(usize, Vec<SurfaceId>)>)
    requires
        pos <= input@.len(),
    ensures
        match r {
            Some((p, v)) => spec_surface_name(input@, pos as int) == Some(
                (p as int, v.deep_view()),
            ) && pos <= p <= input@.len(),
            None => spec_surface_name(input@, pos as int) is None,
        },
{
    if let Some(r) = ssp_name(input, pos) {
        Some(r)
    } else {
        materia_name(input, pos)
    }
}

pub fn surface_append_name(input: &Vec<char>, pos: usize) -> (r: Option<(usize, Vec<SurfaceId>)>)
    requires
        pos <= input@.len(),
    ensures
        match r {
            Some((p, v)) => spec_append_name(input@, pos as int) == Some((p as int, v.deep_view()))
                && pos <= p <= input@.len(),
            None => spec_append_name(input@, pos as int) is None,
        },
{
    let sp = space0(input, pos);
    let p0 = match tag(input, sp, "surface.append") {
        Some(p) => p,
        None => {
            return None;
        },
    };
    match surface_ids(input, p0) {
        Some((p, ids)) => match line_tail(input, p) {
            Some(p2) => Some((p2, ids)),
            None => None,
        },
        None => None,
    }
}

/// One surface body line, trying each value grammar in a fixed order.
pub open spec fn spec_surface_inner(s: Seq<char>, pos: int) -> Option<(int, SpecSurfaceInner)> {
    match spec_element(s, pos) {
        Some((p, v)) => Some((p, SpecSurfaceInner::Element(v))),
        None => match spec_animation_interval(s, pos) {
            Some((p, v)) => Some((p, SpecSurfaceInner::AnimationInterval(v))),
            None => match spec_animation_pattern(s, pos) {
                Some((p, v)) => Some((p, SpecSurfaceInner::AnimationPattern(v))),
                None => match spec_animation_option(s, pos) {
                    Some((p, v)) => Some((p, SpecSurfaceInner::AnimationOption(v))),
                    None => match spec_animation_collision(s, pos) {
                        Some((p, v)) => Some((p, SpecSurfaceInner::AnimationCollision(v))),
                        None => match spec_animation_collision_ex(s, pos) {
                            Some((p, v)) => Some((p, SpecSurfaceInner::AnimationCollisionEx(v))),
                            None => match spec_collision(s, pos) {
                                Some((p, v)) => Some((p, SpecSurfaceInner::Collision(v))),
                                None => match spec_collision_ex(s, pos) {
                                    Some((p, v)) => Some((p, SpecSurfaceInner::CollisionEx(v))),
                                    None => spec_surface_offset(s, pos),
                                },
                            },
                        },
                    },
                },
            },
        },
    }
}

pub fn surface_inner(input: &Vec<char>, pos: usize) -> (r: Option<(usize, SurfaceInner)>)
    requires
        pos <= input@.len(),
    ensures
        match r {
            Some((p, v)) => spec_surface_inner(input@, pos as int) == Some(
                (p as int, v.deep_view()),
            ) && pos <= p <= input@.len(),
            None => spec_surface_inner(input@, pos as int) is None,
        },
{
    if let Some((p, v)) = element(input, pos) {
        Some((p, SurfaceInner::Element(v)))
    } else if let Some((p, v)) = animation_interval(input, pos) {
        Some((p, SurfaceInner::AnimationInterval(v)))
    } else if let Some((p, v)) = animation_pattern(input, pos) {
        Some((p, SurfaceInner::AnimationPattern(v)))
    } else if let Some((p, v)) = animation_option(input, pos) {
        Some((p, SurfaceInner::AnimationOption(v)))
    } else if let Some((p, v)) = animation_collision(input, pos) {
        Some((p, SurfaceInner::AnimationCollision(v)))
    } else if let Some((p, v)) = animation_collision_ex(input, pos) {
        Some((p, SurfaceInner::AnimationCollisionEx(v)))
    } else if let Some((p, v)) = collision(input, pos) {
        Some((p, SurfaceInner::Collision(v)))
    } else if let Some((p, v)) = collision_ex(input, pos) {
        Some((p, SurfaceInner::CollisionEx(v)))
    } else {
        surface_offset(input, pos)
    }
}

impl BlockGrammar for Surface {
    type Name = Vec<SurfaceId>;

    type Inner = SurfaceInner;

    open spec fn spec_name(s: Seq<char>, pos: int) -> Option<(int, Seq<SurfaceId>)> {
        spec_surface_name(s, pos)
    }

    open spec fn spec_inner(s: Seq<char>, pos: int) -> Option<(int, SpecSurfaceInner)> {
        spec_surface_inner(s, pos)
    }

    open spec fn make(name: Seq<SurfaceId>, lines: Seq<SpecLine<SpecSurfaceInner>>) -> SpecSurface {
        SpecSurface { ids: name, lines }
    }

    open spec fn wrap(v: SpecSurface) -> SpecBrace {
        SpecBrace::Surface(v)
    }

    fn parse_name(input: &Vec<char>, pos: usize) -> (r: Option<(usize, Vec<SurfaceId>)>) {
        surface_name(input, pos)
    }

    fn parse_inner(input: &Vec<char>, pos: usize) -> (r: Option<(usize, SurfaceInner)>) {
        surface_inner(input, pos)
    }

    fn make_exec(name: Vec<SurfaceId>, lines: Vec<LineContainer<SurfaceInner>>) -> (r: Surface) {
        Surface { ids: name, lines }
    }

    fn wrap_exec(self) -> (r: Brace) {
        Brace::Surface(self)
    }
}

impl BlockGrammar for SurfaceAppend {
    type Name = Vec<SurfaceId>;

    type Inner = SurfaceInner;

    open spec fn spec_name(s: Seq<char>, pos: int) -> Option<(int, Seq<SurfaceId>)> {
        spec_append_name(s, pos)
    }

    open spec fn spec_inner(s: Seq<char>, pos: int) -> Option<(int, SpecSurfaceInner)> {
        spec_surface_inner(s, pos)
    }

    open spec fn make(name: Seq<SurfaceId>, lines: Seq<SpecLine<SpecSurfaceInner>>) -> SpecSurfaceAppend {
        SpecSurfaceAppend { ids: name, lines }
    }

    open spec fn wrap(v: SpecSurfaceAppend) -> SpecBrace {
        SpecBrace::SurfaceAppend(v)
    }

    fn parse_name(input: &Vec<char>, pos: usize) -> (r: Option<(usize, Vec<SurfaceId>)>) {
        surface_append_name(input, pos)
    }

    fn parse_inner(input: &Vec<char>, pos: usize) -> (r: Option<(usize, SurfaceInner)>) {
        surface_inner(input, pos)
    }

    fn make_exec(name: Vec<SurfaceId>, lines: Vec<LineContainer<SurfaceInner>>) -> (r:
        SurfaceAppend) {
        SurfaceAppend { ids: name, lines }
    }

    fn wrap_exec(self) -> (r: Brace) {
        Brace::SurfaceAppend(self)
    }
}

} // verus!
