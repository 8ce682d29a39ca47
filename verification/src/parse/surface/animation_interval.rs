//! Animation interval lines: `<id>interval,<spec>(+<spec>)*` (legacy) or
//! `animation<id>.interval,<spec>(+<spec>)*` (current).

use vstd::prelude::*;

use crate::ast::{AnimationInterval, SurfaceAnimationInterval};
use crate::model::SpecSurfaceAnimationInterval;
use crate::parse::parts::{digit_u32, spec_digit_u32, tag, tag_at};

verus! {

/// One interval keyword, with its count where the keyword takes one.
pub open spec fn spec_interval_define(s: Seq<char>, pos: int) -> Option<(int, AnimationInterval)> {
    if tag_at(s, pos, "sometimes"@) {
        Some((pos + "sometimes"@.len(), AnimationInterval::Sometimes))
    } else if tag_at(s, pos, "rarely"@) {
        Some((pos + "rarely"@.len(), AnimationInterval::Rarely))
    } else if tag_at(s, pos, "random,"@) {
        match spec_digit_u32(s, pos + "random,"@.len()) {
            Some((p, v)) => Some((p, AnimationInterval::Random(v))),
            None => None,
        }
    } else if tag_at(s, pos, "periodic,"@) {
        match spec_digit_u32(s, pos + "periodic,"@.len()) {
            Some((p, v)) => Some((p, AnimationInterval::Periodic(v))),
            None => None,
        }
    } else if tag_at(s, pos, "always"@) {
        Some((pos + "always"@.len(), AnimationInterval::Always))
    } else if tag_at(s, pos, "runonce"@) {
        Some((pos + "runonce"@.len(), AnimationInterval::Runonce))
    } else if tag_at(s, pos, "never"@) {
        Some((pos + "never"@.len(), AnimationInterval::Never))
    } else if tag_at(s, pos, "yen-e"@) {
        Some((pos + "yen-e"@.len(), AnimationInterval::YenE))
    } else if tag_at(s, pos, "talk,"@) {
        match spec_digit_u32(s, pos + "talk,"@.len()) {
            Some((p, v)) => Some((p, AnimationInterval::Talk(v))),
            None => None,
        }
    } else if tag_at(s, pos, "bind"@) {
        Some((pos + "bind"@.len(), AnimationInterval::Bind))
    } else {
        None
    }
}

pub fn animation_interval_define(input: &Vec<char>, pos: usize) -> (r: Option<
    (usize, AnimationInterval),
>)
    requires
        pos <= input@.len(),
    ensures
        match r {
            Some((p, v)) => spec_interval_define(input@, pos as int) == Some((p as int, v)) && pos
                <= p <= input@.len(),
            None => spec_interval_define(input@, pos as int) is None,
        },
{
    if let Some(p) = tag(input, pos, "sometimes") {
        Some((p, AnimationInterval::Sometimes))
    } else if let Some(p) = tag(input, pos, "rarely") {
        Some((p, AnimationInterval::Rarely))
    } else if let Some(p) = tag(input, pos, "random,") {
        match digit_u32(input, p) {
            Some((p2, v)) => Some((p2, AnimationInterval::Random(v))),
            None => None,
        }
    } else if let Some(p) = tag(input, pos, "periodic,") {
        match digit_u32(input, p) {
            Some((p2, v)) => Some((p2, AnimationInterval::Periodic(v))),
            None => None,
        }
    } else if let Some(p) = tag(input, pos, "always") {
        Some((p, AnimationInterval::Always))
    } else if let Some(p) = tag(input, pos, "runonce") {
        Some((p, AnimationInterval::Runonce))
    } else if let Some(p) = tag(input, pos, "never") {
        Some((p, AnimationInterval::Never))
    } else if let Some(p) = tag(input, pos, "yen-e") {
        Some((p, AnimationInterval::YenE))
    } else if let Some(p) = tag(input, pos, "talk,") {
        match digit_u32(input, p) {
            Some((p2, v)) => Some((p2, AnimationInterval::Talk(v))),
            None => None,
        }
    } else if let Some(p) = tag(input, pos, "bind") {
        Some((p, AnimationInterval::Bind))
    } else {
        None
    }
}

/// Greedy run of `+<spec>` continuations.
pub open spec fn spec_interval_plus_tail(s: Seq<char>, pos: int) -> (int, Seq<AnimationInterval>)
    decreases s.len() - pos,
{
    if 0 <= pos && pos < s.len() && s[pos] == '+' {
        match spec_interval_define(s, pos + 1) {
            Some((p, v)) => if pos < p && p <= s.len() {
                let rest = spec_interval_plus_tail(s, p);
                (rest.0, seq![v] + rest.1)
            } else {
                (pos, Seq::empty())
            },
            None => (pos, Seq::empty()),
        }
    } else {
        (pos, Seq::empty())
    }
}

/// `<spec>(+<spec>)*`, order and duplicates preserved.
pub open spec fn spec_interval_defines(s: Seq<char>, pos: int) -> Option<
    (int, Seq<AnimationInterval>),
> {
    match spec_interval_define(s, pos) {
        Some((p, v)) => {
            let rest = spec_interval_plus_tail(s, p);
            Some((rest.0, seq![v] + rest.1))
        },
        None => None,
    }
}

pub fn animation_interval_defines(input: &Vec<char>, pos: usize) -> (r: Option<
    (usize, Vec<AnimationInterval>),
>)
    requires
        pos <= input@.len(),
    ensures
        match r {
            Some((p, v)) => spec_interval_defines(input@, pos as int) == Some(
                (p as int, v.deep_view()),
            ) && pos <= p <= input@.len(),
            None => spec_interval_defines(input@, pos as int) is None,
        },
{
    let ghost s = input@;
    let first = match animation_interval_define(input, pos) {
        Some(r) => r,
        None => {
            return None;
        },
    };
    let mut acc: Vec<AnimationInterval> = Vec::new();
    acc.push(first.1);
    let start = first.0;
    let mut cur = start;
    proof {
        assert(acc.deep_view() =~= seq![first.1]);
        assert(spec_interval_plus_tail(s, start as int).1 =~= Seq::<AnimationInterval>::empty()
            + spec_interval_plus_tail(s, start as int).1);
    }
    loop
        invariant
            pos <= start <= cur <= input@.len(),
            s == input@,
            acc@.len() >= 1,
            spec_interval_define(s, pos as int) == Some((start as int, first.1)),
            spec_interval_plus_tail(s, start as int).0 == spec_interval_plus_tail(s, cur as int).0,
            seq![first.1] + spec_interval_plus_tail(s, start as int).1 == acc.deep_view()
                + spec_interval_plus_tail(s, cur as int).1,
        decreases input@.len() - cur,
    {
        let ghost acc0 = acc;
        if cur < input.len() && input[cur] == '+' {
            match animation_interval_define(input, cur + 1) {
                Some((p, v)) => {
                    acc.push(v);
                    proof {
                        assert(acc.deep_view() =~= acc0.deep_view().push(v));
                        assert(acc0.deep_view() + (seq![v] + spec_interval_plus_tail(
                            s,
                            p as int,
                        ).1) =~= acc.deep_view() + spec_interval_plus_tail(s, p as int).1);
                    }
                    cur = p;
                },
                None => {
                    proof {
                        assert(spec_interval_plus_tail(s, cur as int).1 =~= Seq::<
                            AnimationInterval,
                        >::empty());
                        assert(acc.deep_view() + spec_interval_plus_tail(s, cur as int).1
                            =~= acc.deep_view());
                    }
                    return Some((cur, acc));
                },
            }
        } else {
            proof {
                assert(spec_interval_plus_tail(s, cur as int).1 =~= Seq::<
                    AnimationInterval,
                >::empty());
                assert(acc.deep_view() + spec_interval_plus_tail(s, cur as int).1
                    =~= acc.deep_view());
            }
            return Some((cur, acc));
        }
    }
}

/// Legacy form: `<id>interval,<defines>`.
pub open spec fn spec_animation_interval_v0(s: Seq<char>, pos: int) -> Option<
    (int, SpecSurfaceAnimationInterval),
> {
    match spec_digit_u32(s, pos) {
        Some((p, id)) => if tag_at(s, p, "interval,"@) {
            match spec_interval_defines(s, p + "interval,"@.len()) {
                Some((p2, v)) => Some((p2, SpecSurfaceAnimationInterval { id, intervals: v })),
                None => None,
            }
        } else {
            None
        },
        None => None,
    }
}

/// Current form: `animation<id>.interval,<defines>`.
pub open spec fn spec_animation_interval_v1(s: Seq<char>, pos: int) -> Option<
    (int, SpecSurfaceAnimationInterval),
> {
    if tag_at(s, pos, "animation"@) {
        match spec_digit_u32(s, pos + "animation"@.len()) {
            Some((p, id)) => if tag_at(s, p, ".interval,"@) {
                match spec_interval_defines(s, p + ".interval,"@.len()) {
                    Some((p2, v)) => Some((p2, SpecSurfaceAnimationInterval { id, intervals: v })),
                    None => None,
                }
            } else {
                None
            },
            None => None,
        }
    } else {
        None
    }
}

/// Either dialect, legacy first.
pub open spec fn spec_animation_interval(s: Seq<char>, pos: int) -> Option<
    (int, SpecSurfaceAnimationInterval),
> {
    match spec_animation_interval_v0(s, pos) {
        Some(r) => Some(r),
        None => spec_animation_interval_v1(s, pos),
    }
}

pub fn animation_interval_v0(input: &Vec<char>, pos: usize) -> (r: Option<
    (usize, SurfaceAnimationInterval),
>)
    requires
        pos <= input@.len(),
    ensures
        match r {
            Some((p, v)) => spec_animation_interval_v0(input@, pos as int) == Some(
                (p as int, v.deep_view()),
            ) && pos <= p <= input@.len(),
            None => spec_animation_interval_v0(input@, pos as int) is None,
        },
{
    match digit_u32(input, pos) {
        Some((p, id)) => match tag(input, p, "interval,") {
            Some(p2) => match animation_interval_defines(input, p2) {
                Some((p3, v)) => Some((p3, SurfaceAnimationInterval { id, intervals: v })),
                None => None,
            },
            None => None,
        },
        None => None,
    }
}

pub fn animation_interval_v1(input: &Vec<char>, pos: usize) -> (r: Option<
    (usize, SurfaceAnimationInterval),
>)
    requires
        pos <= input@.len(),
    ensures
        match r {
            Some((p, v)) => spec_animation_interval_v1(input@, pos as int) == Some(
                (p as int, v.deep_view()),
            ) && pos <= p <= input@.len(),
            None => spec_animation_interval_v1(input@, pos as int) is None,
        },
{
    match tag(input, pos, "animation") {
        Some(p0) => match digit_u32(input, p0) {
            Some((p, id)) => match tag(input, p, ".interval,") {
                Some(p2) => match animation_interval_defines(input, p2) {
                    Some((p3, v)) => Some((p3, SurfaceAnimationInterval { id, intervals: v })),
                    None => None,
                },
                None => None,
            },
            None => None,
        },
        None => None,
    }
}

pub fn animation_interval(input: &Vec<char>, pos: usize) -> (r: Option<
    (usize, SurfaceAnimationInterval),
>)
    requires
        pos <= input@.len(),
    ensures
        match r {
            Some((p, v)) => spec_animation_interval(input@, pos as int) == Some(
                (p as int, v.deep_view()),
            ) && pos <= p <= input@.len(),
            None => spec_animation_interval(input@, pos as int) is None,
        },
{
    if let Some(r) = animation_interval_v0(input, pos) {
        Some(r)
    } else {
        animation_interval_v1(input, pos)
    }
}

} // verus!
