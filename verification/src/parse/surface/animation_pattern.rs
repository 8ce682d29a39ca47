//! Animation pattern lines, in two dialects that normalize to one unit.
//!
//! The legacy form `<id>pattern<n>,<surface>,<weight>,<method>,<x>,<y>`
//! stores its weight in tenths: it is multiplied by ten at parse time. The
//! current form `animation<id>.pattern<n>,<method>,<surface>,<weight>,<x>,<y>`
//! takes the weight as is. A legacy weight whose tenfold value does not fit
//! the weight's width is a parse failure of that alternative, like any other
//! overflow.

use vstd::prelude::*;

use crate::ast::{
    AnimationPatternDrawMethod, AnimationPatternProperty, SurfaceAnimationPattern,
};
use crate::model::{SpecAnimationPatternDrawMethod, SpecSurfaceAnimationPattern};
use crate::parse::parts::{
    digit_neg_i64, digit_u32, spec_digit_neg_i64, spec_digit_u32, tag, tag_at,
};
use crate::parse::surface::draw_method::{
    draw_method, draw_method_on_animation, spec_draw_method, spec_draw_method_on_animation,
};

verus! {

/// Largest legacy weight whose tenfold value still fits in a `u32`.
pub open spec fn max_tenth_weight() -> u32 {
    429496729
}

/// Legacy normal method: `,<surface>,<weight>,<method>,<x>,<y>`, weight in
/// tenths.
pub open spec fn spec_pattern_normal_v0(s: Seq<char>, pos: int) -> Option<
    (int, SpecAnimationPatternDrawMethod),
> {
    if tag_at(s, pos, ","@) {
        match spec_digit_neg_i64(s, pos + ","@.len()) {
            Some((p1, surface_id)) => if tag_at(s, p1, ","@) {
                match spec_digit_u32(s, p1 + ","@.len()) {
                    Some((p2, w)) => if tag_at(s, p2, ","@) {
                        match spec_draw_method(s, p2 + ","@.len()) {
                            Some((p3, dm)) => if tag_at(s, p3, ","@) {
                                match spec_digit_neg_i64(s, p3 + ","@.len()) {
                                    Some((p4, x)) => if tag_at(s, p4, ","@) {
                                        match spec_digit_neg_i64(s, p4 + ","@.len()) {
                                            Some((p5, y)) => if w <= max_tenth_weight() {
                                                Some(
                                                    (
                                                        p5,
                                                        SpecAnimationPatternDrawMethod::Normal(
                                                            dm,
                                                            AnimationPatternProperty {
                                                                surface_id,
                                                                weight: (w * 10) as u32,
                                                                x,
                                                                y,
                                                            },
                                                        ),
                                                    ),
                                                )
                                            } else {
                                                None
                                            },
                                            None => None,
                                        }
                                    } else {
                                        None
                                    },
                                    None => None,
                                }
                            } else {
                                None
                            },
                            None => None,
                        }
                    } else {
                        None
                    },
                    None => None,
                }
            } else {
                None
            },
            None => None,
        }
    } else {
        None
    }
}

/// Legacy animation method: `,<surface>,<weight>,<animation-method>`; the
/// leading surface and weight fields are read and discarded.
pub open spec fn spec_pattern_animation_v0(s: Seq<char>, pos: int) -> Option<
    (int, SpecAnimationPatternDrawMethod),
> {
    if tag_at(s, pos, ","@) {
        match spec_digit_neg_i64(s, pos + ","@.len()) {
            Some((p1, _surface_id)) => if tag_at(s, p1, ","@) {
                match spec_digit_u32(s, p1 + ","@.len()) {
                    Some((p2, _w)) => if tag_at(s, p2, ","@) {
                        match spec_draw_method_on_animation(s, p2 + ","@.len()) {
                            Some((p3, dm)) => Some(
                                (p3, SpecAnimationPatternDrawMethod::Animation(dm)),
                            ),
                            None => None,
                        }
                    } else {
                        None
                    },
                    None => None,
                }
            } else {
                None
            },
            None => None,
        }
    } else {
        None
    }
}

/// Current property tail: `,<surface>,<weight>,<x>,<y>`, weight as is.
pub open spec fn spec_pattern_property_v1(s: Seq<char>, pos: int) -> Option<
    (int, AnimationPatternProperty),
> {
    if tag_at(s, pos, ","@) {
        match spec_digit_neg_i64(s, pos + ","@.len()) {
            Some((p1, surface_id)) => if tag_at(s, p1, ","@) {
                match spec_digit_u32(s, p1 + ","@.len()) {
                    Some((p2, weight)) => if tag_at(s, p2, ","@) {
                        match spec_digit_neg_i64(s, p2 + ","@.len()) {
                            Some((p3, x)) => if tag_at(s, p3, ","@) {
                                match spec_digit_neg_i64(s, p3 + ","@.len()) {
                                    Some((p4, y)) => Some(
                                        (p4, AnimationPatternProperty { surface_id, weight, x, y }),
                                    ),
                                    None => None,
                                }
                            } else {
                                None
                            },
                            None => None,
                        }
                    } else {
                        None
                    },
                    None => None,
                }
            } else {
                None
            },
            None => None,
        }
    } else {
        None
    }
}

/// Current normal method: `,<method><property-tail>`.
pub open spec fn spec_pattern_normal_v1(s: Seq<char>, pos: int) -> Option<
    (int, SpecAnimationPatternDrawMethod),
> {
    if tag_at(s, pos, ","@) {
        match spec_draw_method(s, pos + ","@.len()) {
            Some((p, dm)) => match spec_pattern_property_v1(s, p) {
                Some((p2, prop)) => Some((p2, SpecAnimationPatternDrawMethod::Normal(dm, prop))),
                None => None,
            },
            None => None,
        }
    } else {
        None
    }
}

/// Current animation method: `,<animation-method>`.
pub open spec fn spec_pattern_animation_v1(s: Seq<char>, pos: int) -> Option<
    (int, SpecAnimationPatternDrawMethod),
> {
    if tag_at(s, pos, ","@) {
        match spec_draw_method_on_animation(s, pos + ","@.len()) {
            Some((p, dm)) => Some((p, SpecAnimationPatternDrawMethod::Animation(dm))),
            None => None,
        }
    } else {
        None
    }
}

/// Legacy line: `<id>pattern<n>` then one of the two legacy methods.
pub open spec fn spec_animation_pattern_v0(s: Seq<char>, pos: int) -> Option<
    (int, SpecSurfaceAnimationPattern),
> {
    match spec_digit_u32(s, pos) {
        Some((p, id)) => if tag_at(s, p, "pattern"@) {
            match spec_digit_u32(s, p + "pattern"@.len()) {
                Some((p2, pattern_id)) => {
                    let m = match spec_pattern_normal_v0(s, p2) {
                        Some(r) => Some(r),
                        None => spec_pattern_animation_v0(s, p2),
                    };
                    match m {
                        Some((p3, method)) => Some(
                            (p3, SpecSurfaceAnimationPattern { id, pattern_id, method }),
                        ),
                        None => None,
                    }
                },
                None => None,
            }
        } else {
            None
        },
        None => None,
    }
}

/// Current line: `animation<id>.pattern<n>` then one of the two current
/// methods.
pub open spec fn spec_animation_pattern_v1(s: Seq<char>, pos: int) -> Option<
    (int, SpecSurfaceAnimationPattern),
> {
    if tag_at(s, pos, "animation"@) {
        match spec_digit_u32(s, pos + "animation"@.len()) {
            Some((p, id)) => if tag_at(s, p, ".pattern"@) {
                match spec_digit_u32(s, p + ".pattern"@.len()) {
                    Some((p2, pattern_id)) => {
                        let m = match spec_pattern_normal_v1(s, p2) {
                            Some(r) => Some(r),
                            None => spec_pattern_animation_v1(s, p2),
                        };
                        match m {
                            Some((p3, method)) => Some(
                                (p3, SpecSurfaceAnimationPattern { id, pattern_id, method }),
                            ),
                            None => None,
                        }
                    },
                    None => None,
                }
            } else {
                None
            },
            None => None,
        }
    } else {
        None
    }
}

/// Either dialect, legacy first.
pub open spec fn spec_animation_pattern(s: Seq<char>, pos: int) -> Option<
    (int, SpecSurfaceAnimationPattern),
> {
    match spec_animation_pattern_v0(s, pos) {
        Some(r) => Some(r),
        None => spec_animation_pattern_v1(s, pos),
    }
}

/// The legacy dialect writes weights in tenths and the parser multiplies
/// them by ten, so every weight produced by a legacy `Normal` pattern line
/// is a multiple of ten. (The current dialect takes weights as written.)
pub proof fn lemma_legacy_pattern_weight_is_tenfold(s: Seq<char>, pos: int)
    ensures
        match spec_animation_pattern_v0(s, pos) {
            Some((_p, pat)) => match pat.method {
                SpecAnimationPatternDrawMethod::Normal(_dm, prop) => prop.weight % 10 == 0,
                SpecAnimationPatternDrawMethod::Animation(_a) => true,
            },
            None => true,
        },
{
    if let Some((_p, pat)) = spec_animation_pattern_v0(s, pos) {
        if let SpecAnimationPatternDrawMethod::Normal(_dm, prop) = pat.method {
            assert(forall|w: u32| #[trigger] ((w * 10) as u32) % 10 == 0 || w > max_tenth_weight())
                by (nonlinear_arith);
        }
    }
}

fn pattern_normal_v0(input: &Vec<char>, pos: usize) -> (r: Option<
    (usize, AnimationPatternDrawMethod),
>)
    requires
        pos <= input@.len(),
    ensures
        match r {
            Some((p, v)) => spec_pattern_normal_v0(input@, pos as int) == Some(
                (p as int, v.deep_view()),
            ) && pos <= p <= input@.len(),
            None => spec_pattern_normal_v0(input@, pos as int) is None,
        },
{
    let p0 = match tag(input, pos, ",") {
        Some(p) => p,
        None => {
            return None;
        },
    };
    let (p1, surface_id) = match digit_neg_i64(input, p0) {
        Some(r) => r,
        None => {
            return None;
        },
    };
    let p1b = match tag(input, p1, ",") {
        Some(p) => p,
        None => {
            return None;
        },
    };
    let (p2, w) = match digit_u32(input, p1b) {
        Some(r) => r,
        None => {
            return None;
        },
    };
    let p2b = match tag(input, p2, ",") {
        Some(p) => p,
        None => {
            return None;
        },
    };
    let (p3, dm) = match draw_method(input, p2b) {
        Some(r) => r,
        None => {
            return None;
        },
    };
    let p3b = match tag(input, p3, ",") {
        Some(p) => p,
        None => {
            return None;
        },
    };
    let (p4, x) = match digit_neg_i64(input, p3b) {
        Some(r) => r,
        None => {
            return None;
        },
    };
    let p4b = match tag(input, p4, ",") {
        Some(p) => p,
        None => {
            return None;
        },
    };
    let (p5, y) = match digit_neg_i64(input, p4b) {
        Some(r) => r,
        None => {
            return None;
        },
    };
    if w <= 429496729 {
        let prop = AnimationPatternProperty { surface_id, weight: w * 10, x, y };
        Some((p5, AnimationPatternDrawMethod::Normal(dm, prop)))
    } else {
        None
    }
}

fn pattern_animation_v0(input: &Vec<char>, pos: usize) -> (r: Option<
    (usize, AnimationPatternDrawMethod),
>)
    requires
        pos <= input@.len(),
    ensures
        match r {
            Some((p, v)) => spec_pattern_animation_v0(input@, pos as int) == Some(
                (p as int, v.deep_view()),
            ) && pos <= p <= input@.len(),
            None => spec_pattern_animation_v0(input@, pos as int) is None,
        },
{
    let p0 = match tag(input, pos, ",") {
        Some(p) => p,
        None => {
            return None;
        },
    };
    let (p1, _surface_id) = match digit_neg_i64(input, p0) {
        Some(r) => r,
        None => {
            return None;
        },
    };
    let p1b = match tag(input, p1, ",") {
        Some(p) => p,
        None => {
            return None;
        },
    };
    let (p2, _w) = match digit_u32(input, p1b) {
        Some(r) => r,
        None => {
            return None;
        },
    };
    let p2b = match tag(input, p2, ",") {
        Some(p) => p,
        None => {
            return None;
        },
    };
    match draw_method_on_animation(input, p2b) {
        Some((p3, dm)) => Some((p3, AnimationPatternDrawMethod::Animation(dm))),
        None => None,
    }
}

pub fn animation_pattern_property_v1(input: &Vec<char>, pos: usize) -> (r: Option<
    (usize, AnimationPatternProperty),
>)
    requires
        pos <= input@.len(),
    ensures
        match r {
            Some((p, v)) => spec_pattern_property_v1(input@, pos as int) == Some((p as int, v))
                && pos <= p <= input@.len(),
            None => spec_pattern_property_v1(input@, pos as int) is None,
        },
{
    let p0 = match tag(input, pos, ",") {
        Some(p) => p,
        None => {
            return None;
        },
    };
    let (p1, surface_id) = match digit_neg_i64(input, p0) {
        Some(r) => r,
        None => {
            return None;
        },
    };
    let p1b = match tag(input, p1, ",") {
        Some(p) => p,
        None => {
            return None;
        },
    };
    let (p2, weight) = match digit_u32(input, p1b) {
        Some(r) => r,
        None => {
            return None;
        },
    };
    let p2b = match tag(input, p2, ",") {
        Some(p) => p,
        None => {
            return None;
        },
    };
    let (p3, x) = match digit_neg_i64(input, p2b) {
        Some(r) => r,
        None => {
            return None;
        },
    };
    let p3b = match tag(input, p3, ",") {
        Some(p) => p,
        None => {
            return None;
        },
    };
    match digit_neg_i64(input, p3b) {
        Some((p4, y)) => Some((p4, AnimationPatternProperty { surface_id, weight, x, y })),
        None => None,
    }
}

fn pattern_normal_v1(input: &Vec<char>, pos: usize) -> (r: Option<
    (usize, AnimationPatternDrawMethod),
>)
    requires
        pos <= input@.len(),
    ensures
        match r {
            Some((p, v)) => spec_pattern_normal_v1(input@, pos as int) == Some(
                (p as int, v.deep_view()),
            ) && pos <= p <= input@.len(),
            None => spec_pattern_normal_v1(input@, pos as int) is None,
        },
{
    let p0 = match tag(input, pos, ",") {
        Some(p) => p,
        None => {
            return None;
        },
    };
    let (p, dm) = match draw_method(input, p0) {
        Some(r) => r,
        None => {
            return None;
        },
    };
    match animation_pattern_property_v1(input, p) {
        Some((p2, prop)) => Some((p2, AnimationPatternDrawMethod::Normal(dm, prop))),
        None => None,
    }
}

fn pattern_animation_v1(input: &Vec<char>, pos: usize) -> (r: Option<
    (usize, AnimationPatternDrawMethod),
>)
    requires
        pos <= input@.len(),
    ensures
        match r {
            Some((p, v)) => spec_pattern_animation_v1(input@, pos as int) == Some(
                (p as int, v.deep_view()),
            ) && pos <= p <= input@.len(),
            None => spec_pattern_animation_v1(input@, pos as int) is None,
        },
{
    let p0 = match tag(input, pos, ",") {
        Some(p) => p,
        None => {
            return None;
        },
    };
    match draw_method_on_animation(input, p0) {
        Some((p, dm)) => Some((p, AnimationPatternDrawMethod::Animation(dm))),
        None => None,
    }
}

pub fn animation_pattern_v0(input: &Vec<char>, pos: usize) -> (r: Option<
    (usize, SurfaceAnimationPattern),
>)
    requires
        pos <= input@.len(),
    ensures
        match r {
            Some((p, v)) => spec_animation_pattern_v0(input@, pos as int) == Some(
                (p as int, v.deep_view()),
            ) && pos <= p <= input@.len(),
            None => spec_animation_pattern_v0(input@, pos as int) is None,
        },
{
    let (p, id) = match digit_u32(input, pos) {
        Some(r) => r,
        None => {
            return None;
        },
    };
    let pb = match tag(input, p, "pattern") {
        Some(p) => p,
        None => {
            return None;
        },
    };
    let (p2, pattern_id) = match digit_u32(input, pb) {
        Some(r) => r,
        None => {
            return None;
        },
    };
    let m = match pattern_normal_v0(input, p2) {
        Some(r) => Some(r),
        None => pattern_animation_v0(input, p2),
    };
    match m {
        Some((p3, method)) => Some((p3, SurfaceAnimationPattern { id, pattern_id, method })),
        None => None,
    }
}

pub fn animation_pattern_v1(input: &Vec<char>, pos: usize) -> (r: Option<
    (usize, SurfaceAnimationPattern),
>)
    requires
        pos <= input@.len(),
    ensures
        match r {
            Some((p, v)) => spec_animation_pattern_v1(input@, pos as int) == Some(
                (p as int, v.deep_view()),
            ) && pos <= p <= input@.len(),
            None => spec_animation_pattern_v1(input@, pos as int) is None,
        },
{
    let pa = match tag(input, pos, "animation") {
        Some(p) => p,
        None => {
            return None;
        },
    };
    let (p, id) = match digit_u32(input, pa) {
        Some(r) => r,
        None => {
            return None;
        },
    };
    let pb = match tag(input, p, ".pattern") {
        Some(p) => p,
        None => {
            return None;
        },
    };
    let (p2, pattern_id) = match digit_u32(input, pb) {
        Some(r) => r,
        None => {
            return None;
        },
    };
    let m = match pattern_normal_v1(input, p2) {
        Some(r) => Some(r),
        None => pattern_animation_v1(input, p2),
    };
    match m {
        Some((p3, method)) => Some((p3, SurfaceAnimationPattern { id, pattern_id, method })),
        None => None,
    }
}

pub fn animation_pattern(input: &Vec<char>, pos: usize) -> (r: Option<
    (usize, SurfaceAnimationPattern),
>)
    requires
        pos <= input@.len(),
    ensures
        match r {
            Some((p, v)) => spec_animation_pattern(input@, pos as int) == Some(
                (p as int, v.deep_view()),
            ) && pos <= p <= input@.len(),
            None => spec_animation_pattern(input@, pos as int) is None,
        },
{
    if let Some(r) = animation_pattern_v0(input, pos) {
        Some(r)
    } else {
        animation_pattern_v1(input, pos)
    }
}

} // verus!
