//! Balloon and point offset lines: twelve fixed single-value keys, each with
//! one signed integer.

use vstd::prelude::*;

use crate::ast::SurfaceInner;
use crate::model::SpecSurfaceInner;
use crate::parse::parts::{digit_neg_i64, spec_digit_neg_i64, tag, tag_at};

verus! {

/// A fixed key followed by one signed value.
pub open spec fn spec_offset_value(s: Seq<char>, pos: int, t: Seq<char>) -> Option<(int, i64)> {
    if tag_at(s, pos, t) {
        spec_digit_neg_i64(s, pos + t.len())
    } else {
        None
    }
}

fn offset_value(input: &Vec<char>, pos: usize, t: &str) -> (r: Option<(usize, i64)>)
    requires
        pos <= input@.len(),
    ensures
        match r {
            Some((p, v)) => spec_offset_value(input@, pos as int, t@) == Some((p as int, v))
                && pos <= p <= input@.len(),
            None => spec_offset_value(input@, pos as int, t@) is None,
        },
{
    match tag(input, pos, t) {
        Some(p) => digit_neg_i64(input, p),
        None => None,
    }
}

/// Any of the twelve offset keys, in the order the body grammar tries them.
pub open spec fn spec_surface_offset(s: Seq<char>, pos: int) -> Option<(int, SpecSurfaceInner)> {
    match spec_offset_value(s, pos, "sakura.balloon.offsetx,"@) {
        Some((p, v)) => Some((p, SpecSurfaceInner::SakuraBalloonOffsetX(v))),
        None => match spec_offset_value(s, pos, "sakura.balloon.offsety,"@) {
            Some((p, v)) => Some((p, SpecSurfaceInner::SakuraBalloonOffsetY(v))),
            None => match spec_offset_value(s, pos, "kero.balloon.offsetx,"@) {
                Some((p, v)) => Some((p, SpecSurfaceInner::KeroBalloonOffsetX(v))),
                None => match spec_offset_value(s, pos, "kero.balloon.offsety,"@) {
                    Some((p, v)) => Some((p, SpecSurfaceInner::KeroBalloonOffsetY(v))),
                    None => match spec_offset_value(s, pos, "balloon.offsetx,"@) {
                        Some((p, v)) => Some((p, SpecSurfaceInner::BalloonOffsetX(v))),
                        None => match spec_offset_value(s, pos, "balloon.offsety,"@) {
                            Some((p, v)) => Some((p, SpecSurfaceInner::BalloonOffsetY(v))),
                            None => match spec_offset_value(s, pos, "point.centerx,"@) {
                                Some((p, v)) => Some((p, SpecSurfaceInner::PointCenterX(v))),
                                None => match spec_offset_value(s, pos, "point.centery,"@) {
                                    Some((p, v)) => Some((p, SpecSurfaceInner::PointCenterY(v))),
                                    None => match spec_offset_value(
                                        s,
                                        pos,
                                        "point.kinoko.centerx,"@,
                                    ) {
                                        Some((p, v)) => Some(
                                            (p, SpecSurfaceInner::PointKinokoCenterX(v)),
                                        ),
                                        None => match spec_offset_value(
                                            s,
                                            pos,
                                            "point.kinoko.centery,"@,
                                        ) {
                                            Some((p, v)) => Some(
                                                (p, SpecSurfaceInner::PointKinokoCenterY(v)),
                                            ),
                                            None => match spec_offset_value(
                                                s,
                                                pos,
                                                "point.basepos.x,"@,
                                            ) {
                                                Some((p, v)) => Some(
                                                    (p, SpecSurfaceInner::PointBaseposX(v)),
                                                ),
                                                None => match spec_offset_value(
                                                    s,
                                                    pos,
                                                    "point.basepos.y,"@,
                                                ) {
                                                    Some((p, v)) => Some(
                                                        (p, SpecSurfaceInner::PointBaseposY(v)),
                                                    ),
                                                    None => None,
                                                },
                                            },
                                        },
                                    },
                                },
                            },
                        },
                    },
                },
            },
        },
    }
}

pub fn surface_offset(input: &Vec<char>, pos: usize) -> (r: Option<(usize, SurfaceInner)>)
    requires
        pos <= input@.len(),
    ensures
        match r {
            Some((p, v)) => spec_surface_offset(input@, pos as int) == Some(
                (p as int, v.deep_view()),
            ) && pos <= p <= input@.len(),
            None => spec_surface_offset(input@, pos as int) is None,
        },
{
    if let Some((p, v)) = offset_value(input, pos, "sakura.balloon.offsetx,") {
        Some((p, SurfaceInner::SakuraBalloonOffsetX(v)))
    } else if let Some((p, v)) = offset_value(input, pos, "sakura.balloon.offsety,") {
        Some((p, SurfaceInner::SakuraBalloonOffsetY(v)))
    } else if let Some((p, v)) = offset_value(input, pos, "kero.balloon.offsetx,") {
        Some((p, SurfaceInner::KeroBalloonOffsetX(v)))
    } else if let Some((p, v)) = offset_value(input, pos, "kero.balloon.offsety,") {
        Some((p, SurfaceInner::KeroBalloonOffsetY(v)))
    } else if let Some((p, v)) = offset_value(input, pos, "balloon.offsetx,") {
        Some((p, SurfaceInner::BalloonOffsetX(v)))
    } else if let Some((p, v)) = offset_value(input, pos, "balloon.offsety,") {
        Some((p, SurfaceInner::BalloonOffsetY(v)))
    } else if let Some((p, v)) = offset_value(input, pos, "point.centerx,") {
        Some((p, SurfaceInner::PointCenterX(v)))
    } else if let Some((p, v)) = offset_value(input, pos, "point.centery,") {
        Some((p, SurfaceInner::PointCenterY(v)))
    } else if let Some((p, v)) = offset_value(input, pos, "point.kinoko.centerx,") {
        Some((p, SurfaceInner::PointKinokoCenterX(v)))
    } else if let Some((p, v)) = offset_value(input, pos, "point.kinoko.centery,") {
        Some((p, SurfaceInner::PointKinokoCenterY(v)))
    } else if let Some((p, v)) = offset_value(input, pos, "point.basepos.x,") {
        Some((p, SurfaceInner::PointBaseposX(v)))
    } else if let Some((p, v)) = offset_value(input, pos, "point.basepos.y,") {
        Some((p, SurfaceInner::PointBaseposY(v)))
    } else {
        None
    }
}

} // verus!
