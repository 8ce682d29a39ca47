//! Collision lines scoped to one animation: `animation<id>.collision…` and
//! `animation<id>.collisionex…`.

use vstd::prelude::*;

use crate::ast::{SurfaceAnimationCollision, SurfaceAnimationCollisionEx};
use crate::model::{SpecSurfaceAnimationCollision, SpecSurfaceAnimationCollisionEx};
use crate::parse::parts::{digit_u32, spec_digit_u32, tag, tag_at};
use crate::parse::surface::collision::{
    collision, collision_ex, spec_collision, spec_collision_ex,
};

verus! {

pub open spec fn spec_animation_collision(s: Seq<char>, pos: int) -> Option<
    (int, SpecSurfaceAnimationCollision),
> {
    if tag_at(s, pos, "animation"@) {
        match spec_digit_u32(s, pos + "animation"@.len()) {
            Some((p, id)) => if tag_at(s, p, "."@) {
                match spec_collision(s, p + "."@.len()) {
                    Some((p2, c)) => Some((p2, SpecSurfaceAnimationCollision { id, collision: c })),
                    None => None,
                }
            } else {
                None
            },
            None => None,
        }
    } else {
        None
    }
}

pub fn animation_collision(input: &Vec<char>, pos: usize) -> (r: Option<
    (usize, SurfaceAnimationCollision),
>)
    requires
        pos <= input@.len(),
    ensures
        match r {
            Some((p, v)) => spec_animation_collision(input@, pos as int) == Some(
                (p as int, v.deep_view()),
            ) && pos <= p <= input@.len(),
            None => spec_animation_collision(input@, pos as int) is None,
        },
{
    let p0 = match tag(input, pos, "animation") {
        Some(p) => p,
        None => {
            return None;
        },
    };
    let (p, id) = match digit_u32(input, p0) {
        Some(r) => r,
        None => {
            return None;
        },
    };
    let pa = match tag(input, p, ".") {
        Some(p) => p,
        None => {
            return None;
        },
    };
    match collision(input, pa) {
        Some((p2, c)) => Some((p2, SurfaceAnimationCollision { id, collision: c })),
        None => None,
    }
}

pub open spec fn spec_animation_collision_ex(s: Seq<char>, pos: int) -> Option<
    (int, SpecSurfaceAnimationCollisionEx),
> {
    if tag_at(s, pos, "animation"@) {
        match spec_digit_u32(s, pos + "animation"@.len()) {
            Some((p, id)) => if tag_at(s, p, "."@) {
                match spec_collision_ex(s, p + "."@.len()) {
                    Some((p2, c)) => Some(
                        (p2, SpecSurfaceAnimationCollisionEx { id, collision: c }),
                    ),
                    None => None,
                }
            } else {
                None
            },
            None => None,
        }
    } else {
        None
    }
}

pub fn animation_collision_ex(input: &Vec<char>, pos: usize) -> (r: Option<
    (usize, SurfaceAnimationCollisionEx),
>)
    requires
        pos <= input@.len(),
    ensures
        match r {
            Some((p, v)) => spec_animation_collision_ex(input@, pos as int) == Some(
                (p as int, v.deep_view()),
            ) && pos <= p <= input@.len(),
            None => spec_animation_collision_ex(input@, pos as int) is None,
        },
{
    let p0 = match tag(input, pos, "animation") {
        Some(p) => p,
        None => {
            return None;
        },
    };
    let (p, id) = match digit_u32(input, p0) {
        Some(r) => r,
        None => {
            return None;
        },
    };
    let pa = match tag(input, p, ".") {
        Some(p) => p,
        None => {
            return None;
        },
    };
    match collision_ex(input, pa) {
        Some((p2, c)) => Some((p2, SurfaceAnimationCollisionEx { id, collision: c })),
        None => None,
    }
}

} // verus!
