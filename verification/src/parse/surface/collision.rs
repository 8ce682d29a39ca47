//! Collision lines: the classic five-field `collision<id>` rectangle and the
//! shaped `collisionex<id>` variants.

use vstd::prelude::*;

use crate::ast::{CollisionExKind, SurfaceCollision, SurfaceCollisionEx};
use crate::model::{SpecCollisionExKind, SpecSurfaceCollision, SpecSurfaceCollisionEx};
use crate::parse::parts::{
    char_range_string, digit_neg_i64, digit_u32, digit_u8, is_newline_char, lemma_run_end_is,
    not_comma_end, run_end, scan_not_comma, spec_boolean, spec_digit_neg_i64, spec_digit_u32,
    spec_digit_u8, boolean, tag, tag_at,
};

verus! {

/// End of a collision target name: characters other than comma, space, and
/// newline.
pub open spec fn target_name_end(s: Seq<char>, pos: int) -> int {
    run_end(s, pos, |c: char| c != ',' && c != ' ' && !is_newline_char(c))
}

/// Executable scan for a collision target name.
pub fn scan_target_name(input: &Vec<char>, pos: usize) -> (r: usize)
    requires
        pos <= input@.len(),
    ensures
        r as int == target_name_end(input@, pos as int),
        pos <= r <= input@.len(),
{
    let mut i = pos;
    while i < input.len() && input[i] != ',' && input[i] != ' ' && input[i] != '\r' && input[i]
        != '\n'
        invariant
            pos <= i <= input@.len(),
            forall|j: int|
                pos <= j < i ==> (input@[j] != ',' && input@[j] != ' ' && !is_newline_char(
                    input@[j],
                )),
        decreases input@.len() - i,
    {
        i += 1;
    }
    proof {
        lemma_run_end_is(
            input@,
            pos as int,
            |c: char| c != ',' && c != ' ' && !is_newline_char(c),
            i as int,
        );
    }
    i
}

/// `collision<id>,<startX>,<startY>,<endX>,<endY>,<targetName>`.
pub open spec fn spec_collision(s: Seq<char>, pos: int) -> Option<(int, SpecSurfaceCollision)> {
    if tag_at(s, pos, "collision"@) {
        match spec_digit_u32(s, pos + "collision"@.len()) {
            Some((p, id)) => if tag_at(s, p, ","@) {
                match spec_digit_neg_i64(s, p + ","@.len()) {
                    Some((p1, start_x)) => if tag_at(s, p1, ","@) {
                        match spec_digit_neg_i64(s, p1 + ","@.len()) {
                            Some((p2, start_y)) => if tag_at(s, p2, ","@) {
                                match spec_digit_neg_i64(s, p2 + ","@.len()) {
                                    Some((p3, end_x)) => if tag_at(s, p3, ","@) {
                                        match spec_digit_neg_i64(s, p3 + ","@.len()) {
                                            Some((p4, end_y)) => if tag_at(s, p4, ","@) {
                                                let q = p4 + ","@.len();
                                                let e = target_name_end(s, q);
                                                if e > q {
                                                    Some(
                                                        (
                                                            e,
                                                            SpecSurfaceCollision {
                                                                id,
                                                                start_x,
                                                                start_y,
                                                                end_x,
                                                                end_y,
                                                                target_id: s.subrange(q, e),
                                                            },
                                                        ),
                                                    )
                                                } else {
                                                    None
                                                }
                                            } else {
                                                None
                                            },
                                            None => None,
                                        }
                                    } else {
                                        None
                                    },
                                    None => None,
                                }
                            } else {
                                None
                            },
                            None => None,
                        }
                    } else {
                        None
                    },
                    None => None,
                }
            } else {
                None
            },
            None => None,
        }
    } else {
        None
    }
}

pub fn collision(input: &Vec<char>, pos: usize) -> (r: Option<(usize, SurfaceCollision)>)
    requires
        pos <= input@.len(),
    ensures
        match r {
            Some((p, v)) => spec_collision(input@, pos as int) == Some((p as int, v.deep_view()))
                && pos <= p <= input@.len(),
            None => spec_collision(input@, pos as int) is None,
        },
{
    let p0 = match tag(input, pos, "collision") {
        Some(p) => p,
        None => {
            return None;
        },
    };
    let (p, id) = match digit_u32(input, p0) {
        Some(r) => r,
        None => {
            return None;
        },
    };
    let pa = match tag(input, p, ",") {
        Some(p) => p,
        None => {
            return None;
        },
    };
    let (p1, start_x) = match digit_neg_i64(input, pa) {
        Some(r) => r,
        None => {
            return None;
        },
    };
    let pb = match tag(input, p1, ",") {
        Some(p) => p,
        None => {
            return None;
        },
    };
    let (p2, start_y) = match digit_neg_i64(input, pb) {
        Some(r) => r,
        None => {
            return None;
        },
    };
    let pc = match tag(input, p2, ",") {
        Some(p) => p,
        None => {
            return None;
        },
    };
    let (p3, end_x) = match digit_neg_i64(input, pc) {
        Some(r) => r,
        None => {
            return None;
        },
    };
    let pd = match tag(input, p3, ",") {
        Some(p) => p,
        None => {
            return None;
        },
    };
    let (p4, end_y) = match digit_neg_i64(input, pd) {
        Some(r) => r,
        None => {
            return None;
        },
    };
    let q = match tag(input, p4, ",") {
        Some(p) => p,
        None => {
            return None;
        },
    };
    let e = scan_target_name(input, q);
    if e > q {
        let target_id = char_range_string(input, q, e);
        Some((e, SurfaceCollision { id, start_x, start_y, end_x, end_y, target_id }))
    } else {
        None
    }
}

/// One `collisionex` shape: `rect`, `ellipse`, `circle`, `polygon`, or
/// `region`.
pub open spec fn spec_collision_ex_kind(s: Seq<char>, pos: int) -> Option<
    (int, SpecCollisionExKind),
> {
    match spec_kind_rect(s, pos) {
        Some(r) => Some(r),
        None => match spec_kind_ellipse(s, pos) {
            Some(r) => Some(r),
            None => match spec_kind_circle(s, pos) {
                Some(r) => Some(r),
                None => match spec_kind_polygon(s, pos) {
                    Some(r) => Some(r),
                    None => spec_kind_region(s, pos),
                },
            },
        },
    }
}

/// Four signed coordinates after a keyword: shared shape of `rect` and
/// `ellipse`.
pub open spec fn spec_four_coords(s: Seq<char>, pos: int) -> Option<(int, (i64, i64, i64, i64))> {
    if tag_at(s, pos, ","@) {
        match spec_digit_neg_i64(s, pos + ","@.len()) {
            Some((p1, a)) => if tag_at(s, p1, ","@) {
                match spec_digit_neg_i64(s, p1 + ","@.len()) {
                    Some((p2, b)) => if tag_at(s, p2, ","@) {
                        match spec_digit_neg_i64(s, p2 + ","@.len()) {
                            Some((p3, c)) => if tag_at(s, p3, ","@) {
                                match spec_digit_neg_i64(s, p3 + ","@.len()) {
                                    Some((p4, d)) => Some((p4, (a, b, c, d))),
                                    None => None,
                                }
                            } else {
                                None
                            },
                            None => None,
                        }
                    } else {
                        None
                    },
                    None => None,
                }
            } else {
                None
            },
            None => None,
        }
    } else {
        None
    }
}

pub open spec fn spec_kind_rect(s: Seq<char>, pos: int) -> Option<(int, SpecCollisionExKind)> {
    if tag_at(s, pos, "rect"@) {
        match spec_four_coords(s, pos + "rect"@.len()) {
            Some((p, c)) => Some((p, SpecCollisionExKind::Rect(c.0, c.1, c.2, c.3))),
            None => None,
        }
    } else {
        None
    }
}

pub open spec fn spec_kind_ellipse(s: Seq<char>, pos: int) -> Option<(int, SpecCollisionExKind)> {
    if tag_at(s, pos, "ellipse"@) {
        match spec_four_coords(s, pos + "ellipse"@.len()) {
            Some((p, c)) => Some((p, SpecCollisionExKind::Ellipse(c.0, c.1, c.2, c.3))),
            None => None,
        }
    } else {
        None
    }
}

pub open spec fn spec_kind_circle(s: Seq<char>, pos: int) -> Option<(int, SpecCollisionExKind)> {
    if tag_at(s, pos, "circle"@) {
        if tag_at(s, pos + "circle"@.len(), ","@) {
            match spec_digit_neg_i64(s, pos + "circle"@.len() + ","@.len()) {
                Some((p1, x)) => if tag_at(s, p1, ","@) {
                    match spec_digit_neg_i64(s, p1 + ","@.len()) {
                        Some((p2, y)) => if tag_at(s, p2, ","@) {
                            match spec_digit_neg_i64(s, p2 + ","@.len()) {
                                Some((p3, rad)) => Some((p3, SpecCollisionExKind::Circle(x, y, rad))),
                                None => None,
                            }
                        } else {
                            None
                        },
                        None => None,
                    }
                } else {
                    None
                },
                None => None,
            }
        } else {
            None
        }
    } else {
        None
    }
}

/// Greedy run of `,<coordinate>` continuations.
pub open spec fn spec_coord_tail(s: Seq<char>, pos: int) -> (int, Seq<i64>)
    decreases s.len() - pos,
{
    if 0 <= pos && pos < s.len() && s[pos] == ',' {
        match spec_digit_neg_i64(s, pos + 1) {
            Some((p, v)) => if pos < p && p <= s.len() {
                let rest = spec_coord_tail(s, p);
                (rest.0, seq![v] + rest.1)
            } else {
                (pos, Seq::empty())
            },
            None => (pos, Seq::empty()),
        }
    } else {
        (pos, Seq::empty())
    }
}

/// `polygon(,<coordinate>)+`: any positive number of signed coordinates, no
/// parity requirement.
pub open spec fn spec_kind_polygon(s: Seq<char>, pos: int) -> Option<(int, SpecCollisionExKind)> {
    if tag_at(s, pos, "polygon"@) {
        let t = spec_coord_tail(s, pos + "polygon"@.len());
        if t.1.len() >= 1 {
            Some((t.0, SpecCollisionExKind::Polygon(t.1)))
        } else {
            None
        }
    } else {
        None
    }
}

/// `region,<filename>,<r>,<g>,<b>[,<flag>]`.
pub open spec fn spec_kind_region(s: Seq<char>, pos: int) -> Option<(int, SpecCollisionExKind)> {
    if tag_at(s, pos, "region"@) && tag_at(s, pos + "region"@.len(), ","@) {
        let q = pos + "region"@.len() + ","@.len();
        let e = not_comma_end(s, q);
        if e > q && tag_at(s, e, ","@) {
            match spec_digit_u8(s, e + ","@.len()) {
                Some((p1, red)) => if tag_at(s, p1, ","@) {
                    match spec_digit_u8(s, p1 + ","@.len()) {
                        Some((p2, green)) => if tag_at(s, p2, ","@) {
                            match spec_digit_u8(s, p2 + ","@.len()) {
                                Some((p3, blue)) => {
                                    let flag = if tag_at(s, p3, ","@) {
                                        match spec_boolean(s, p3 + ","@.len()) {
                                            Some((p4, b)) => Some((p4, b)),
                                            None => None,
                                        }
                                    } else {
                                        None
                                    };
                                    match flag {
                                        Some((p4, b)) => Some(
                                            (
                                                p4,
                                                SpecCollisionExKind::Region(
                                                    s.subrange(q, e),
                                                    red,
                                                    green,
                                                    blue,
                                                    Some(b),
                                                ),
                                            ),
                                        ),
                                        None => Some(
                                            (
                                                p3,
                                                SpecCollisionExKind::Region(
                                                    s.subrange(q, e),
                                                    red,
                                                    green,
                                                    blue,
                                                    None,
                                                ),
                                            ),
                                        ),
                                    }
                                },
                                None => None,
                            }
                        } else {
                            None
                        },
                        None => None,
                    }
                } else {
                    None
                },
                None => None,
            }
        } else {
            None
        }
    } else {
        None
    }
}

fn kind_four_coords(input: &Vec<char>, pos: usize) -> (r: Option<(usize, (i64, i64, i64, i64))>)
    requires
        pos <= input@.len(),
    ensures
        match r {
            Some((p, v)) => spec_four_coords(input@, pos as int) == Some((p as int, v)) && pos <= p
                <= input@.len(),
            None => spec_four_coords(input@, pos as int) is None,
        },
{
    let pa = match tag(input, pos, ",") {
        Some(p) => p,
        None => {
            return None;
        },
    };
    let (p1, a) = match digit_neg_i64(input, pa) {
        Some(r) => r,
        None => {
            return None;
        },
    };
    let pb = match tag(input, p1, ",") {
        Some(p) => p,
        None => {
            return None;
        },
    };
    let (p2, b) = match digit_neg_i64(input, pb) {
        Some(r) => r,
        None => {
            return None;
        },
    };
    let pc = match tag(input, p2, ",") {
        Some(p) => p,
        None => {
            return None;
        },
    };
    let (p3, c) = match digit_neg_i64(input, pc) {
        Some(r) => r,
        None => {
            return None;
        },
    };
    let pd = match tag(input, p3, ",") {
        Some(p) => p,
        None => {
            return None;
        },
    };
    match digit_neg_i64(input, pd) {
        Some((p4, d)) => Some((p4, (a, b, c, d))),
        None => None,
    }
}

fn kind_polygon_coords(input: &Vec<char>, pos: usize) -> (r: (usize, Vec<i64>))
    requires
        pos <= input@.len(),
    ensures
        r.0 as int == spec_coord_tail(input@, pos as int).0,
        r.1.deep_view() == spec_coord_tail(input@, pos as int).1,
        pos <= r.0 <= input@.len(),
{
    let ghost s = input@;
    let mut cur = pos;
    let mut acc: Vec<i64> = Vec::new();
    proof {
        assert(acc.deep_view() =~= Seq::<i64>::empty());
        assert(spec_coord_tail(s, pos as int).1 =~= acc.deep_view() + spec_coord_tail(
            s,
            pos as int,
        ).1);
    }
    loop
        invariant
            pos <= cur <= input@.len(),
            s == input@,
            spec_coord_tail(s, pos as int).0 == spec_coord_tail(s, cur as int).0,
            spec_coord_tail(s, pos as int).1 == acc.deep_view() + spec_coord_tail(
                s,
                cur as int,
            ).1,
        decreases input@.len() - cur,
    {
        let ghost acc0 = acc;
        if cur < input.len() && input[cur] == ',' {
            match digit_neg_i64(input, cur + 1) {
                Some((p, v)) => {
                    acc.push(v);
                    proof {
                        assert(acc.deep_view() =~= acc0.deep_view().push(v));
                        assert(acc0.deep_view() + (seq![v] + spec_coord_tail(s, p as int).1)
                            =~= acc.deep_view() + spec_coord_tail(s, p as int).1);
                    }
                    cur = p;
                },
                None => {
                    proof {
                        assert(spec_coord_tail(s, cur as int).1 =~= Seq::<i64>::empty());
                        assert(acc.deep_view() + spec_coord_tail(s, cur as int).1
                            =~= acc.deep_view());
                    }
                    return (cur, acc);
                },
            }
        } else {
            proof {
                assert(spec_coord_tail(s, cur as int).1 =~= Seq::<i64>::empty());
                assert(acc.deep_view() + spec_coord_tail(s, cur as int).1 =~= acc.deep_view());
            }
            return (cur, acc);
        }
    }
}

pub fn collision_ex_kind(input: &Vec<char>, pos: usize) -> (r: Option<(usize, CollisionExKind)>)
    requires
        pos <= input@.len(),
    ensures
        match r {
            Some((p, v)) => spec_collision_ex_kind(input@, pos as int) == Some(
                (p as int, v.deep_view()),
            ) && pos <= p <= input@.len(),
            None => spec_collision_ex_kind(input@, pos as int) is None,
        },
{
    match kind_rect(input, pos) {
        Some(r) => Some(r),
        None => match kind_ellipse(input, pos) {
            Some(r) => Some(r),
            None => match kind_circle(input, pos) {
                Some(r) => Some(r),
                None => match kind_polygon(input, pos) {
                    Some(r) => Some(r),
                    None => kind_region(input, pos),
                },
            },
        },
    }
}

fn kind_rect(input: &Vec<char>, pos: usize) -> (r: Option<(usize, CollisionExKind)>)
    requires
        pos <= input@.len(),
    ensures
        match r {
            Some((p, v)) => spec_kind_rect(input@, pos as int) == Some((p as int, v.deep_view()))
                && pos <= p <= input@.len(),
            None => spec_kind_rect(input@, pos as int) is None,
        },
{
    let p0 = match tag(input, pos, "rect") {
        Some(p) => p,
        None => {
            return None;
        },
    };
    match kind_four_coords(input, p0) {
        Some((p, c)) => Some((p, CollisionExKind::Rect(c.0, c.1, c.2, c.3))),
        None => None,
    }
}

fn kind_ellipse(input: &Vec<char>, pos: usize) -> (r: Option<(usize, CollisionExKind)>)
    requires
        pos <= input@.len(),
    ensures
        match r {
            Some((p, v)) => spec_kind_ellipse(input@, pos as int) == Some(
                (p as int, v.deep_view()),
            ) && pos <= p <= input@.len(),
            None => spec_kind_ellipse(input@, pos as int) is None,
        },
{
    let p0 = match tag(input, pos, "ellipse") {
        Some(p) => p,
        None => {
            return None;
        },
    };
    match kind_four_coords(input, p0) {
        Some((p, c)) => Some((p, CollisionExKind::Ellipse(c.0, c.1, c.2, c.3))),
        None => None,
    }
}

fn kind_circle(input: &Vec<char>, pos: usize) -> (r: Option<(usize, CollisionExKind)>)
    requires
        pos <= input@.len(),
    ensures
        match r {
            Some((p, v)) => spec_kind_circle(input@, pos as int) == Some((p as int, v.deep_view()))
                && pos <= p <= input@.len(),
            None => spec_kind_circle(input@, pos as int) is None,
        },
{
    let p0 = match tag(input, pos, "circle") {
        Some(p) => p,
        None => {
            return None;
        },
    };
    let pa = match tag(input, p0, ",") {
        Some(p) => p,
        None => {
            return None;
        },
    };
    let (p1, x) = match digit_neg_i64(input, pa) {
        Some(r) => r,
        None => {
            return None;
        },
    };
    let pb = match tag(input, p1, ",") {
        Some(p) => p,
        None => {
            return None;
        },
    };
    let (p2, y) = match digit_neg_i64(input, pb) {
        Some(r) => r,
        None => {
            return None;
        },
    };
    let pc = match tag(input, p2, ",") {
        Some(p) => p,
        None => {
            return None;
        },
    };
    match digit_neg_i64(input, pc) {
        Some((p3, rad)) => Some((p3, CollisionExKind::Circle(x, y, rad))),
        None => None,
    }
}

fn kind_polygon(input: &Vec<char>, pos: usize) -> (r: Option<(usize, CollisionExKind)>)
    requires
        pos <= input@.len(),
    ensures
        match r {
            Some((p, v)) => spec_kind_polygon(input@, pos as int) == Some(
                (p as int, v.deep_view()),
            ) && pos <= p <= input@.len(),
            None => spec_kind_polygon(input@, pos as int) is None,
        },
{
    let p0 = match tag(input, pos, "polygon") {
        Some(p) => p,
        None => {
            return None;
        },
    };
    let (p, coords) = kind_polygon_coords(input, p0);
    if coords.len() >= 1 {
        Some((p, CollisionExKind::Polygon(coords)))
    } else {
        proof {
            assert(spec_coord_tail(input@, p0 as int).1.len() == 0);
        }
        None
    }
}

fn kind_region(input: &Vec<char>, pos: usize) -> (r: Option<(usize, CollisionExKind)>)
    requires
        pos <= input@.len(),
    ensures
        match r {
            Some((p, v)) => spec_kind_region(input@, pos as int) == Some((p as int, v.deep_view()))
                && pos <= p <= input@.len(),
            None => spec_kind_region(input@, pos as int) is None,
        },
{
    let p0 = match tag(input, pos, "region") {
        Some(p) => p,
        None => {
            return None;
        },
    };
    let q = match tag(input, p0, ",") {
        Some(p) => p,
        None => {
            return None;
        },
    };
    let e = scan_not_comma(input, q);
    if !(e > q) {
        return None;
    }
    let pa = match tag(input, e, ",") {
        Some(p) => p,
        None => {
            return None;
        },
    };
    let (p1, red) = match digit_u8(input, pa) {
        Some(r) => r,
        None => {
            return None;
        },
    };
    let pb = match tag(input, p1, ",") {
        Some(p) => p,
        None => {
            return None;
        },
    };
    let (p2, green) = match digit_u8(input, pb) {
        Some(r) => r,
        None => {
            return None;
        },
    };
    let pc = match tag(input, p2, ",") {
        Some(p) => p,
        None => {
            return None;
        },
    };
    let (p3, blue) = match digit_u8(input, pc) {
        Some(r) => r,
        None => {
            return None;
        },
    };
    let filename = char_range_string(input, q, e);
    match tag(input, p3, ",") {
        Some(pd) => match boolean(input, pd) {
            Some((p4, b)) => Some((p4, CollisionExKind::Region(filename, red, green, blue, Some(b)))),
            None => Some((p3, CollisionExKind::Region(filename, red, green, blue, None))),
        },
        None => Some((p3, CollisionExKind::Region(filename, red, green, blue, None))),
    }
}

/// `collisionex<id>,<targetName>,<kind>`.
pub open spec fn spec_collision_ex(s: Seq<char>, pos: int) -> Option<(int, SpecSurfaceCollisionEx)> {
    if tag_at(s, pos, "collisionex"@) {
        match spec_digit_u32(s, pos + "collisionex"@.len()) {
            Some((p, id)) => if tag_at(s, p, ","@) {
                let q = p + ","@.len();
                let e = not_comma_end(s, q);
                if e > q && tag_at(s, e, ","@) {
                    match spec_collision_ex_kind(s, e + ","@.len()) {
                        Some((p2, kind)) => Some(
                            (
                                p2,
                                SpecSurfaceCollisionEx { id, target_id: s.subrange(q, e), kind },
                            ),
                        ),
                        None => None,
                    }
                } else {
                    None
                }
            } else {
                None
            },
            None => None,
        }
    } else {
        None
    }
}

pub fn collision_ex(input: &Vec<char>, pos: usize) -> (r: Option<(usize, SurfaceCollisionEx)>)
    requires
        pos <= input@.len(),
    ensures
        match r {
            Some((p, v)) => spec_collision_ex(input@, pos as int) == Some(
                (p as int, v.deep_view()),
            ) && pos <= p <= input@.len(),
            None => spec_collision_ex(input@, pos as int) is None,
        },
{
    let p0 = match tag(input, pos, "collisionex") {
        Some(p) => p,
        None => {
            return None;
        },
    };
    let (p, id) = match digit_u32(input, p0) {
        Some(r) => r,
        None => {
            return None;
        },
    };
    let q = match tag(input, p, ",") {
        Some(p) => p,
        None => {
            return None;
        },
    };
    let e = scan_not_comma(input, q);
    if !(e > q) {
        return None;
    }
    let pa = match tag(input, e, ",") {
        Some(p) => p,
        None => {
            return None;
        },
    };
    match collision_ex_kind(input, pa) {
        Some((p2, kind)) => {
            let target_id = char_range_string(input, q, e);
            Some((p2, SurfaceCollisionEx { id, target_id, kind }))
        },
        None => None,
    }
}

} // verus!
