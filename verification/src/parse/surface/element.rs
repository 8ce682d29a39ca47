//! Element lines: `element<id>,<method>,<filename>,<x>,<y>`.

use vstd::prelude::*;

use crate::ast::SurfaceElement;
use crate::model::SpecSurfaceElement;
use crate::parse::parts::{
    char_range_string, digit_neg_i64, digit_u32, not_comma_end, scan_not_comma,
    spec_digit_neg_i64, spec_digit_u32, tag, tag_at,
};
use crate::parse::surface::draw_method::{draw_method, spec_draw_method};

verus! {

pub open spec fn spec_element(s: Seq<char>, pos: int) -> Option<(int, SpecSurfaceElement)> {
    if tag_at(s, pos, "element"@) {
        match spec_digit_u32(s, pos + "element"@.len()) {
            Some((p, id)) => if tag_at(s, p, ","@) {
                match spec_draw_method(s, p + ","@.len()) {
                    Some((p1, method)) => if tag_at(s, p1, ","@) {
                        let q = p1 + ","@.len();
                        let e = not_comma_end(s, q);
                        if e > q && tag_at(s, e, ","@) {
                            match spec_digit_neg_i64(s, e + ","@.len()) {
                                Some((p2, x)) => if tag_at(s, p2, ","@) {
                                    match spec_digit_neg_i64(s, p2 + ","@.len()) {
                                        Some((p3, y)) => Some(
                                            (
                                                p3,
                                                SpecSurfaceElement {
                                                    id,
                                                    method,
                                                    filename: s.subrange(q, e),
                                                    x,
                                                    y,
                                                },
                                            ),
                                        ),
                                        None => None,
                                    }
                                } else {
                                    None
                                },
                                None => None,
                            }
                        } else {
                            None
                        }
                    } else {
                        None
                    },
                    None => None,
                }
            } else {
                None
            },
            None => None,
        }
    } else {
        None
    }
}

pub fn element(input: &Vec<char>, pos: usize) -> (r: Option<(usize, SurfaceElement)>)
    requires
        pos <= input@.len(),
    ensures
        match r {
            Some((p, v)) => spec_element(input@, pos as int) == Some((p as int, v.deep_view()))
                && pos <= p <= input@.len(),
            None => spec_element(input@, pos as int) is None,
        },
{
    let p0 = match tag(input, pos, "element") {
        Some(p) => p,
        None => {
            return None;
        },
    };
    let (p, id) = match digit_u32(input, p0) {
        Some(r) => r,
        None => {
            return None;
        },
    };
    let pa = match tag(input, p, ",") {
        Some(p) => p,
        None => {
            return None;
        },
    };
    let (p1, method) = match draw_method(input, pa) {
        Some(r) => r,
        None => {
            return None;
        },
    };
    let q = match tag(input, p1, ",") {
        Some(p) => p,
        None => {
            return None;
        },
    };
    let e = scan_not_comma(input, q);
    if !(e > q) {
        return None;
    }
    let pb = match tag(input, e, ",") {
        Some(p) => p,
        None => {
            return None;
        },
    };
    let (p2, x) = match digit_neg_i64(input, pb) {
        Some(r) => r,
        None => {
            return None;
        },
    };
    let pc = match tag(input, p2, ",") {
        Some(p) => p,
        None => {
            return None;
        },
    };
    match digit_neg_i64(input, pc) {
        Some((p3, y)) => {
            let filename = char_range_string(input, q, e);
            Some((p3, SurfaceElement { id, method, filename, x, y }))
        },
        None => None,
    }
}

} // verus!
