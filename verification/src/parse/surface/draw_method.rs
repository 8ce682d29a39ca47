//! Draw methods and animation-control draw methods.
//!
//! Tag order is a correctness contract: `overlayfast` and `overlaymultiply`
//! are tried before their common prefix `overlay`, so the longer names are
//! never cut short.

use vstd::prelude::*;

use crate::ast::{DrawMethod, DrawMethodOnAnimation};
use crate::model::SpecDrawMethodOnAnimation;
use crate::parse::parts::{digit_u32, spec_digit_u32, tag, tag_at};

verus! {

/// One compositing method name. `base` first, then the two long `overlay*`
/// forms, then `overlay` itself, then the rest.
pub open spec fn spec_draw_method(s: Seq<char>, pos: int) -> Option<(int, DrawMethod)> {
    if tag_at(s, pos, "base"@) {
        Some((pos + "base"@.len(), DrawMethod::Base))
    } else if tag_at(s, pos, "overlayfast"@) {
        Some((pos + "overlayfast"@.len(), DrawMethod::Overlayfast))
    } else if tag_at(s, pos, "overlaymultiply"@) {
        Some((pos + "overlaymultiply"@.len(), DrawMethod::Overlaymultiply))
    } else if tag_at(s, pos, "overlay"@) {
        Some((pos + "overlay"@.len(), DrawMethod::Overlay))
    } else if tag_at(s, pos, "replace"@) {
        Some((pos + "replace"@.len(), DrawMethod::Replace))
    } else if tag_at(s, pos, "interpolate"@) {
        Some((pos + "interpolate"@.len(), DrawMethod::Interpolate))
    } else if tag_at(s, pos, "asis"@) {
        Some((pos + "asis"@.len(), DrawMethod::Asis))
    } else if tag_at(s, pos, "move"@) {
        Some((pos + "move"@.len(), DrawMethod::Move))
    } else if tag_at(s, pos, "bind"@) {
        Some((pos + "bind"@.len(), DrawMethod::Bind))
    } else if tag_at(s, pos, "add"@) {
        Some((pos + "add"@.len(), DrawMethod::Add))
    } else if tag_at(s, pos, "reduce"@) {
        Some((pos + "reduce"@.len(), DrawMethod::Reduce))
    } else {
        None
    }
}

pub fn draw_method(input: &Vec<char>, pos: usize) -> (r: Option<(usize, DrawMethod)>)
    requires
        pos <= input@.len(),
    ensures
        match r {
            Some((p, v)) => spec_draw_method(input@, pos as int) == Some((p as int, v)) && pos
                <= p <= input@.len(),
            None => spec_draw_method(input@, pos as int) is None,
        },
{
    if let Some(p) = tag(input, pos, "base") {
        Some((p, DrawMethod::Base))
    } else if let Some(p) = tag(input, pos, "overlayfast") {
        Some((p, DrawMethod::Overlayfast))
    } else if let Some(p) = tag(input, pos, "overlaymultiply") {
        Some((p, DrawMethod::Overlaymultiply))
    } else if let Some(p) = tag(input, pos, "overlay") {
        Some((p, DrawMethod::Overlay))
    } else if let Some(p) = tag(input, pos, "replace") {
        Some((p, DrawMethod::Replace))
    } else if let Some(p) = tag(input, pos, "interpolate") {
        Some((p, DrawMethod::Interpolate))
    } else if let Some(p) = tag(input, pos, "asis") {
        Some((p, DrawMethod::Asis))
    } else if let Some(p) = tag(input, pos, "move") {
        Some((p, DrawMethod::Move))
    } else if let Some(p) = tag(input, pos, "bind") {
        Some((p, DrawMethod::Bind))
    } else if let Some(p) = tag(input, pos, "add") {
        Some((p, DrawMethod::Add))
    } else if let Some(p) = tag(input, pos, "reduce") {
        Some((p, DrawMethod::Reduce))
    } else {
        None
    }
}

/// Greedy run of `<digit><sep>` pairs; the digits, in order, and the position
/// after the last separator taken.
pub open spec fn spec_id_tail(s: Seq<char>, pos: int, sep: char) -> (int, Seq<u32>)
    decreases s.len() - pos,
{
    match spec_digit_u32(s, pos) {
        Some((p, v)) => if pos < p && p < s.len() && s[p] == sep {
            let rest = spec_id_tail(s, p + 1, sep);
            (rest.0, seq![v] + rest.1)
        } else {
            (pos, Seq::empty())
        },
        None => (pos, Seq::empty()),
    }
}

/// A separated id list with at least two entries: `(digit sep)+ digit`.
pub open spec fn spec_ids_sep(s: Seq<char>, pos: int, sep: char) -> Option<(int, Seq<u32>)> {
    let head = spec_id_tail(s, pos, sep);
    if head.1.len() >= 1 {
        match spec_digit_u32(s, head.0) {
            Some((p, v)) => Some((p, head.1 + seq![v])),
            None => None,
        }
    } else {
        None
    }
}

/// Bare id list: comma-separated, period-separated, or one single id.
pub open spec fn spec_ids_inner(s: Seq<char>, pos: int) -> Option<(int, Seq<u32>)> {
    match spec_ids_sep(s, pos, ',') {
        Some(r) => Some(r),
        None => match spec_ids_sep(s, pos, '.') {
            Some(r) => Some(r),
            None => match spec_digit_u32(s, pos) {
                Some((p, v)) => Some((p, seq![v])),
                None => None,
            },
        },
    }
}

/// A delimited id list: `[..]` or `(..)` around [`spec_ids_inner`].
pub open spec fn spec_ids(s: Seq<char>, pos: int) -> Option<(int, Seq<u32>)> {
    if tag_at(s, pos, "["@) {
        match spec_ids_inner(s, pos + "["@.len()) {
            Some((p, v)) => if tag_at(s, p, "]"@) {
                Some((p + "]"@.len(), v))
            } else {
                None
            },
            None => None,
        }
    } else if tag_at(s, pos, "("@) {
        match spec_ids_inner(s, pos + "("@.len()) {
            Some((p, v)) => if tag_at(s, p, ")"@) {
                Some((p + ")"@.len(), v))
            } else {
                None
            },
            None => None,
        }
    } else {
        None
    }
}

pub fn id_tail(input: &Vec<char>, pos: usize, sep: char) -> (r: (usize, Vec<u32>))
    requires
        pos <= input@.len(),
    ensures
        r.0 as int == spec_id_tail(input@, pos as int, sep).0,
        r.1.deep_view() == spec_id_tail(input@, pos as int, sep).1,
        pos <= r.0 <= input@.len(),
{
    let ghost s = input@;
    let mut cur = pos;
    let mut acc: Vec<u32> = Vec::new();
    proof {
        assert(acc.deep_view() =~= Seq::<u32>::empty());
        assert(spec_id_tail(s, pos as int, sep).1 =~= acc.deep_view() + spec_id_tail(
            s,
            pos as int,
            sep,
        ).1);
    }
    loop
        invariant
            pos <= cur <= input@.len(),
            s == input@,
            spec_id_tail(s, pos as int, sep).0 == spec_id_tail(s, cur as int, sep).0,
            spec_id_tail(s, pos as int, sep).1 == acc.deep_view() + spec_id_tail(
                s,
                cur as int,
                sep,
            ).1,
        decreases input@.len() - cur,
    {
        let ghost acc0 = acc;
        match digit_u32(input, cur) {
            Some((p, v)) => {
                if p < input.len() && input[p] == sep {
                    acc.push(v);
                    proof {
                        assert(acc.deep_view() =~= acc0.deep_view().push(v));
                        assert(acc0.deep_view() + (seq![v] + spec_id_tail(s, p + 1, sep).1)
                            =~= acc.deep_view() + spec_id_tail(s, p + 1, sep).1);
                    }
                    cur = p + 1;
                } else {
                    proof {
                        assert(spec_id_tail(s, cur as int, sep).1 =~= Seq::<u32>::empty());
                        assert(acc.deep_view() + spec_id_tail(s, cur as int, sep).1
                            =~= acc.deep_view());
                    }
                    return (cur, acc);
                }
            },
            None => {
                proof {
                    assert(spec_id_tail(s, cur as int, sep).1 =~= Seq::<u32>::empty());
                    assert(acc.deep_view() + spec_id_tail(s, cur as int, sep).1
                        =~= acc.deep_view());
                }
                return (cur, acc);
            },
        }
    }
}

pub fn ids_sep(input: &Vec<char>, pos: usize, sep: char) -> (r: Option<(usize, Vec<u32>)>)
    requires
        pos <= input@.len(),
    ensures
        match r {
            Some((p, v)) => spec_ids_sep(input@, pos as int, sep) == Some(
                (p as int, v.deep_view()),
            ) && pos <= p <= input@.len(),
            None => spec_ids_sep(input@, pos as int, sep) is None,
        },
{
    let (p, mut head) = id_tail(input, pos, sep);
    let ghost headv = head.deep_view();
    if head.len() >= 1 {
        match digit_u32(input, p) {
            Some((p2, v)) => {
                head.push(v);
                proof {
                    assert(head.deep_view() =~= headv + seq![v]);
                }
                Some((p2, head))
            },
            None => None,
        }
    } else {
        proof {
            assert(head@.len() == 0);
            assert(spec_id_tail(input@, pos as int, sep).1.len() == 0);
        }
        None
    }
}

pub fn ids_inner(input: &Vec<char>, pos: usize) -> (r: Option<(usize, Vec<u32>)>)
    requires
        pos <= input@.len(),
    ensures
        match r {
            Some((p, v)) => spec_ids_inner(input@, pos as int) == Some((p as int, v.deep_view()))
                && pos <= p <= input@.len(),
            None => spec_ids_inner(input@, pos as int) is None,
        },
{
    if let Some(r) = ids_sep(input, pos, ',') {
        return Some(r);
    }
    if let Some(r) = ids_sep(input, pos, '.') {
        return Some(r);
    }
    match digit_u32(input, pos) {
        Some((p, v)) => {
            let mut one: Vec<u32> = Vec::new();
            one.push(v);
            proof {
                assert(one.deep_view() =~= seq![v]);
            }
            Some((p, one))
        },
        None => None,
    }
}

pub fn ids(input: &Vec<char>, pos: usize) -> (r: Option<(usize, Vec<u32>)>)
    requires
        pos <= input@.len(),
    ensures
        match r {
            Some((p, v)) => spec_ids(input@, pos as int) == Some((p as int, v.deep_view())) && pos
                <= p <= input@.len(),
            None => spec_ids(input@, pos as int) is None,
        },
{
    if let Some(p) = tag(input, pos, "[") {
        match ids_inner(input, p) {
            Some((p2, v)) => match tag(input, p2, "]") {
                Some(p3) => Some((p3, v)),
                None => None,
            },
            None => None,
        }
    } else if let Some(p) = tag(input, pos, "(") {
        match ids_inner(input, p) {
            Some((p2, v)) => match tag(input, p2, ")") {
                Some(p3) => Some((p3, v)),
                None => None,
            },
            None => None,
        }
    } else {
        None
    }
}

/// One animation-control method: `insert`/`start`/`stop` with one id, or the
/// four list-valued forms.
pub open spec fn spec_draw_method_on_animation(s: Seq<char>, pos: int) -> Option<
    (int, SpecDrawMethodOnAnimation),
> {
    if tag_at(s, pos, "insert,"@) {
        match spec_digit_u32(s, pos + "insert,"@.len()) {
            Some((p, v)) => Some((p, SpecDrawMethodOnAnimation::Insert(v))),
            None => None,
        }
    } else if tag_at(s, pos, "start,"@) {
        match spec_digit_u32(s, pos + "start,"@.len()) {
            Some((p, v)) => Some((p, SpecDrawMethodOnAnimation::Start(v))),
            None => None,
        }
    } else if tag_at(s, pos, "stop,"@) {
        match spec_digit_u32(s, pos + "stop,"@.len()) {
            Some((p, v)) => Some((p, SpecDrawMethodOnAnimation::Stop(v))),
            None => None,
        }
    } else if tag_at(s, pos, "alternativestart,"@) {
        match spec_ids(s, pos + "alternativestart,"@.len()) {
            Some((p, v)) => Some((p, SpecDrawMethodOnAnimation::Alternativestart(v))),
            None => None,
        }
    } else if tag_at(s, pos, "alternativestop,"@) {
        match spec_ids(s, pos + "alternativestop,"@.len()) {
            Some((p, v)) => Some((p, SpecDrawMethodOnAnimation::Alternativestop(v))),
            None => None,
        }
    } else if tag_at(s, pos, "parallelstart,"@) {
        match spec_ids(s, pos + "parallelstart,"@.len()) {
            Some((p, v)) => Some((p, SpecDrawMethodOnAnimation::Parallelstart(v))),
            None => None,
        }
    } else if tag_at(s, pos, "parallelstop,"@) {
        match spec_ids(s, pos + "parallelstop,"@.len()) {
            Some((p, v)) => Some((p, SpecDrawMethodOnAnimation::Parallelstop(v))),
            None => None,
        }
    } else {
        None
    }
}

pub fn draw_method_on_animation(input: &Vec<char>, pos: usize) -> (r: Option<
    (usize, DrawMethodOnAnimation),
>)
    requires
        pos <= input@.len(),
    ensures
        match r {
            Some((p, v)) => spec_draw_method_on_animation(input@, pos as int) == Some(
                (p as int, v.deep_view()),
            ) && pos <= p <= input@.len(),
            None => spec_draw_method_on_animation(input@, pos as int) is None,
        },
{
    if let Some(p) = tag(input, pos, "insert,") {
        match digit_u32(input, p) {
            Some((p2, v)) => Some((p2, DrawMethodOnAnimation::Insert(v))),
            None => None,
        }
    } else if let Some(p) = tag(input, pos, "start,") {
        match digit_u32(input, p) {
            Some((p2, v)) => Some((p2, DrawMethodOnAnimation::Start(v))),
            None => None,
        }
    } else if let Some(p) = tag(input, pos, "stop,") {
        match digit_u32(input, p) {
            Some((p2, v)) => Some((p2, DrawMethodOnAnimation::Stop(v))),
            None => None,
        }
    } else if let Some(p) = tag(input, pos, "alternativestart,") {
        match ids(input, p) {
            Some((p2, v)) => Some((p2, DrawMethodOnAnimation::Alternativestart(v))),
            None => None,
        }
    } else if let Some(p) = tag(input, pos, "alternativestop,") {
        match ids(input, p) {
            Some((p2, v)) => Some((p2, DrawMethodOnAnimation::Alternativestop(v))),
            None => None,
        }
    } else if let Some(p) = tag(input, pos, "parallelstart,") {
        match ids(input, p) {
            Some((p2, v)) => Some((p2, DrawMethodOnAnimation::Parallelstart(v))),
            None => None,
        }
    } else if let Some(p) = tag(input, pos, "parallelstop,") {
        match ids(input, p) {
            Some((p2, v)) => Some((p2, DrawMethodOnAnimation::Parallelstop(v))),
            None => None,
        }
    } else {
        None
    }
}

} // verus!
