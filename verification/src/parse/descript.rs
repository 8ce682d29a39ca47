//! The `descript` block: global settings lines.

use vstd::prelude::*;

use crate::ast::{Brace, Descript, DescriptInner, LineContainer, SortOrder};
use crate::model::{SpecBrace, SpecDescript, SpecLine};
use crate::parse::blocks::BlockGrammar;
use crate::parse::parts::{
    digit_u16, digit_u32, line_tail, space0, spec_digit_u16, spec_digit_u32, spec_line_tail,
    spec_space0, tag, tag_at,
};

verus! {

/// `ascend` or `descend`.
pub open spec fn spec_sort_order(s: Seq<char>, pos: int) -> Option<(int, SortOrder)> {
    if tag_at(s, pos, "ascend"@) {
        Some((pos + "ascend"@.len(), SortOrder::Ascend))
    } else if tag_at(s, pos, "descend"@) {
        Some((pos + "descend"@.len(), SortOrder::Descend))
    } else {
        None
    }
}

pub fn sort_order(input: &Vec<char>, pos: usize) -> (r: Option<(usize, SortOrder)>)
    requires
        pos <= input@.len(),
    ensures
        match r {
            Some((p, v)) => spec_sort_order(input@, pos as int) == Some((p as int, v)) && pos <= p
                <= input@.len(),
            None => spec_sort_order(input@, pos as int) is None,
        },
{
    if let Some(p) = tag(input, pos, "ascend") {
        Some((p, SortOrder::Ascend))
    } else if let Some(p) = tag(input, pos, "descend") {
        Some((p, SortOrder::Descend))
    } else {
        None
    }
}

/// One `descript` body line: `version,<u16>`, `maxwidth,<u32>`,
/// `collision-sort,<order>`, or `animation-sort,<order>`.
pub open spec fn spec_descript_inner(s: Seq<char>, pos: int) -> Option<(int, DescriptInner)> {
    if tag_at(s, pos, "version,"@) {
        match spec_digit_u16(s, pos + "version,"@.len()) {
            Some((p, v)) => Some((p, DescriptInner::Version(v))),
            None => None,
        }
    } else if tag_at(s, pos, "maxwidth,"@) {
        match spec_digit_u32(s, pos + "maxwidth,"@.len()) {
            Some((p, v)) => Some((p, DescriptInner::MaxWidth(v))),
            None => None,
        }
    } else if tag_at(s, pos, "collision-sort,"@) {
        match spec_sort_order(s, pos + "collision-sort,"@.len()) {
            Some((p, v)) => Some((p, DescriptInner::CollistionSort(v))),
            None => None,
        }
    } else if tag_at(s, pos, "animation-sort,"@) {
        match spec_sort_order(s, pos + "animation-sort,"@.len()) {
            Some((p, v)) => Some((p, DescriptInner::AnimationSort(v))),
            None => None,
        }
    } else {
        None
    }
}

pub fn descript_inner(input: &Vec<char>, pos: usize) -> (r: Option<(usize, DescriptInner)>)
    requires
        pos <= input@.len(),
    ensures
        match r {
            Some((p, v)) => spec_descript_inner(input@, pos as int) == Some((p as int, v)) && pos
                <= p <= input@.len(),
            None => spec_descript_inner(input@, pos as int) is None,
        },
{
    if let Some(p) = tag(input, pos, "version,") {
        match digit_u16(input, p) {
            Some((p2, v)) => Some((p2, DescriptInner::Version(v))),
            None => None,
        }
    } else if let Some(p) = tag(input, pos, "maxwidth,") {
        match digit_u32(input, p) {
            Some((p2, v)) => Some((p2, DescriptInner::MaxWidth(v))),
            None => None,
        }
    } else if let Some(p) = tag(input, pos, "collision-sort,") {
        match sort_order(input, p) {
            Some((p2, v)) => Some((p2, DescriptInner::CollistionSort(v))),
            None => None,
        }
    } else if let Some(p) = tag(input, pos, "animation-sort,") {
        match sort_order(input, p) {
            Some((p2, v)) => Some((p2, DescriptInner::AnimationSort(v))),
            None => None,
        }
    } else {
        None
    }
}

/// The `descript` name line.
pub open spec fn spec_descript_name(s: Seq<char>, pos: int) -> Option<(int, ())> {
    let sp = spec_space0(s, pos);
    if tag_at(s, sp, "descript"@) {
        match spec_line_tail(s, sp + "descript"@.len()) {
            Some(p) => Some((p, ())),
            None => None,
        }
    } else {
        None
    }
}

pub fn descript_name(input: &Vec<char>, pos: usize) -> (r: Option<usize>)
    requires
        pos <= input@.len(),
    ensures
        match r {
            Some(p) => spec_descript_name(input@, pos as int) == Some((p as int, ())) && pos < p
                <= input@.len(),
            None => spec_descript_name(input@, pos as int) is None,
        },
{
    let sp = space0(input, pos);
    if let Some(p) = tag(input, sp, "descript") {
        line_tail(input, p)
    } else {
        None
    }
}

impl BlockGrammar for Descript {
    type Name = ();

    type Inner = DescriptInner;

    open spec fn spec_name(s: Seq<char>, pos: int) -> Option<(int, ())> {
        spec_descript_name(s, pos)
    }

    open spec fn spec_inner(s: Seq<char>, pos: int) -> Option<(int, DescriptInner)> {
        spec_descript_inner(s, pos)
    }

    open spec fn make(name: (), lines: Seq<SpecLine<DescriptInner>>) -> SpecDescript {
        SpecDescript { lines }
    }

    open spec fn wrap(v: SpecDescript) -> SpecBrace {
        SpecBrace::Descript(v)
    }

    fn parse_name(input: &Vec<char>, pos: usize) -> (r: Option<(usize, ())>) {
        match descript_name(input, pos) {
            Some(p) => Some((p, ())),
            None => None,
        }
    }

    fn parse_inner(input: &Vec<char>, pos: usize) -> (r: Option<(usize, DescriptInner)>) {
        descript_inner(input, pos)
    }

    fn make_exec(name: (), lines: Vec<LineContainer<DescriptInner>>) -> (r: Descript) {
        Descript { lines }
    }

    fn wrap_exec(self) -> (r: Brace) {
        Brace::Descript(self)
    }
}

} // verus!
