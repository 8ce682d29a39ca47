//! Animation option lines: `<id>option,<spec>(+<spec>)*[,(<id>,…)]` (legacy)
//! or `animation<id>.option,…` (current).
//!
//! When a trailing parenthesized id list is present, the same list is
//! attached to every `exclusive` token of the line; this mirrors the format's
//! historical behaviour and is deliberate.

use vstd::prelude::*;

use crate::ast::{AnimationOptionKind, SurfaceAnimationOption};
use crate::model::{SpecAnimationOptionKind, SpecSurfaceAnimationOption};
use crate::parse::parts::{digit_list, digit_u32, spec_digit_list, spec_digit_u32, tag, tag_at};

verus! {

/// One bare option keyword, before any id list is attached.
#[derive(Debug, Clone, Copy, PartialEq, Eq, Structural)]
pub enum OptionWord {
    Exclusive,
    Background,
    SharedIndex,
}

impl DeepView for OptionWord {
    type V = OptionWord;

    open spec fn deep_view(&self) -> OptionWord {
        *self
    }
}

pub open spec fn spec_option_word(s: Seq<char>, pos: int) -> Option<(int, OptionWord)> {
    if tag_at(s, pos, "exclusive"@) {
        Some((pos + "exclusive"@.len(), OptionWord::Exclusive))
    } else if tag_at(s, pos, "background"@) {
        Some((pos + "background"@.len(), OptionWord::Background))
    } else if tag_at(s, pos, "shared-index"@) {
        Some((pos + "shared-index"@.len(), OptionWord::SharedIndex))
    } else {
        None
    }
}

pub fn option_word(input: &Vec<char>, pos: usize) -> (r: Option<(usize, OptionWord)>)
    requires
        pos <= input@.len(),
    ensures
        match r {
            Some((p, v)) => spec_option_word(input@, pos as int) == Some((p as int, v)) && pos <= p
                <= input@.len(),
            None => spec_option_word(input@, pos as int) is None,
        },
{
    if let Some(p) = tag(input, pos, "exclusive") {
        Some((p, OptionWord::Exclusive))
    } else if let Some(p) = tag(input, pos, "background") {
        Some((p, OptionWord::Background))
    } else if let Some(p) = tag(input, pos, "shared-index") {
        Some((p, OptionWord::SharedIndex))
    } else {
        None
    }
}

/// Greedy run of `+<word>` continuations.
pub open spec fn spec_option_word_plus_tail(s: Seq<char>, pos: int) -> (int, Seq<OptionWord>)
    decreases s.len() - pos,
{
    if 0 <= pos && pos < s.len() && s[pos] == '+' {
        match spec_option_word(s, pos + 1) {
            Some((p, v)) => if pos < p && p <= s.len() {
                let rest = spec_option_word_plus_tail(s, p);
                (rest.0, seq![v] + rest.1)
            } else {
                (pos, Seq::empty())
            },
            None => (pos, Seq::empty()),
        }
    } else {
        (pos, Seq::empty())
    }
}

/// `<word>(+<word>)*`.
pub open spec fn spec_option_words(s: Seq<char>, pos: int) -> Option<(int, Seq<OptionWord>)> {
    match spec_option_word(s, pos) {
        Some((p, v)) => {
            let rest = spec_option_word_plus_tail(s, p);
            Some((rest.0, seq![v] + rest.1))
        },
        None => None,
    }
}

pub fn option_words(input: &Vec<char>, pos: usize) -> (r: Option<(usize, Vec<OptionWord>)>)
    requires
        pos <= input@.len(),
    ensures
        match r {
            Some((p, v)) => spec_option_words(input@, pos as int) == Some(
                (p as int, v.deep_view()),
            ) && pos <= p <= input@.len(),
            None => spec_option_words(input@, pos as int) is None,
        },
{
    let ghost s = input@;
    let first = match option_word(input, pos) {
        Some(r) => r,
        None => {
            return None;
        },
    };
    let mut acc: Vec<OptionWord> = Vec::new();
    acc.push(first.1);
    let start = first.0;
    let mut cur = start;
    proof {
        assert(acc.deep_view() =~= seq![first.1]);
    }
    loop
        invariant
            pos <= start <= cur <= input@.len(),
            s == input@,
            spec_option_word(s, pos as int) == Some((start as int, first.1)),
            spec_option_word_plus_tail(s, start as int).0 == spec_option_word_plus_tail(
                s,
                cur as int,
            ).0,
            seq![first.1] + spec_option_word_plus_tail(s, start as int).1 == acc.deep_view()
                + spec_option_word_plus_tail(s, cur as int).1,
        decreases input@.len() - cur,
    {
        let ghost acc0 = acc;
        if cur < input.len() && input[cur] == '+' {
            match option_word(input, cur + 1) {
                Some((p, v)) => {
                    acc.push(v);
                    proof {
                        assert(acc.deep_view() =~= acc0.deep_view().push(v));
                        assert(acc0.deep_view() + (seq![v] + spec_option_word_plus_tail(
                            s,
                            p as int,
                        ).1) =~= acc.deep_view() + spec_option_word_plus_tail(s, p as int).1);
                    }
                    cur = p;
                },
                None => {
                    proof {
                        assert(spec_option_word_plus_tail(s, cur as int).1 =~= Seq::<
                            OptionWord,
                        >::empty());
                        assert(acc.deep_view() + spec_option_word_plus_tail(s, cur as int).1
                            =~= acc.deep_view());
                    }
                    return Some((cur, acc));
                },
            }
        } else {
            proof {
                assert(spec_option_word_plus_tail(s, cur as int).1 =~= Seq::<OptionWord>::empty());
                assert(acc.deep_view() + spec_option_word_plus_tail(s, cur as int).1
                    =~= acc.deep_view());
            }
            return Some((cur, acc));
        }
    }
}

/// The optional trailing `,(<id>,…)` list; backtracks wholly when any part
/// is missing.
pub open spec fn spec_option_trailing_ids(s: Seq<char>, pos: int) -> Option<(int, Seq<u32>)> {
    if tag_at(s, pos, ","@) && tag_at(s, pos + 1, "("@) {
        match spec_digit_list(s, pos + 2) {
            Some((p, v)) => if tag_at(s, p, ")"@) {
                Some((p + ")"@.len(), v))
            } else {
                None
            },
            None => None,
        }
    } else {
        None
    }
}

pub fn option_trailing_ids(input: &Vec<char>, pos: usize) -> (r: Option<(usize, Vec<u32>)>)
    requires
        pos <= input@.len(),
    ensures
        match r {
            Some((p, v)) => spec_option_trailing_ids(input@, pos as int) == Some(
                (p as int, v.deep_view()),
            ) && pos <= p <= input@.len(),
            None => spec_option_trailing_ids(input@, pos as int) is None,
        },
{
    proof {
        reveal_strlit(",");
        reveal_strlit("(");
    }
    let p0 = match tag(input, pos, ",") {
        Some(p) => p,
        None => {
            return None;
        },
    };
    let p1 = match tag(input, p0, "(") {
        Some(p) => p,
        None => {
            return None;
        },
    };
    match digit_list(input, p1) {
        Some((p, v)) => match tag(input, p, ")") {
            Some(p2) => Some((p2, v)),
            None => None,
        },
        None => None,
    }
}

/// Attach the shared id list to one word.
pub open spec fn spec_apply_ids(w: OptionWord, ids: Option<Seq<u32>>) -> SpecAnimationOptionKind {
    match w {
        OptionWord::Exclusive => SpecAnimationOptionKind::Exclusive(ids),
        OptionWord::Background => SpecAnimationOptionKind::Background,
        OptionWord::SharedIndex => SpecAnimationOptionKind::SharedIndex,
    }
}

/// The option list of one line: the words, with the trailing id list (when
/// present) attached to every `exclusive` word.
pub open spec fn spec_option_kinds(s: Seq<char>, pos: int) -> Option<
    (int, Seq<SpecAnimationOptionKind>),
> {
    match spec_option_words(s, pos) {
        Some((p, words)) => {
            let trail = spec_option_trailing_ids(s, p);
            let endp = match trail {
                Some((q, _)) => q,
                None => p,
            };
            let ids = match trail {
                Some((_, l)) => Some(l),
                None => None,
            };
            Some((endp, words.map_values(|w: OptionWord| spec_apply_ids(w, ids))))
        },
        None => None,
    }
}

fn copy_ids(v: &Vec<u32>) -> (r: Vec<u32>)
    ensures
        r@ == v@,
{
    let mut out: Vec<u32> = Vec::new();
    let mut i: usize = 0;
    while i < v.len()
        invariant
            0 <= i <= v@.len(),
            out@ == v@.subrange(0, i as int),
        decreases v@.len() - i,
    {
        out.push(v[i]);
        proof {
            assert(out@ =~= v@.subrange(0, (i + 1) as int));
        }
        i += 1;
    }
    proof {
        assert(out@ =~= v@);
    }
    out
}

pub fn animation_option_kinds(input: &Vec<char>, pos: usize) -> (r: Option<
    (usize, Vec<AnimationOptionKind>),
>)
    requires
        pos <= input@.len(),
    ensures
        match r {
            Some((p, v)) => spec_option_kinds(input@, pos as int) == Some(
                (p as int, v.deep_view()),
            ) && pos <= p <= input@.len(),
            None => spec_option_kinds(input@, pos as int) is None,
        },
{
    let (p, words) = match option_words(input, pos) {
        Some(r) => r,
        None => {
            return None;
        },
    };
    let (endp, ids): (usize, Option<Vec<u32>>) = match option_trailing_ids(input, p) {
        Some((q, l)) => (q, Some(l)),
        None => (p, None),
    };
    let ghost gids = ids.deep_view();
    let mut out: Vec<AnimationOptionKind> = Vec::new();
    let mut i: usize = 0;
    while i < words.len()
        invariant
            0 <= i <= words@.len(),
            gids == ids.deep_view(),
            out.deep_view() =~= words.deep_view().take(i as int).map_values(
                |w: OptionWord| spec_apply_ids(w, gids),
            ),
        decreases words@.len() - i,
    {
        let ghost out0 = out;
        let k = match words[i] {
            OptionWord::Exclusive => {
                let own: Option<Vec<u32>> = match &ids {
                    Some(l) => Some(copy_ids(l)),
                    None => None,
                };
                AnimationOptionKind::Exclusive(own)
            },
            OptionWord::Background => AnimationOptionKind::Background,
            OptionWord::SharedIndex => AnimationOptionKind::SharedIndex,
        };
        proof {
            assert(k.deep_view() == spec_apply_ids(words.deep_view()[i as int], gids));
        }
        out.push(k);
        proof {
            assert(out.deep_view() =~= out0.deep_view().push(k.deep_view()));
            assert(out.deep_view() =~= words.deep_view().take((i + 1) as int).map_values(
                |w: OptionWord| spec_apply_ids(w, gids),
            ));
        }
        i += 1;
    }
    proof {
        assert(words.deep_view().take(words@.len() as int) =~= words.deep_view());
        assert(out.deep_view() =~= words.deep_view().map_values(
            |w: OptionWord| spec_apply_ids(w, gids),
        ));
    }
    Some((endp, out))
}

/// Legacy form: `<id>option,<kinds>`.
pub open spec fn spec_animation_option_v0(s: Seq<char>, pos: int) -> Option<
    (int, SpecSurfaceAnimationOption),
> {
    match spec_digit_u32(s, pos) {
        Some((p, id)) => if tag_at(s, p, "option,"@) {
            match spec_option_kinds(s, p + "option,"@.len()) {
                Some((p2, v)) => Some((p2, SpecSurfaceAnimationOption { id, options: v })),
                None => None,
            }
        } else {
            None
        },
        None => None,
    }
}

/// Current form: `animation<id>.option,<kinds>`.
pub open spec fn spec_animation_option_v1(s: Seq<char>, pos: int) -> Option<
    (int, SpecSurfaceAnimationOption),
> {
    if tag_at(s, pos, "animation"@) {
        match spec_digit_u32(s, pos + "animation"@.len()) {
            Some((p, id)) => if tag_at(s, p, ".option,"@) {
                match spec_option_kinds(s, p + ".option,"@.len()) {
                    Some((p2, v)) => Some((p2, SpecSurfaceAnimationOption { id, options: v })),
                    None => None,
                }
            } else {
                None
            },
            None => None,
        }
    } else {
        None
    }
}

/// Either dialect, legacy first.
pub open spec fn spec_animation_option(s: Seq<char>, pos: int) -> Option<
    (int, SpecSurfaceAnimationOption),
> {
    match spec_animation_option_v0(s, pos) {
        Some(r) => Some(r),
        None => spec_animation_option_v1(s, pos),
    }
}

pub fn animation_option_v0(input: &Vec<char>, pos: usize) -> (r: Option<
    (usize, SurfaceAnimationOption),
>)
    requires
        pos <= input@.len(),
    ensures
        match r {
            Some((p, v)) => spec_animation_option_v0(input@, pos as int) == Some(
                (p as int, v.deep_view()),
            ) && pos <= p <= input@.len(),
            None => spec_animation_option_v0(input@, pos as int) is None,
        },
{
    match digit_u32(input, pos) {
        Some((p, id)) => match tag(input, p, "option,") {
            Some(p2) => match animation_option_kinds(input, p2) {
                Some((p3, v)) => Some((p3, SurfaceAnimationOption { id, options: v })),
                None => None,
            },
            None => None,
        },
        None => None,
    }
}

pub fn animation_option_v1(input: &Vec<char>, pos: usize) -> (r: Option<
    (usize, SurfaceAnimationOption),
>)
    requires
        pos <= input@.len(),
    ensures
        match r {
            Some((p, v)) => spec_animation_option_v1(input@, pos as int) == Some(
                (p as int, v.deep_view()),
            ) && pos <= p <= input@.len(),
            None => spec_animation_option_v1(input@, pos as int) is None,
        },
{
    match tag(input, pos, "animation") {
        Some(p0) => match digit_u32(input, p0) {
            Some((p, id)) => match tag(input, p, ".option,") {
                Some(p2) => match animation_option_kinds(input, p2) {
                    Some((p3, v)) => Some((p3, SurfaceAnimationOption { id, options: v })),
                    None => None,
                },
                None => None,
            },
            None => None,
        },
        None => None,
    }
}

pub fn animation_option(input: &Vec<char>, pos: usize) -> (r: Option<
    (usize, SurfaceAnimationOption),
>)
    requires
        pos <= input@.len(),
    ensures
        match r {
            Some((p, v)) => spec_animation_option(input@, pos as int) == Some(
                (p as int, v.deep_view()),
            ) && pos <= p <= input@.len(),
            None => spec_animation_option(input@, pos as int) is None,
        },
{
    if let Some(r) = animation_option_v0(input, pos) {
        Some(r)
    } else {
        animation_option_v1(input, pos)
    }
}

} // verus!
