//! The `<character>.cursor` block: gesture-to-cursor mappings.

use vstd::prelude::*;

use crate::ast::{
    Brace, GestureKind, LineContainer, SerikoCursor, SerikoCursorGesture,
    SurfaceTargetCharacterId,
};
use crate::model::{SpecBrace, SpecLine, SpecSerikoCursor, SpecSerikoCursorGesture};
use crate::parse::blocks::BlockGrammar;
use crate::parse::parts::{
    char_range_string, digit_u32, line_tail, not_comma_end, not_nl_end, scan_not_comma,
    scan_not_newline, space0, spec_char_id, spec_digit_u32, spec_line_tail, spec_space0,
    surface_target_character_id, tag, tag_at,
};

verus! {

/// One gesture keyword.
pub open spec fn spec_gesture_kind(s: Seq<char>, pos: int) -> Option<(int, GestureKind)> {
    if tag_at(s, pos, "mouseup"@) {
        Some((pos + "mouseup"@.len(), GestureKind::MouseUp))
    } else if tag_at(s, pos, "mousedown"@) {
        Some((pos + "mousedown"@.len(), GestureKind::MouseDown))
    } else if tag_at(s, pos, "mouserightdown"@) {
        Some((pos + "mouserightdown"@.len(), GestureKind::MouseRightDown))
    } else if tag_at(s, pos, "mousewheel"@) {
        Some((pos + "mousewheel"@.len(), GestureKind::MouseWheel))
    } else if tag_at(s, pos, "mousehover"@) {
        Some((pos + "mousehover"@.len(), GestureKind::MouseHover))
    } else {
        None
    }
}

pub fn gesture_kind(input: &Vec<char>, pos: usize) -> (r: Option<(usize, GestureKind)>)
    requires
        pos <= input@.len(),
    ensures
        match r {
            Some((p, v)) => spec_gesture_kind(input@, pos as int) == Some((p as int, v)) && pos
                <= p <= input@.len(),
            None => spec_gesture_kind(input@, pos as int) is None,
        },
{
    if let Some(p) = tag(input, pos, "mouseup") {
        Some((p, GestureKind::MouseUp))
    } else if let Some(p) = tag(input, pos, "mousedown") {
        Some((p, GestureKind::MouseDown))
    } else if let Some(p) = tag(input, pos, "mouserightdown") {
        Some((p, GestureKind::MouseRightDown))
    } else if let Some(p) = tag(input, pos, "mousewheel") {
        Some((p, GestureKind::MouseWheel))
    } else if let Some(p) = tag(input, pos, "mousehover") {
        Some((p, GestureKind::MouseHover))
    } else {
        None
    }
}

/// One cursor line: `<gesture><id>,<collision>,<filename>`. The collision
/// name is everything up to the next comma anywhere ahead (it may be empty);
/// the filename is the rest of the line and must be nonempty.
pub open spec fn spec_cursor_gesture(s: Seq<char>, pos: int) -> Option<
    (int, SpecSerikoCursorGesture),
> {
    match spec_gesture_kind(s, pos) {
        Some((p0, kind)) => match spec_digit_u32(s, p0) {
            Some((p, id)) => if tag_at(s, p, ","@) {
                let q = p + ","@.len();
                let e = not_comma_end(s, q);
                if e < s.len() && tag_at(s, e, ","@) {
                    let q2 = e + ","@.len();
                    let e2 = not_nl_end(s, q2);
                    if e2 > q2 {
                        Some(
                            (
                                e2,
                                SpecSerikoCursorGesture {
                                    kind,
                                    id,
                                    target_collistion: s.subrange(q, e),
                                    filename: s.subrange(q2, e2),
                                },
                            ),
                        )
                    } else {
                        None
                    }
                } else {
                    None
                }
            } else {
                None
            },
            None => None,
        },
        None => None,
    }
}

pub fn cursor_gesture(input: &Vec<char>, pos: usize) -> (r: Option<(usize, SerikoCursorGesture)>)
    requires
        pos <= input@.len(),
    ensures
        match r {
            Some((p, v)) => spec_cursor_gesture(input@, pos as int) == Some(
                (p as int, v.deep_view()),
            ) && pos <= p <= input@.len(),
            None => spec_cursor_gesture(input@, pos as int) is None,
        },
{
    let (p0, kind) = match gesture_kind(input, pos) {
        Some(r) => r,
        None => {
            return None;
        },
    };
    let (p, id) = match digit_u32(input, p0) {
        Some(r) => r,
        None => {
            return None;
        },
    };
    let q = match tag(input, p, ",") {
        Some(p) => p,
        None => {
            return None;
        },
    };
    let e = scan_not_comma(input, q);
    if !(e < input.len()) {
        return None;
    }
    let q2 = match tag(input, e, ",") {
        Some(p) => p,
        None => {
            return None;
        },
    };
    let e2 = scan_not_newline(input, q2);
    if e2 > q2 {
        let target_collistion = char_range_string(input, q, e);
        let filename = char_range_string(input, q2, e2);
        Some((e2, SerikoCursorGesture { kind, id, target_collistion, filename }))
    } else {
        None
    }
}

/// The `<character>.cursor` name line.
pub open spec fn spec_cursor_name(s: Seq<char>, pos: int) -> Option<
    (int, SurfaceTargetCharacterId),
> {
    let sp = spec_space0(s, pos);
    match spec_char_id(s, sp) {
        Some((p, id)) => if tag_at(s, p, ".cursor"@) {
            match spec_line_tail(s, p + ".cursor"@.len()) {
                Some(p2) => Some((p2, id)),
                None => None,
            }
        } else {
            None
        },
        None => None,
    }
}

pub fn cursor_name(input: &Vec<char>, pos: usize) -> (r: Option<(usize, SurfaceTargetCharacterId)>)
    requires
        pos <= input@.len(),
    ensures
        match r {
            Some((p, v)) => spec_cursor_name(input@, pos as int) == Some((p as int, v)) && pos
                <= p <= input@.len(),
            None => spec_cursor_name(input@, pos as int) is None,
        },
{
    let sp = space0(input, pos);
    match surface_target_character_id(input, sp) {
        Some((p, id)) => match tag(input, p, ".cursor") {
            Some(pa) => match line_tail(input, pa) {
                Some(p2) => Some((p2, id)),
                None => None,
            },
            None => None,
        },
        None => None,
    }
}

impl BlockGrammar for SerikoCursor {
    type Name = SurfaceTargetCharacterId;

    type Inner = SerikoCursorGesture;

    open spec fn spec_name(s: Seq<char>, pos: int) -> Option<(int, SurfaceTargetCharacterId)> {
        spec_cursor_name(s, pos)
    }

    open spec fn spec_inner(s: Seq<char>, pos: int) -> Option<(int, SpecSerikoCursorGesture)> {
        spec_cursor_gesture(s, pos)
    }

    open spec fn make(
        name: SurfaceTargetCharacterId,
        lines: Seq<SpecLine<SpecSerikoCursorGesture>>,
    ) -> SpecSerikoCursor {
        SpecSerikoCursor { id: name, lines }
    }

    open spec fn wrap(v: SpecSerikoCursor) -> SpecBrace {
        SpecBrace::Cursor(v)
    }

    fn parse_name(input: &Vec<char>, pos: usize) -> (r: Option<(usize, SurfaceTargetCharacterId)>) {
        cursor_name(input, pos)
    }

    fn parse_inner(input: &Vec<char>, pos: usize) -> (r: Option<(usize, SerikoCursorGesture)>) {
        cursor_gesture(input, pos)
    }

    fn make_exec(
        name: SurfaceTargetCharacterId,
        lines: Vec<LineContainer<SerikoCursorGesture>>,
    ) -> (r: SerikoCursor) {
        SerikoCursor { id: name, lines }
    }

    fn wrap_exec(self) -> (r: Brace) {
        Brace::Cursor(self)
    }
}

} // verus!
