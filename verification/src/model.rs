//! Specification-level model of the syntax tree.
//!
//! Every executable tree type in [`crate::ast`] has a deep view into one of
//! these types: `String` becomes `Seq<char>`, `Vec` becomes `Seq`, and
//! payload-free leaf types stand for themselves. All parser contracts are
//! stated over this model.

use vstd::prelude::*;

use crate::ast::{
    AnimationInterval, AnimationPatternProperty, Charset, DescriptInner, DrawMethod, GestureKind,
    SurfaceId, SurfaceTargetCharacterId,
};

verus! {

/// One classified line of a block body: either a comment line (kept verbatim,
/// without its newline) or a successfully parsed body line.
#[verifier::ext_equal]
pub enum SpecLine<T> {
    Comment(Seq<char>),
    Body(T),
}

/// Model of a whole document.
#[verifier::ext_equal]
pub struct SpecSeriko {
    pub header_comments: Seq<Seq<char>>,
    pub charset: Charset,
    pub braces: Seq<SpecBraceContainer>,
    pub footer_comments: Seq<Seq<char>>,
}

/// Model of one brace block with the comment lines scanned just before it.
#[verifier::ext_equal]
pub struct SpecBraceContainer {
    pub header_comments: Seq<Seq<char>>,
    pub body: SpecBrace,
}

/// Model of one brace block body.
#[verifier::ext_equal]
pub enum SpecBrace {
    Descript(SpecDescript),
    Surface(SpecSurface),
    SurfaceAppend(SpecSurfaceAppend),
    SurfaceAlias(SpecSurfaceAlias),
    Cursor(SpecSerikoCursor),
    Tooltip(SpecTooltip),
}

#[verifier::ext_equal]
pub struct SpecDescript {
    pub lines: Seq<SpecLine<DescriptInner>>,
}

#[verifier::ext_equal]
pub struct SpecSurface {
    pub ids: Seq<SurfaceId>,
    pub lines: Seq<SpecLine<SpecSurfaceInner>>,
}

#[verifier::ext_equal]
pub struct SpecSurfaceAppend {
    pub ids: Seq<SurfaceId>,
    pub lines: Seq<SpecLine<SpecSurfaceInner>>,
}

#[verifier::ext_equal]
pub enum SpecSurfaceInner {
    Element(SpecSurfaceElement),
    AnimationInterval(SpecSurfaceAnimationInterval),
    AnimationPattern(SpecSurfaceAnimationPattern),
    AnimationOption(SpecSurfaceAnimationOption),
    AnimationCollision(SpecSurfaceAnimationCollision),
    AnimationCollisionEx(SpecSurfaceAnimationCollisionEx),
    Collision(SpecSurfaceCollision),
    CollisionEx(SpecSurfaceCollisionEx),
    SakuraBalloonOffsetX(i64),
    SakuraBalloonOffsetY(i64),
    KeroBalloonOffsetX(i64),
    KeroBalloonOffsetY(i64),
    BalloonOffsetX(i64),
    BalloonOffsetY(i64),
    PointCenterX(i64),
    PointCenterY(i64),
    PointKinokoCenterX(i64),
    PointKinokoCenterY(i64),
    PointBaseposX(i64),
    PointBaseposY(i64),
}

#[verifier::ext_equal]
pub struct SpecSurfaceElement {
    pub id: u32,
    pub method: DrawMethod,
    pub filename: Seq<char>,
    pub x: i64,
    pub y: i64,
}

#[verifier::ext_equal]
pub enum SpecDrawMethodOnAnimation {
    Insert(u32),
    Start(u32),
    Stop(u32),
    Alternativestart(Seq<u32>),
    Alternativestop(Seq<u32>),
    Parallelstart(Seq<u32>),
    Parallelstop(Seq<u32>),
}

#[verifier::ext_equal]
pub struct SpecSurfaceAnimationInterval {
    pub id: u32,
    pub intervals: Seq<AnimationInterval>,
}

#[verifier::ext_equal]
pub struct SpecSurfaceAnimationPattern {
    pub id: u32,
    pub pattern_id: u32,
    pub method: SpecAnimationPatternDrawMethod,
}

#[verifier::ext_equal]
pub enum SpecAnimationPatternDrawMethod {
    Normal(DrawMethod, AnimationPatternProperty),
    Animation(SpecDrawMethodOnAnimation),
}

#[verifier::ext_equal]
pub struct SpecSurfaceAnimationOption {
    pub id: u32,
    pub options: Seq<SpecAnimationOptionKind>,
}

#[verifier::ext_equal]
pub enum SpecAnimationOptionKind {
    Exclusive(Option<Seq<u32>>),
    Background,
    SharedIndex,
}

#[verifier::ext_equal]
pub struct SpecSurfaceAnimationCollision {
    pub id: u32,
    pub collision: SpecSurfaceCollision,
}

#[verifier::ext_equal]
pub struct SpecSurfaceAnimationCollisionEx {
    pub id: u32,
    pub collision: SpecSurfaceCollisionEx,
}

#[verifier::ext_equal]
pub struct SpecSurfaceCollision {
    pub id: u32,
    pub start_x: i64,
    pub start_y: i64,
    pub end_x: i64,
    pub end_y: i64,
    pub target_id: Seq<char>,
}

#[verifier::ext_equal]
pub struct SpecSurfaceCollisionEx {
    pub id: u32,
    pub target_id: Seq<char>,
    pub kind: SpecCollisionExKind,
}

#[verifier::ext_equal]
pub enum SpecCollisionExKind {
    Rect(i64, i64, i64, i64),
    Ellipse(i64, i64, i64, i64),
    Circle(i64, i64, i64),
    Polygon(Seq<i64>),
    Region(Seq<char>, u8, u8, u8, Option<bool>),
}

#[verifier::ext_equal]
pub struct SpecSurfaceAlias {
    pub id: SurfaceTargetCharacterId,
    pub lines: Seq<SpecLine<SpecSurfaceAliasInner>>,
}

#[verifier::ext_equal]
pub struct SpecSurfaceAliasInner {
    pub target: Seq<char>,
    pub surfaces: Seq<u32>,
}

#[verifier::ext_equal]
pub struct SpecSerikoCursor {
    pub id: SurfaceTargetCharacterId,
    pub lines: Seq<SpecLine<SpecSerikoCursorGesture>>,
}

#[verifier::ext_equal]
pub struct SpecSerikoCursorGesture {
    pub kind: GestureKind,
    pub id: u32,
    pub target_collistion: Seq<char>,
    pub filename: Seq<char>,
}

#[verifier::ext_equal]
pub struct SpecTooltip {
    pub id: SurfaceTargetCharacterId,
    pub lines: Seq<SpecLine<SpecTooltipInner>>,
}

#[verifier::ext_equal]
pub struct SpecTooltipInner {
    pub collision: Seq<char>,
    pub description: Seq<char>,
}

} // verus!
