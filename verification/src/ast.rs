//! Syntax tree for SERIKO `surfaces.txt` documents.
//!
//! Every node is a plain immutable value built once at parse time. Each type
//! that owns heap data has a deep view into the matching type of
//! [`crate::model`]; payload-free leaf types are their own view.

use vstd::prelude::*;

use crate::model::{
    SpecAnimationOptionKind, SpecAnimationPatternDrawMethod, SpecBrace, SpecBraceContainer,
    SpecCollisionExKind, SpecDescript, SpecDrawMethodOnAnimation, SpecLine, SpecSeriko,
    SpecSerikoCursor, SpecSerikoCursorGesture, SpecSurface, SpecSurfaceAlias,
    SpecSurfaceAliasInner, SpecSurfaceAnimationCollision, SpecSurfaceAnimationCollisionEx,
    SpecSurfaceAnimationInterval, SpecSurfaceAnimationOption, SpecSurfaceAnimationPattern,
    SpecSurfaceAppend, SpecSurfaceCollision, SpecSurfaceCollisionEx, SpecSurfaceElement,
    SpecSurfaceInner, SpecTooltip, SpecTooltipInner,
};

verus! {

pub type SurfaceSizeType = u32;

pub type CoordinateType = i64;

pub type SurfaceIdType = u32;

pub type SurfaceIdPointerType = i64;

pub type AnimationIdType = u32;

pub type ElementIdType = AnimationIdType;

pub type CollisionIdType = AnimationIdType;

pub type AnimationPatternIdType = AnimationIdType;

pub type CursorMouseIdType = AnimationIdType;

/// Text encoding declared by the document's `charset,<name>` line.
#[derive(Debug, Clone, Copy, PartialEq, Eq, Structural)]
pub enum Charset {
    ASCII,
    ShiftJIS,
    UTF8,
    Default,
}

impl DeepView for Charset {
    type V = Charset;

    open spec fn deep_view(&self) -> Charset {
        *self
    }
}

/// Root of a parsed document.
#[derive(Debug, Clone, PartialEq)]
pub struct Seriko {
    pub header_comments: Vec<CommentLine>,
    pub charset: Charset,
    pub braces: Vec<BraceContainer>,
    pub footer_comments: Vec<CommentLine>,
}

/// One comment line, kept verbatim without its newline.
#[derive(Debug, Clone, PartialEq)]
pub struct CommentLine {
    pub body: String,
}

/// A block body line: either a comment kept verbatim or a parsed value.
#[derive(Debug, Clone, PartialEq)]
pub enum LineContainer<T> {
    Comment(CommentLine),
    Body(T),
}

/// One brace block together with the comment lines scanned just before it.
#[derive(Debug, Clone, PartialEq)]
pub struct BraceContainer {
    pub header_comments: Vec<CommentLine>,
    pub body: Brace,
}

/// The six brace block kinds.
#[derive(Debug, Clone, PartialEq)]
pub enum Brace {
    Descript(Descript),
    Surface(Surface),
    SurfaceAppend(SurfaceAppend),
    SurfaceAlias(SurfaceAlias),
    Cursor(SerikoCursor),
    Tooltip(Tooltip),
}

#[derive(Debug, Clone, PartialEq)]
pub struct Descript {
    pub lines: Vec<LineContainer<DescriptInner>>,
}

#[derive(Debug, Clone, Copy, PartialEq, Eq, Structural)]
pub enum DescriptInner {
    Version(u16),
    MaxWidth(SurfaceSizeType),
    CollistionSort(SortOrder),
    AnimationSort(SortOrder),
}

#[derive(Debug, Clone, Copy, PartialEq, Eq, Structural)]
pub enum SortOrder {
    Ascend,
    Descend,
}

#[derive(Debug, Clone, PartialEq)]
pub struct Surface {
    pub ids: Vec<SurfaceId>,
    pub lines: Vec<LineContainer<SurfaceInner>>,
}

#[derive(Debug, Clone, PartialEq)]
pub struct SurfaceAppend {
    pub ids: Vec<SurfaceId>,
    pub lines: Vec<LineContainer<SurfaceInner>>,
}

/// One surface-id selector: a single id, an inclusive range, or the negation
/// of one of those (the grammar never nests `Not` inside `Not`).
#[derive(Debug, PartialEq, Eq)]
pub enum SurfaceId {
    Unit(SurfaceIdType),
    Range(SurfaceIdType, SurfaceIdType),
    Not(Box<SurfaceId>),
}

impl Clone for SurfaceId {
    fn clone(&self) -> (r: Self)
        ensures
            r == *self,
        decreases self,
    {
        match self {
            SurfaceId::Unit(v) => SurfaceId::Unit(*v),
            SurfaceId::Range(a, b) => SurfaceId::Range(*a, *b),
            SurfaceId::Not(inner) => SurfaceId::Not(Box::new((**inner).clone())),
        }
    }
}

#[derive(Debug, Clone, PartialEq)]
pub enum SurfaceInner {
    Element(SurfaceElement),
    AnimationInterval(SurfaceAnimationInterval),
    AnimationPattern(SurfaceAnimationPattern),
    AnimationOption(SurfaceAnimationOption),
    AnimationCollision(SurfaceAnimationCollision),
    AnimationCollisionEx(SurfaceAnimationCollisionEx),
    Collision(SurfaceCollision),
    CollisionEx(SurfaceCollisionEx),
    SakuraBalloonOffsetX(CoordinateType),
    SakuraBalloonOffsetY(CoordinateType),
    KeroBalloonOffsetX(CoordinateType),
    KeroBalloonOffsetY(CoordinateType),
    BalloonOffsetX(CoordinateType),
    BalloonOffsetY(CoordinateType),
    PointCenterX(CoordinateType),
    PointCenterY(CoordinateType),
    PointKinokoCenterX(CoordinateType),
    PointKinokoCenterY(CoordinateType),
    PointBaseposX(CoordinateType),
    PointBaseposY(CoordinateType),
}

#[derive(Debug, Clone, PartialEq)]
pub struct SurfaceElement {
    pub id: ElementIdType,
    pub method: DrawMethod,
    pub filename: String,
    pub x: CoordinateType,
    pub y: CoordinateType,
}

/// Compositing method of an element or animation pattern. The parser must try
/// `overlayfast` and `overlaymultiply` before their prefix `overlay`.
#[derive(Debug, Clone, Copy, PartialEq, Eq, Structural)]
pub enum DrawMethod {
    Base,
    Overlay,
    Overlayfast,
    Overlaymultiply,
    Replace,
    Interpolate,
    Asis,
    Move,
    Bind,
    Add,
    Reduce,
}

#[derive(Debug, Clone, PartialEq)]
pub enum DrawMethodOnAnimation {
    Insert(AnimationIdType),
    Start(AnimationIdType),
    Stop(AnimationIdType),
    Alternativestart(Vec<AnimationIdType>),
    Alternativestop(Vec<AnimationIdType>),
    Parallelstart(Vec<AnimationIdType>),
    Parallelstop(Vec<AnimationIdType>),
}

#[derive(Debug, Clone, PartialEq)]
pub struct SurfaceAnimationInterval {
    pub id: AnimationIdType,
    pub intervals: Vec<AnimationInterval>,
}

#[derive(Debug, Clone, Copy, PartialEq, Eq, Structural)]
pub enum AnimationInterval {
    Sometimes,
    Rarely,
    Random(u32),
    Periodic(u32),
    Always,
    Runonce,
    Never,
    YenE,
    Talk(u32),
    Bind,
}

#[derive(Debug, Clone, PartialEq)]
pub struct SurfaceAnimationPattern {
    pub id: AnimationIdType,
    pub pattern_id: AnimationPatternIdType,
    pub method: AnimationPatternDrawMethod,
}

#[derive(Debug, Clone, PartialEq)]
pub enum AnimationPatternDrawMethod {
    Normal(DrawMethod, AnimationPatternProperty),
    Animation(DrawMethodOnAnimation),
}

/// Placement of one animation pattern frame. `weight` is always stored in the
/// current unit: legacy-dialect lines carry tenths and are multiplied by ten
/// at parse time.
#[derive(Debug, Clone, Copy, PartialEq, Eq, Structural)]
pub struct AnimationPatternProperty {
    pub surface_id: SurfaceIdPointerType,
    pub weight: u32,
    pub x: CoordinateType,
    pub y: CoordinateType,
}

#[derive(Debug, Clone, PartialEq)]
pub struct SurfaceAnimationOption {
    pub id: AnimationIdType,
    pub options: Vec<AnimationOptionKind>,
}

#[derive(Debug, Clone, PartialEq)]
pub enum AnimationOptionKind {
    Exclusive(Option<Vec<AnimationIdType>>),
    Background,
    SharedIndex,
}

#[derive(Debug, Clone, PartialEq)]
pub struct SurfaceAnimationCollision {
    pub id: AnimationIdType,
    pub collision: SurfaceCollision,
}

#[derive(Debug, Clone, PartialEq)]
pub struct SurfaceAnimationCollisionEx {
    pub id: AnimationIdType,
    pub collision: SurfaceCollisionEx,
}

#[derive(Debug, Clone, PartialEq)]
pub struct SurfaceCollision {
    pub id: CollisionIdType,
    pub start_x: CoordinateType,
    pub start_y: CoordinateType,
    pub end_x: CoordinateType,
    pub end_y: CoordinateType,
    pub target_id: String,
}

#[derive(Debug, Clone, PartialEq)]
pub struct SurfaceCollisionEx {
    pub id: CollisionIdType,
    pub target_id: String,
    pub kind: CollisionExKind,
}

#[derive(Debug, Clone, PartialEq)]
pub enum CollisionExKind {
    Rect(
        CoordinateType,
        CoordinateType,
        CoordinateType,
        CoordinateType,
    ),
    Ellipse(
        CoordinateType,
        CoordinateType,
        CoordinateType,
        CoordinateType,
    ),
    Circle(CoordinateType, CoordinateType, CoordinateType),
    Polygon(Vec<CoordinateType>),
    Region(String, u8, u8, u8, Option<bool>),
}

#[derive(Debug, Clone, PartialEq)]
pub struct SurfaceAlias {
    pub id: SurfaceTargetCharacterId,
    pub lines: Vec<LineContainer<SurfaceAliasInner>>,
}

#[derive(Debug, Clone, Copy, PartialEq, Eq, Structural)]
pub enum SurfaceTargetCharacterId {
    Sakura,
    Kero,
    Char(u32),
}

#[derive(Debug, Clone, PartialEq)]
pub struct SurfaceAliasInner {
    pub target: String,
    pub surfaces: Vec<SurfaceIdType>,
}

#[derive(Debug, Clone, PartialEq)]
pub struct SerikoCursor {
    pub id: SurfaceTargetCharacterId,
    pub lines: Vec<LineContainer<SerikoCursorGesture>>,
}

#[derive(Debug, Clone, PartialEq)]
pub struct SerikoCursorGesture {
    pub kind: GestureKind,
    pub id: CursorMouseIdType,
    pub target_collistion: String,
    pub filename: String,
}

#[derive(Debug, Clone, Copy, PartialEq, Eq, Structural)]
pub enum GestureKind {
    MouseUp,
    MouseDown,
    MouseRightDown,
    MouseWheel,
    MouseHover,
}

#[derive(Debug, Clone, PartialEq)]
pub struct Tooltip {
    pub id: SurfaceTargetCharacterId,
    pub lines: Vec<LineContainer<TooltipInner>>,
}

#[derive(Debug, Clone, PartialEq)]
pub struct TooltipInner {
    pub collision: String,
    pub description: String,
}

impl DeepView for SortOrder {
    type V = SortOrder;

    open spec fn deep_view(&self) -> SortOrder {
        *self
    }
}

impl DeepView for DescriptInner {
    type V = DescriptInner;

    open spec fn deep_view(&self) -> DescriptInner {
        *self
    }
}

impl DeepView for SurfaceId {
    type V = SurfaceId;

    open spec fn deep_view(&self) -> SurfaceId {
        *self
    }
}

impl DeepView for DrawMethod {
    type V = DrawMethod;

    open spec fn deep_view(&self) -> DrawMethod {
        *self
    }
}

impl DeepView for AnimationInterval {
    type V = AnimationInterval;

    open spec fn deep_view(&self) -> AnimationInterval {
        *self
    }
}

impl DeepView for AnimationPatternProperty {
    type V = AnimationPatternProperty;

    open spec fn deep_view(&self) -> AnimationPatternProperty {
        *self
    }
}

impl DeepView for GestureKind {
    type V = GestureKind;

    open spec fn deep_view(&self) -> GestureKind {
        *self
    }
}

impl DeepView for SurfaceTargetCharacterId {
    type V = SurfaceTargetCharacterId;

    open spec fn deep_view(&self) -> SurfaceTargetCharacterId {
        *self
    }
}

impl DeepView for CommentLine {
    type V = Seq<char>;

    open spec fn deep_view(&self) -> Seq<char> {
        self.body@
    }
}

impl<T: DeepView> DeepView for LineContainer<T> {
    type V = SpecLine<T::V>;

    open spec fn deep_view(&self) -> SpecLine<T::V> {
        match self {
            LineContainer::Comment(c) => SpecLine::Comment(c.deep_view()),
            LineContainer::Body(b) => SpecLine::Body(b.deep_view()),
        }
    }
}

impl DeepView for Seriko {
    type V = SpecSeriko;

    open spec fn deep_view(&self) -> SpecSeriko {
        SpecSeriko {
            header_comments: self.header_comments.deep_view(),
            charset: self.charset,
            braces: self.braces.deep_view(),
            footer_comments: self.footer_comments.deep_view(),
        }
    }
}

impl DeepView for BraceContainer {
    type V = SpecBraceContainer;

    open spec fn deep_view(&self) -> SpecBraceContainer {
        SpecBraceContainer {
            header_comments: self.header_comments.deep_view(),
            body: self.body.deep_view(),
        }
    }
}

impl DeepView for Brace {
    type V = SpecBrace;

    open spec fn deep_view(&self) -> SpecBrace {
        match self {
            Brace::Descript(b) => SpecBrace::Descript(b.deep_view()),
            Brace::Surface(b) => SpecBrace::Surface(b.deep_view()),
            Brace::SurfaceAppend(b) => SpecBrace::SurfaceAppend(b.deep_view()),
            Brace::SurfaceAlias(b) => SpecBrace::SurfaceAlias(b.deep_view()),
            Brace::Cursor(b) => SpecBrace::Cursor(b.deep_view()),
            Brace::Tooltip(b) => SpecBrace::Tooltip(b.deep_view()),
        }
    }
}

impl DeepView for Descript {
    type V = SpecDescript;

    open spec fn deep_view(&self) -> SpecDescript {
        SpecDescript { lines: self.lines.deep_view() }
    }
}

impl DeepView for Surface {
    type V = SpecSurface;

    open spec fn deep_view(&self) -> SpecSurface {
        SpecSurface { ids: self.ids.deep_view(), lines: self.lines.deep_view() }
    }
}

impl DeepView for SurfaceAppend {
    type V = SpecSurfaceAppend;

    open spec fn deep_view(&self) -> SpecSurfaceAppend {
        SpecSurfaceAppend { ids: self.ids.deep_view(), lines: self.lines.deep_view() }
    }
}

impl DeepView for SurfaceInner {
    type V = SpecSurfaceInner;

    open spec fn deep_view(&self) -> SpecSurfaceInner {
        match self {
            SurfaceInner::Element(v) => SpecSurfaceInner::Element(v.deep_view()),
            SurfaceInner::AnimationInterval(v) => SpecSurfaceInner::AnimationInterval(
                v.deep_view(),
            ),
            SurfaceInner::AnimationPattern(v) => SpecSurfaceInner::AnimationPattern(v.deep_view()),
            SurfaceInner::AnimationOption(v) => SpecSurfaceInner::AnimationOption(v.deep_view()),
            SurfaceInner::AnimationCollision(v) => SpecSurfaceInner::AnimationCollision(
                v.deep_view(),
            ),
            SurfaceInner::AnimationCollisionEx(v) => SpecSurfaceInner::AnimationCollisionEx(
                v.deep_view(),
            ),
            SurfaceInner::Collision(v) => SpecSurfaceInner::Collision(v.deep_view()),
            SurfaceInner::CollisionEx(v) => SpecSurfaceInner::CollisionEx(v.deep_view()),
            SurfaceInner::SakuraBalloonOffsetX(v) => SpecSurfaceInner::SakuraBalloonOffsetX(*v),
            SurfaceInner::SakuraBalloonOffsetY(v) => SpecSurfaceInner::SakuraBalloonOffsetY(*v),
            SurfaceInner::KeroBalloonOffsetX(v) => SpecSurfaceInner::KeroBalloonOffsetX(*v),
            SurfaceInner::KeroBalloonOffsetY(v) => SpecSurfaceInner::KeroBalloonOffsetY(*v),
            SurfaceInner::BalloonOffsetX(v) => SpecSurfaceInner::BalloonOffsetX(*v),
            SurfaceInner::BalloonOffsetY(v) => SpecSurfaceInner::BalloonOffsetY(*v),
            SurfaceInner::PointCenterX(v) => SpecSurfaceInner::PointCenterX(*v),
            SurfaceInner::PointCenterY(v) => SpecSurfaceInner::PointCenterY(*v),
            SurfaceInner::PointKinokoCenterX(v) => SpecSurfaceInner::PointKinokoCenterX(*v),
            SurfaceInner::PointKinokoCenterY(v) => SpecSurfaceInner::PointKinokoCenterY(*v),
            SurfaceInner::PointBaseposX(v) => SpecSurfaceInner::PointBaseposX(*v),
            SurfaceInner::PointBaseposY(v) => SpecSurfaceInner::PointBaseposY(*v),
        }
    }
}

impl DeepView for SurfaceElement {
    type V = SpecSurfaceElement;

    open spec fn deep_view(&self) -> SpecSurfaceElement {
        SpecSurfaceElement {
            id: self.id,
            method: self.method,
            filename: self.filename@,
            x: self.x,
            y: self.y,
        }
    }
}

impl DeepView for DrawMethodOnAnimation {
    type V = SpecDrawMethodOnAnimation;

    open spec fn deep_view(&self) -> SpecDrawMethodOnAnimation {
        match self {
            DrawMethodOnAnimation::Insert(v) => SpecDrawMethodOnAnimation::Insert(*v),
            DrawMethodOnAnimation::Start(v) => SpecDrawMethodOnAnimation::Start(*v),
            DrawMethodOnAnimation::Stop(v) => SpecDrawMethodOnAnimation::Stop(*v),
            DrawMethodOnAnimation::Alternativestart(v) => SpecDrawMethodOnAnimation::Alternativestart(
                v.deep_view(),
            ),
            DrawMethodOnAnimation::Alternativestop(v) => SpecDrawMethodOnAnimation::Alternativestop(
                v.deep_view(),
            ),
            DrawMethodOnAnimation::Parallelstart(v) => SpecDrawMethodOnAnimation::Parallelstart(
                v.deep_view(),
            ),
            DrawMethodOnAnimation::Parallelstop(v) => SpecDrawMethodOnAnimation::Parallelstop(
                v.deep_view(),
            ),
        }
    }
}

impl DeepView for SurfaceAnimationInterval {
    type V = SpecSurfaceAnimationInterval;

    open spec fn deep_view(&self) -> SpecSurfaceAnimationInterval {
        SpecSurfaceAnimationInterval { id: self.id, intervals: self.intervals.deep_view() }
    }
}

impl DeepView for SurfaceAnimationPattern {
    type V = SpecSurfaceAnimationPattern;

    open spec fn deep_view(&self) -> SpecSurfaceAnimationPattern {
        SpecSurfaceAnimationPattern {
            id: self.id,
            pattern_id: self.pattern_id,
            method: self.method.deep_view(),
        }
    }
}

impl DeepView for AnimationPatternDrawMethod {
    type V = SpecAnimationPatternDrawMethod;

    open spec fn deep_view(&self) -> SpecAnimationPatternDrawMethod {
        match self {
            AnimationPatternDrawMethod::Normal(m, p) => SpecAnimationPatternDrawMethod::Normal(
                *m,
                *p,
            ),
            AnimationPatternDrawMethod::Animation(a) => SpecAnimationPatternDrawMethod::Animation(
                a.deep_view(),
            ),
        }
    }
}

impl DeepView for SurfaceAnimationOption {
    type V = SpecSurfaceAnimationOption;

    open spec fn deep_view(&self) -> SpecSurfaceAnimationOption {
        SpecSurfaceAnimationOption { id: self.id, options: self.options.deep_view() }
    }
}

impl DeepView for AnimationOptionKind {
    type V = SpecAnimationOptionKind;

    open spec fn deep_view(&self) -> SpecAnimationOptionKind {
        match self {
            AnimationOptionKind::Exclusive(v) => SpecAnimationOptionKind::Exclusive(v.deep_view()),
            AnimationOptionKind::Background => SpecAnimationOptionKind::Background,
            AnimationOptionKind::SharedIndex => SpecAnimationOptionKind::SharedIndex,
        }
    }
}

impl DeepView for SurfaceAnimationCollision {
    type V = SpecSurfaceAnimationCollision;

    open spec fn deep_view(&self) -> SpecSurfaceAnimationCollision {
        SpecSurfaceAnimationCollision { id: self.id, collision: self.collision.deep_view() }
    }
}

impl DeepView for SurfaceAnimationCollisionEx {
    type V = SpecSurfaceAnimationCollisionEx;

    open spec fn deep_view(&self) -> SpecSurfaceAnimationCollisionEx {
        SpecSurfaceAnimationCollisionEx { id: self.id, collision: self.collision.deep_view() }
    }
}

impl DeepView for SurfaceCollision {
    type V = SpecSurfaceCollision;

    open spec fn deep_view(&self) -> SpecSurfaceCollision {
        SpecSurfaceCollision {
            id: self.id,
            start_x: self.start_x,
            start_y: self.start_y,
            end_x: self.end_x,
            end_y: self.end_y,
            target_id: self.target_id@,
        }
    }
}

impl DeepView for SurfaceCollisionEx {
    type V = SpecSurfaceCollisionEx;

    open spec fn deep_view(&self) -> SpecSurfaceCollisionEx {
        SpecSurfaceCollisionEx {
            id: self.id,
            target_id: self.target_id@,
            kind: self.kind.deep_view(),
        }
    }
}

impl DeepView for CollisionExKind {
    type V = SpecCollisionExKind;

    open spec fn deep_view(&self) -> SpecCollisionExKind {
        match self {
            CollisionExKind::Rect(a, b, c, d) => SpecCollisionExKind::Rect(*a, *b, *c, *d),
            CollisionExKind::Ellipse(a, b, c, d) => SpecCollisionExKind::Ellipse(*a, *b, *c, *d),
            CollisionExKind::Circle(a, b, c) => SpecCollisionExKind::Circle(*a, *b, *c),
            CollisionExKind::Polygon(v) => SpecCollisionExKind::Polygon(v.deep_view()),
            CollisionExKind::Region(f, r, g, b, o) => SpecCollisionExKind::Region(
                f@,
                *r,
                *g,
                *b,
                *o,
            ),
        }
    }
}

impl DeepView for SurfaceAlias {
    type V = SpecSurfaceAlias;

    open spec fn deep_view(&self) -> SpecSurfaceAlias {
        SpecSurfaceAlias { id: self.id, lines: self.lines.deep_view() }
    }
}

impl DeepView for SurfaceAliasInner {
    type V = SpecSurfaceAliasInner;

    open spec fn deep_view(&self) -> SpecSurfaceAliasInner {
        SpecSurfaceAliasInner { target: self.target@, surfaces: self.surfaces.deep_view() }
    }
}

impl DeepView for SerikoCursor {
    type V = SpecSerikoCursor;

    open spec fn deep_view(&self) -> SpecSerikoCursor {
        SpecSerikoCursor { id: self.id, lines: self.lines.deep_view() }
    }
}

impl DeepView for SerikoCursorGesture {
    type V = SpecSerikoCursorGesture;

    open spec fn deep_view(&self) -> SpecSerikoCursorGesture {
        SpecSerikoCursorGesture {
            kind: self.kind,
            id: self.id,
            target_collistion: self.target_collistion@,
            filename: self.filename@,
        }
    }
}

impl DeepView for Tooltip {
    type V = SpecTooltip;

    open spec fn deep_view(&self) -> SpecTooltip {
        SpecTooltip { id: self.id, lines: self.lines.deep_view() }
    }
}

impl DeepView for TooltipInner {
    type V = SpecTooltipInner;

    open spec fn deep_view(&self) -> SpecTooltipInner {
        SpecTooltipInner { collision: self.collision@, description: self.description@ }
    }
}

impl Seriko {
    pub fn new(
        header_comments: Vec<CommentLine>,
        charset: Charset,
        braces: Vec<BraceContainer>,
        footer_comments: Vec<CommentLine>,
    ) -> (r: Seriko)
        ensures
            r.header_comments == header_comments,
            r.charset == charset,
            r.braces == braces,
            r.footer_comments == footer_comments,
    {
        Seriko { header_comments, charset, braces, footer_comments }
    }

    pub fn header_comments(&self) -> (r: &Vec<CommentLine>)
        ensures
            r == &self.header_comments,
    {
        &self.header_comments
    }

    pub fn charset(&self) -> (r: &Charset)
        ensures
            r == &self.charset,
    {
        &self.charset
    }

    pub fn braces(&self) -> (r: &Vec<BraceContainer>)
        ensures
            r == &self.braces,
    {
        &self.braces
    }

    pub fn footer_comments(&self) -> (r: &Vec<CommentLine>)
        ensures
            r == &self.footer_comments,
    {
        &self.footer_comments
    }
}

impl CommentLine {
    pub fn new(body: String) -> (r: CommentLine)
        ensures
            r.body == body,
    {
        CommentLine { body }
    }

    pub fn body(&self) -> (r: &String)
        ensures
            r == &self.body,
    {
        &self.body
    }
}

impl BraceContainer {
    pub fn new(header_comments: Vec<CommentLine>, body: Brace) -> (r: BraceContainer)
        ensures
            r.header_comments == header_comments,
            r.body == body,
    {
        BraceContainer { header_comments, body }
    }

    pub fn header_comments(&self) -> (r: &Vec<CommentLine>)
        ensures
            r == &self.header_comments,
    {
        &self.header_comments
    }

    pub fn body(&self) -> (r: &Brace)
        ensures
            r == &self.body,
    {
        &self.body
    }
}

impl Descript {
    pub fn new(lines: Vec<LineContainer<DescriptInner>>) -> (r: Descript)
        ensures
            r.lines == lines,
    {
        Descript { lines }
    }

    pub fn lines(&self) -> (r: &Vec<LineContainer<DescriptInner>>)
        ensures
            r == &self.lines,
    {
        &self.lines
    }
}

impl Surface {
    pub fn new(ids: Vec<SurfaceId>, lines: Vec<LineContainer<SurfaceInner>>) -> (r: Surface)
        ensures
            r.ids == ids,
            r.lines == lines,
    {
        Surface { ids, lines }
    }

    pub fn ids(&self) -> (r: &Vec<SurfaceId>)
        ensures
            r == &self.ids,
    {
        &self.ids
    }

    pub fn lines(&self) -> (r: &Vec<LineContainer<SurfaceInner>>)
        ensures
            r == &self.lines,
    {
        &self.lines
    }
}

impl SurfaceAppend {
    pub fn new(ids: Vec<SurfaceId>, lines: Vec<LineContainer<SurfaceInner>>) -> (r: SurfaceAppend)
        ensures
            r.ids == ids,
            r.lines == lines,
    {
        SurfaceAppend { ids, lines }
    }

    pub fn ids(&self) -> (r: &Vec<SurfaceId>)
        ensures
            r == &self.ids,
    {
        &self.ids
    }

    pub fn lines(&self) -> (r: &Vec<LineContainer<SurfaceInner>>)
        ensures
            r == &self.lines,
    {
        &self.lines
    }
}

impl SurfaceElement {
    pub fn new(
        id: ElementIdType,
        method: DrawMethod,
        filename: String,
        x: CoordinateType,
        y: CoordinateType,
    ) -> (r: SurfaceElement)
        ensures
            r.id == id,
            r.method == method,
            r.filename == filename,
            r.x == x,
            r.y == y,
    {
        SurfaceElement { id, method, filename, x, y }
    }

    pub fn id(&self) -> (r: &ElementIdType)
        ensures
            r == &self.id,
    {
        &self.id
    }

    pub fn method(&self) -> (r: &DrawMethod)
        ensures
            r == &self.method,
    {
        &self.method
    }

    pub fn filename(&self) -> (r: &String)
        ensures
            r == &self.filename,
    {
        &self.filename
    }

    pub fn x(&self) -> (r: &CoordinateType)
        ensures
            r == &self.x,
    {
        &self.x
    }

    pub fn y(&self) -> (r: &CoordinateType)
        ensures
            r == &self.y,
    {
        &self.y
    }
}

impl SurfaceAnimationInterval {
    pub fn new(id: AnimationIdType, intervals: Vec<AnimationInterval>) -> (r:
        SurfaceAnimationInterval)
        ensures
            r.id == id,
            r.intervals == intervals,
    {
        SurfaceAnimationInterval { id, intervals }
    }

    pub fn id(&self) -> (r: &AnimationIdType)
        ensures
            r == &self.id,
    {
        &self.id
    }

    pub fn intervals(&self) -> (r: &Vec<AnimationInterval>)
        ensures
            r == &self.intervals,
    {
        &self.intervals
    }
}

impl SurfaceAnimationPattern {
    pub fn new(
        id: AnimationIdType,
        pattern_id: AnimationPatternIdType,
        method: AnimationPatternDrawMethod,
    ) -> (r: SurfaceAnimationPattern)
        ensures
            r.id == id,
            r.pattern_id == pattern_id,
            r.method == method,
    {
        SurfaceAnimationPattern { id, pattern_id, method }
    }

    pub fn id(&self) -> (r: &AnimationIdType)
        ensures
            r == &self.id,
    {
        &self.id
    }

    pub fn pattern_id(&self) -> (r: &AnimationPatternIdType)
        ensures
            r == &self.pattern_id,
    {
        &self.pattern_id
    }

    pub fn method(&self) -> (r: &AnimationPatternDrawMethod)
        ensures
            r == &self.method,
    {
        &self.method
    }
}

impl AnimationPatternProperty {
    pub fn new(
        surface_id: SurfaceIdPointerType,
        weight: u32,
        x: CoordinateType,
        y: CoordinateType,
    ) -> (r: AnimationPatternProperty)
        ensures
            r.surface_id == surface_id,
            r.weight == weight,
            r.x == x,
            r.y == y,
    {
        AnimationPatternProperty { surface_id, weight, x, y }
    }

    pub fn surface_id(&self) -> (r: &SurfaceIdPointerType)
        ensures
            r == &self.surface_id,
    {
        &self.surface_id
    }

    pub fn weight(&self) -> (r: &u32)
        ensures
            r == &self.weight,
    {
        &self.weight
    }

    pub fn x(&self) -> (r: &CoordinateType)
        ensures
            r == &self.x,
    {
        &self.x
    }

    pub fn y(&self) -> (r: &CoordinateType)
        ensures
            r == &self.y,
    {
        &self.y
    }
}

impl SurfaceAnimationOption {
    pub fn new(id: AnimationIdType, options: Vec<AnimationOptionKind>) -> (r:
        SurfaceAnimationOption)
        ensures
            r.id == id,
            r.options == options,
    {
        SurfaceAnimationOption { id, options }
    }

    pub fn id(&self) -> (r: &AnimationIdType)
        ensures
            r == &self.id,
    {
        &self.id
    }

    pub fn options(&self) -> (r: &Vec<AnimationOptionKind>)
        ensures
            r == &self.options,
    {
        &self.options
    }
}

impl SurfaceAnimationCollision {
    pub fn new(id: AnimationIdType, collision: SurfaceCollision) -> (r: SurfaceAnimationCollision)
        ensures
            r.id == id,
            r.collision == collision,
    {
        SurfaceAnimationCollision { id, collision }
    }

    pub fn id(&self) -> (r: &AnimationIdType)
        ensures
            r == &self.id,
    {
        &self.id
    }

    pub fn collision(&self) -> (r: &SurfaceCollision)
        ensures
            r == &self.collision,
    {
        &self.collision
    }
}

impl SurfaceAnimationCollisionEx {
    pub fn new(id: AnimationIdType, collision: SurfaceCollisionEx) -> (r:
        SurfaceAnimationCollisionEx)
        ensures
            r.id == id,
            r.collision == collision,
    {
        SurfaceAnimationCollisionEx { id, collision }
    }

    pub fn id(&self) -> (r: &AnimationIdType)
        ensures
            r == &self.id,
    {
        &self.id
    }

    pub fn collision(&self) -> (r: &SurfaceCollisionEx)
        ensures
            r == &self.collision,
    {
        &self.collision
    }
}

impl SurfaceCollision {
    pub fn new(
        id: CollisionIdType,
        start_x: CoordinateType,
        start_y: CoordinateType,
        end_x: CoordinateType,
        end_y: CoordinateType,
        target_id: String,
    ) -> (r: SurfaceCollision)
        ensures
            r.id == id,
            r.start_x == start_x,
            r.start_y == start_y,
            r.end_x == end_x,
            r.end_y == end_y,
            r.target_id == target_id,
    {
        SurfaceCollision { id, start_x, start_y, end_x, end_y, target_id }
    }

    pub fn id(&self) -> (r: &CollisionIdType)
        ensures
            r == &self.id,
    {
        &self.id
    }

    pub fn start_x(&self) -> (r: &CoordinateType)
        ensures
            r == &self.start_x,
    {
        &self.start_x
    }

    pub fn start_y(&self) -> (r: &CoordinateType)
        ensures
            r == &self.start_y,
    {
        &self.start_y
    }

    pub fn end_x(&self) -> (r: &CoordinateType)
        ensures
            r == &self.end_x,
    {
        &self.end_x
    }

    pub fn end_y(&self) -> (r: &CoordinateType)
        ensures
            r == &self.end_y,
    {
        &self.end_y
    }

    pub fn target_id(&self) -> (r: &String)
        ensures
            r == &self.target_id,
    {
        &self.target_id
    }
}

impl SurfaceCollisionEx {
    pub fn new(id: CollisionIdType, target_id: String, kind: CollisionExKind) -> (r:
        SurfaceCollisionEx)
        ensures
            r.id == id,
            r.target_id == target_id,
            r.kind == kind,
    {
        SurfaceCollisionEx { id, target_id, kind }
    }

    pub fn id(&self) -> (r: &CollisionIdType)
        ensures
            r == &self.id,
    {
        &self.id
    }

    pub fn target_id(&self) -> (r: &String)
        ensures
            r == &self.target_id,
    {
        &self.target_id
    }

    pub fn kind(&self) -> (r: &CollisionExKind)
        ensures
            r == &self.kind,
    {
        &self.kind
    }
}

impl SurfaceAlias {
    pub fn new(id: SurfaceTargetCharacterId, lines: Vec<LineContainer<SurfaceAliasInner>>) -> (r:
        SurfaceAlias)
        ensures
            r.id == id,
            r.lines == lines,
    {
        SurfaceAlias { id, lines }
    }

    pub fn id(&self) -> (r: &SurfaceTargetCharacterId)
        ensures
            r == &self.id,
    {
        &self.id
    }

    pub fn lines(&self) -> (r: &Vec<LineContainer<SurfaceAliasInner>>)
        ensures
            r == &self.lines,
    {
        &self.lines
    }
}

impl SurfaceAliasInner {
    pub fn new(target: String, surfaces: Vec<SurfaceIdType>) -> (r: SurfaceAliasInner)
        ensures
            r.target == target,
            r.surfaces == surfaces,
    {
        SurfaceAliasInner { target, surfaces }
    }

    pub fn target(&self) -> (r: &String)
        ensures
            r == &self.target,
    {
        &self.target
    }

    pub fn surfaces(&self) -> (r: &Vec<SurfaceIdType>)
        ensures
            r == &self.surfaces,
    {
        &self.surfaces
    }
}

impl SerikoCursor {
    pub fn new(id: SurfaceTargetCharacterId, lines: Vec<LineContainer<SerikoCursorGesture>>) -> (r:
        SerikoCursor)
        ensures
            r.id == id,
            r.lines == lines,
    {
        SerikoCursor { id, lines }
    }

    pub fn id(&self) -> (r: &SurfaceTargetCharacterId)
        ensures
            r == &self.id,
    {
        &self.id
    }

    pub fn lines(&self) -> (r: &Vec<LineContainer<SerikoCursorGesture>>)
        ensures
            r == &self.lines,
    {
        &self.lines
    }
}

impl SerikoCursorGesture {
    pub fn new(
        kind: GestureKind,
        id: CursorMouseIdType,
        target_collistion: String,
        filename: String,
    ) -> (r: SerikoCursorGesture)
        ensures
            r.kind == kind,
            r.id == id,
            r.target_collistion == target_collistion,
            r.filename == filename,
    {
        SerikoCursorGesture { kind, id, target_collistion, filename }
    }

    pub fn kind(&self) -> (r: &GestureKind)
        ensures
            r == &self.kind,
    {
        &self.kind
    }

    pub fn id(&self) -> (r: &CursorMouseIdType)
        ensures
            r == &self.id,
    {
        &self.id
    }

    pub fn target_collistion(&self) -> (r: &String)
        ensures
            r == &self.target_collistion,
    {
        &self.target_collistion
    }

    pub fn filename(&self) -> (r: &String)
        ensures
            r == &self.filename,
    {
        &self.filename
    }
}

impl Tooltip {
    pub fn new(id: SurfaceTargetCharacterId, lines: Vec<LineContainer<TooltipInner>>) -> (r:
        Tooltip)
        ensures
            r.id == id,
            r.lines == lines,
    {
        Tooltip { id, lines }
    }

    pub fn id(&self) -> (r: &SurfaceTargetCharacterId)
        ensures
            r == &self.id,
    {
        &self.id
    }

    pub fn lines(&self) -> (r: &Vec<LineContainer<TooltipInner>>)
        ensures
            r == &self.lines,
    {
        &self.lines
    }
}

impl TooltipInner {
    pub fn new(collision: String, description: String) -> (r: TooltipInner)
        ensures
            r.collision == collision,
            r.description == description,
    {
        TooltipInner { collision, description }
    }

    pub fn collision(&self) -> (r: &String)
        ensures
            r == &self.collision,
    {
        &self.collision
    }

    pub fn description(&self) -> (r: &String)
        ensures
            r == &self.description,
    {
        &self.description
    }
}

} // verus!
