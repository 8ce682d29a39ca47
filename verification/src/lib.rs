//! A verified parser for SERIKO `surfaces.txt` shell-surface descriptions.
//!
//! The input is a raw byte buffer: [`decode_bytes`] resolves the declared
//! charset and decodes the buffer strictly; [`parse`] turns the decoded text
//! into a [`Seriko`] syntax tree that preserves every comment line and the
//! order of every block. Both functions carry contracts that pin the result
//! down against the specification-level grammar in [`model`] and the spec
//! parser functions beside each executable parser.

pub mod ast;
pub mod decoding;
pub mod model;
pub mod parse;

pub use ast::{
    AnimationInterval, AnimationOptionKind, AnimationPatternDrawMethod, AnimationPatternProperty,
    Brace, BraceContainer, Charset, CollisionExKind, CommentLine, Descript, DescriptInner,
    DrawMethod, DrawMethodOnAnimation, GestureKind, LineContainer, SerikoCursor,
    SerikoCursorGesture, SortOrder, Surface, SurfaceAlias, SurfaceAliasInner, SurfaceAnimationCollision,
    SurfaceAnimationCollisionEx, SurfaceAnimationInterval, SurfaceAnimationOption,
    SurfaceAnimationPattern, SurfaceAppend, SurfaceCollision, SurfaceCollisionEx, SurfaceId,
    SurfaceInner, SurfaceTargetCharacterId, Seriko, Tooltip, TooltipInner,
};
pub use ast::{
    AnimationIdType, AnimationPatternIdType, CollisionIdType, CoordinateType, CursorMouseIdType,
    ElementIdType, SurfaceIdPointerType, SurfaceIdType, SurfaceSizeType,
};
pub use decoding::{decode_bytes, DecodeError};
pub use parse::{parse, SerikoParseError};
