//! The shaper pen's closed style choices.
//!
//! Only the two tag enumerations live here: the rest of the shaper
//! configuration carries floating-point drawing options and randomized
//! seeds, which belong to the unverified caller.

use vstd::prelude::*;

verus! {

/// A failure to decode a shaper tag from its numeric form.
#[derive(Clone, Copy, Debug, PartialEq, Eq, Structural)]
pub enum ShaperConfigError {
    /// The number names no variant.
    UnknownVariant,
}

/// The stroke style a shaper draws with.
#[derive(Clone, Copy, Debug, PartialEq, Eq, Structural)]
pub enum ShaperStyle {
    /// Smooth lines.
    Smooth,
    /// A rough, sketchy look.
    Rough,
}

impl Default for ShaperStyle {
    /// The default style is `Smooth`.
    fn default() -> (r: Self)
        ensures
            r == ShaperStyle::Smooth,
    {
        Self::Smooth
    }
}

impl ShaperStyle {
    /// The numeric form of this style.
    pub fn to_u32(&self) -> (r: u32)
        ensures
            r == (match *self {
                ShaperStyle::Smooth => 0u32,
                ShaperStyle::Rough => 1u32,
            }),
    {
        match self {
            ShaperStyle::Smooth => 0,
            ShaperStyle::Rough => 1,
        }
    }

    /// Decodes a style from its numeric form; exactly 0 and 1 name a
    /// variant, every other number fails.
    pub fn try_from(value: u32) -> (r: Result<Self, ShaperConfigError>)
        ensures
            value == 0 ==> r == Ok::<Self, ShaperConfigError>(ShaperStyle::Smooth),
            value == 1 ==> r == Ok::<Self, ShaperConfigError>(ShaperStyle::Rough),
            value >= 2 ==> r == Err::<Self, ShaperConfigError>(ShaperConfigError::UnknownVariant),
    {
        if value == 0 {
            Ok(ShaperStyle::Smooth)
        } else if value == 1 {
            Ok(ShaperStyle::Rough)
        } else {
            Err(ShaperConfigError::UnknownVariant)
        }
    }
}

/// The brush a shaper strokes its shapes with.
#[derive(Clone, Copy, Debug, PartialEq, Eq, Structural)]
pub enum ShaperBrushType {
    /// A solid stroke.
    Solid,
    /// A translucent highlighter stroke.
    Highlighter,
}

impl Default for ShaperBrushType {
    /// The default brush is `Solid`.
    fn default() -> (r: Self)
        ensures
            r == ShaperBrushType::Solid,
    {
        Self::Solid
    }
}

impl ShaperBrushType {
    /// The numeric form of this brush type.
    pub fn to_u32(&self) -> (r: u32)
        ensures
            r == (match *self {
                ShaperBrushType::Solid => 0u32,
                ShaperBrushType::Highlighter => 1u32,
            }),
    {
        match self {
            ShaperBrushType::Solid => 0,
            ShaperBrushType::Highlighter => 1,
        }
    }

    /// Decodes a brush type from its numeric form; exactly 0 and 1 name a
    /// variant, every other number fails.
    pub fn try_from(value: u32) -> (r: Result<Self, ShaperConfigError>)
        ensures
            value == 0 ==> r == Ok::<Self, ShaperConfigError>(ShaperBrushType::Solid),
            value == 1 ==> r == Ok::<Self, ShaperConfigError>(ShaperBrushType::Highlighter),
            value >= 2 ==> r == Err::<Self, ShaperConfigError>(ShaperConfigError::UnknownVariant),
    {
        if value == 0 {
            Ok(ShaperBrushType::Solid)
        } else if value == 1 {
            Ok(ShaperBrushType::Highlighter)
        } else {
            Err(ShaperConfigError::UnknownVariant)
        }
    }
}

} // verus!
