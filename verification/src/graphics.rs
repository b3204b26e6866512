//! Graphic command parameters: density, tone, colour and size classes.

use vstd::prelude::*;

verus! {

/// Graphic density.
#[derive(Debug, Clone, Copy, PartialEq, Eq, Structural)]
pub enum GraphicDensity {
    /// 180dpi x 180dpi.
    Low,
    /// 360dpi x 360dpi.
    High,
}

impl GraphicDensity {
    /// The density byte of the density command.
    pub fn to_u8(self) -> (r: u8)
        ensures
            r == match self {
                GraphicDensity::Low => 50u8,
                GraphicDensity::High => 51u8,
            },
    {
        match self {
            GraphicDensity::Low => 50,
            GraphicDensity::High => 51,
        }
    }
}

/// Graphic tone.
#[derive(Debug, Clone, Copy, PartialEq, Eq, Structural)]
pub enum GraphicTone {
    Monochrome,
    Multiple,
}

impl GraphicTone {
    /// The tone byte of the graphic data command.
    pub fn to_u8(self) -> (r: u8)
        ensures
            r == match self {
                GraphicTone::Monochrome => 48u8,
                GraphicTone::Multiple => 52u8,
            },
    {
        match self {
            GraphicTone::Monochrome => 48,
            GraphicTone::Multiple => 52,
        }
    }
}

/// Graphic colour plane.
#[derive(Debug, Clone, Copy, PartialEq, Eq, Structural)]
pub enum GraphicColor {
    Color1,
    Color2,
    Color3,
    Color4,
}

impl GraphicColor {
    /// The colour byte of the graphic data command.
    pub fn to_u8(self) -> (r: u8)
        ensures
            r == match self {
                GraphicColor::Color1 => 49u8,
                GraphicColor::Color2 => 50u8,
                GraphicColor::Color3 => 51u8,
                GraphicColor::Color4 => 52u8,
            },
    {
        match self {
            GraphicColor::Color1 => 49,
            GraphicColor::Color2 => 50,
            GraphicColor::Color3 => 51,
            GraphicColor::Color4 => 52,
        }
    }
}

/// Graphic size multiplier along one axis.
#[derive(Debug, Clone, Copy, PartialEq, Eq, Structural)]
pub enum GraphicSize {
    Normal,
    Double,
}

impl GraphicSize {
    /// The size byte of the graphic data command.
    pub fn to_u8(self) -> (r: u8)
        ensures
            r == match self {
                GraphicSize::Normal => 1u8,
                GraphicSize::Double => 2u8,
            },
    {
        match self {
            GraphicSize::Normal => 1,
            GraphicSize::Double => 2,
        }
    }
}

/// Bounds, density, tone, colour and axis sizes of one graphic.
#[derive(Debug, Clone)]
pub struct GraphicOption {
    /// Image max width.
    pub max_width: Option<u32>,
    /// Image max height.
    pub max_height: Option<u32>,
    /// Image density.
    pub density: GraphicDensity,
    /// Image tone.
    pub tone: GraphicTone,
    /// Image colour.
    pub color: GraphicColor,
    /// Width size multiplier.
    pub width_size: GraphicSize,
    /// Height size multiplier.
    pub height_size: GraphicSize,
}

impl Default for GraphicOption {
    fn default() -> (r: Self)
        ensures
            r.max_width is None,
            r.max_height is None,
            r.density == GraphicDensity::Low,
            r.tone == GraphicTone::Monochrome,
            r.color == GraphicColor::Color1,
            r.width_size == GraphicSize::Normal,
            r.height_size == GraphicSize::Normal,
    {
        GraphicOption {
            max_width: Option::None,
            max_height: Option::None,
            density: GraphicDensity::Low,
            tone: GraphicTone::Monochrome,
            color: GraphicColor::Color1,
            width_size: GraphicSize::Normal,
            height_size: GraphicSize::Normal,
        }
    }
}

impl GraphicOption {
    /// Create a new `GraphicOption`.
    pub fn new(
        density: GraphicDensity,
        tone: GraphicTone,
        color: GraphicColor,
        width_size: GraphicSize,
        height_size: GraphicSize,
        max_width: Option<u32>,
        max_height: Option<u32>,
    ) -> (r: Self)
        ensures
            r.max_width == max_width,
            r.max_height == max_height,
            r.density == density,
            r.tone == tone,
            r.color == color,
            r.width_size == width_size,
            r.height_size == height_size,
    {
        GraphicOption { max_width, max_height, density, tone, color, width_size, height_size }
    }
}

} // verus!
