//! Attachments: the data channels of a terrain dataset and their tile geometry.

use vstd::prelude::*;

verus! {

/// The pixel encodings a tile can have.
#[derive(Clone, Copy, Debug, PartialEq, Eq, Structural)]
pub enum AttachmentFormat {
    /// Three channels of 8 bits: colour.
    Rgb8,
    /// Four channels of 8 bits: colour with alpha.
    Rgba8,
    /// One channel of 16 bits.
    R16,
    /// Two channels of 16 bits, used for a minimum and a maximum.
    Rg16,
}

impl AttachmentFormat {
    /// Number of channels of one pixel.
    pub open spec fn channel_count(self) -> nat {
        match self {
            AttachmentFormat::Rgb8 => 3,
            AttachmentFormat::Rgba8 => 4,
            AttachmentFormat::R16 => 1,
            AttachmentFormat::Rg16 => 2,
        }
    }

    /// Width of one channel in bits.
    pub open spec fn bit_depth(self) -> nat {
        match self {
            AttachmentFormat::Rgb8 | AttachmentFormat::Rgba8 => 8,
            AttachmentFormat::R16 | AttachmentFormat::Rg16 => 16,
        }
    }

    /// Largest value one channel can hold.
    pub open spec fn channel_max(self) -> int {
        if self.bit_depth() == 8 {
            0xff
        } else {
            0xffff
        }
    }

    /// Number of channels of one pixel.
    pub fn channels(self) -> (n: usize)
        ensures
            n == self.channel_count(),
    {
        match self {
            AttachmentFormat::Rgb8 => 3,
            AttachmentFormat::Rgba8 => 4,
            AttachmentFormat::R16 => 1,
            AttachmentFormat::Rg16 => 2,
        }
    }

    /// Width of one channel in bits.
    pub fn bits(self) -> (n: u32)
        ensures
            n == self.bit_depth(),
    {
        match self {
            AttachmentFormat::Rgb8 | AttachmentFormat::Rgba8 => 8,
            AttachmentFormat::R16 | AttachmentFormat::Rg16 => 16,
        }
    }
}

/// Describes one attachment: its pixel format and the geometry shared by all
/// of its tiles, on every layer.
#[derive(Clone, Copy, Debug, PartialEq, Eq, Structural)]
pub struct AttachmentConfig {
    /// Edge length of a tile's valid region, in pixels.
    pub center_size: u32,
    /// Width of the padding around the valid region, in pixels.
    pub border_size: u32,
    /// Pixel format of every tile.
    pub format: AttachmentFormat,
}

impl AttachmentConfig {
    /// Edge length of a whole tile: the valid region and the border on both sides.
    pub open spec fn side(self) -> int {
        self.center_size + 2 * self.border_size
    }

    /// Edge length of the quarter of a parent tile that one child paints.
    pub open spec fn half(self) -> int {
        self.center_size as int / 2
    }

    /// Whether `(x, y)` lies in the valid region of a tile, away from the border.
    pub open spec fn in_center(self, x: int, y: int) -> bool {
        &&& self.border_size <= x < self.border_size + self.center_size
        &&& self.border_size <= y < self.border_size + self.center_size
    }

    /// Edge length of a whole tile, or `None` where it exceeds `u32`.
    pub fn tile_size(&self) -> (size: Option<u32>)
        ensures
            size == (if self.side() <= u32::MAX {
                Some(self.side() as u32)
            } else {
                None
            }),
    {
        match self.border_size.checked_mul(2) {
            Some(border) => self.center_size.checked_add(border),
            None => None,
        }
    }

    /// Edge length of the quarter of a parent tile that one child paints.
    pub fn half_size(&self) -> (half: u32)
        ensures
            half == self.half(),
    {
        self.center_size / 2
    }
}

} // verus!
