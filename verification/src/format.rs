use vstd::prelude::*;

verus! {

/// The packed single-plane pixel formats the bridge understands: interleaved
/// one-byte subpixels, one pixel every three or four bytes.
#[derive(Clone, Copy, PartialEq, Eq, Structural, Debug)]
pub enum PixelFormat {
    Rgb,
    Bgr,
    Rgba,
    Bgra,
    /// Blue, green, red and one padding byte that carries no channel; as a
    /// destination the packer puts the configured fill value there, and as a
    /// source the padding byte is never read.
    Bgrx,
}

/// The role one byte position plays within a pixel of a format.
#[derive(Clone, Copy, PartialEq, Eq, Structural, Debug)]
pub enum ChannelRole {
    Red,
    Green,
    Blue,
    Alpha,
    /// A destination padding byte with no source channel; it always takes
    /// the fill value.
    Filler,
}

/// How many bytes one pixel of `format` occupies.
pub open spec fn bytes_per_pixel(format: PixelFormat) -> int {
    match format {
        PixelFormat::Rgb => 3,
        PixelFormat::Bgr => 3,
        PixelFormat::Rgba => 4,
        PixelFormat::Bgra => 4,
        PixelFormat::Bgrx => 4,
    }
}

/// Runtime counterpart of [`bytes_per_pixel`].
pub fn pixel_width(format: PixelFormat) -> (n: usize)
    ensures
        n == bytes_per_pixel(format),
{
    match format {
        PixelFormat::Rgb => 3,
        PixelFormat::Bgr => 3,
        PixelFormat::Rgba => 4,
        PixelFormat::Bgra => 4,
        PixelFormat::Bgrx => 4,
    }
}

/// The role of byte `k` within one pixel of `format`.
pub open spec fn role_at(format: PixelFormat, k: int) -> ChannelRole
    recommends
        0 <= k < bytes_per_pixel(format),
{
    match format {
        PixelFormat::Rgb => if k == 0 {
            ChannelRole::Red
        } else if k == 1 {
            ChannelRole::Green
        } else {
            ChannelRole::Blue
        },
        PixelFormat::Bgr => if k == 0 {
            ChannelRole::Blue
        } else if k == 1 {
            ChannelRole::Green
        } else {
            ChannelRole::Red
        },
        PixelFormat::Rgba => if k == 0 {
            ChannelRole::Red
        } else if k == 1 {
            ChannelRole::Green
        } else if k == 2 {
            ChannelRole::Blue
        } else {
            ChannelRole::Alpha
        },
        PixelFormat::Bgra => if k == 0 {
            ChannelRole::Blue
        } else if k == 1 {
            ChannelRole::Green
        } else if k == 2 {
            ChannelRole::Red
        } else {
            ChannelRole::Alpha
        },
        PixelFormat::Bgrx => if k == 0 {
            ChannelRole::Blue
        } else if k == 1 {
            ChannelRole::Green
        } else if k == 2 {
            ChannelRole::Red
        } else {
            ChannelRole::Filler
        },
    }
}

/// Runtime counterpart of [`role_at`].
pub fn channel_role(format: PixelFormat, k: usize) -> (role: ChannelRole)
    requires
        k < bytes_per_pixel(format),
    ensures
        role == role_at(format, k as int),
{
    match format {
        PixelFormat::Rgb => if k == 0 {
            ChannelRole::Red
        } else if k == 1 {
            ChannelRole::Green
        } else {
            ChannelRole::Blue
        },
        PixelFormat::Bgr => if k == 0 {
            ChannelRole::Blue
        } else if k == 1 {
            ChannelRole::Green
        } else {
            ChannelRole::Red
        },
        PixelFormat::Rgba => if k == 0 {
            ChannelRole::Red
        } else if k == 1 {
            ChannelRole::Green
        } else if k == 2 {
            ChannelRole::Blue
        } else {
            ChannelRole::Alpha
        },
        PixelFormat::Bgra => if k == 0 {
            ChannelRole::Blue
        } else if k == 1 {
            ChannelRole::Green
        } else if k == 2 {
            ChannelRole::Red
        } else {
            ChannelRole::Alpha
        },
        PixelFormat::Bgrx => if k == 0 {
            ChannelRole::Blue
        } else if k == 1 {
            ChannelRole::Green
        } else if k == 2 {
            ChannelRole::Red
        } else {
            ChannelRole::Filler
        },
    }
}

/// Where a source pixel of `format` keeps the byte for `role`, or `None`
/// when the format has no such channel (then the destination byte takes the
/// fill value instead).
pub open spec fn role_offset(format: PixelFormat, role: ChannelRole) -> Option<int> {
    match role {
        ChannelRole::Red => match format {
            PixelFormat::Rgb => Some(0int),
            PixelFormat::Bgr => Some(2int),
            PixelFormat::Rgba => Some(0int),
            PixelFormat::Bgra => Some(2int),
            PixelFormat::Bgrx => Some(2int),
        },
        ChannelRole::Green => Some(1int),
        ChannelRole::Blue => match format {
            PixelFormat::Rgb => Some(2int),
            PixelFormat::Bgr => Some(0int),
            PixelFormat::Rgba => Some(2int),
            PixelFormat::Bgra => Some(0int),
            PixelFormat::Bgrx => Some(0int),
        },
        ChannelRole::Alpha => match format {
            PixelFormat::Rgb => None,
            PixelFormat::Bgr => None,
            PixelFormat::Rgba => Some(3int),
            PixelFormat::Bgra => Some(3int),
            PixelFormat::Bgrx => None,
        },
        ChannelRole::Filler => None,
    }
}

/// Runtime counterpart of [`role_offset`].
pub fn source_offset(format: PixelFormat, role: ChannelRole) -> (offset: Option<usize>)
    ensures
        match offset {
            Some(j) => role_offset(format, role) == Some(j as int) && j < bytes_per_pixel(format),
            None => role_offset(format, role) is None,
        },
{
    match role {
        ChannelRole::Red => match format {
            PixelFormat::Rgb => Some(0),
            PixelFormat::Bgr => Some(2),
            PixelFormat::Rgba => Some(0),
            PixelFormat::Bgra => Some(2),
            PixelFormat::Bgrx => Some(2),
        },
        ChannelRole::Green => Some(1),
        ChannelRole::Blue => match format {
            PixelFormat::Rgb => Some(2),
            PixelFormat::Bgr => Some(0),
            PixelFormat::Rgba => Some(2),
            PixelFormat::Bgra => Some(0),
            PixelFormat::Bgrx => Some(0),
        },
        ChannelRole::Alpha => match format {
            PixelFormat::Rgb => None,
            PixelFormat::Bgr => None,
            PixelFormat::Rgba => Some(3),
            PixelFormat::Bgra => Some(3),
            PixelFormat::Bgrx => None,
        },
        ChannelRole::Filler => None,
    }
}

} // verus!
