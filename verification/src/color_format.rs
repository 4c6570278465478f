//! The pixel format model: channel count, channel size and channel
//! representation, combined into a `ColorFormat`, together with the
//! error taxonomy of the library.

use vstd::prelude::*;

verus! {

/// Number of color channels in one pixel.
#[derive(Clone, Copy, Debug, Hash, PartialEq, Eq, Structural)]
pub enum ChannelCount {
    Gray,
    GrayAlpha,
    Rgb,
    Rgba,
}

/// Width of one channel sample, in bytes.
#[derive(Clone, Copy, Debug, Hash, PartialEq, Eq, Structural)]
pub enum ChannelSize {
    _8bit,
    _16bit,
    _32bit,
    _64bit,
}

/// Numeric representation of one channel sample.
#[derive(Clone, Copy, Debug, Hash, PartialEq, Eq, Structural)]
pub enum ChannelType {
    UInt,
    Float,
    Int,
}

/// A pixel format: how many channels a pixel has, how wide each channel
/// sample is, and how a sample is to be interpreted numerically.
#[derive(Clone, Copy, Debug, Hash, PartialEq, Eq, Structural)]
pub struct ColorFormat {
    pub channel_count: ChannelCount,
    pub channel_size: ChannelSize,
    pub channel_type: ChannelType,
}

/// Everything that can go wrong in the format model, the image buffer and
/// the conversion engine.
#[derive(Clone, Copy, Debug, PartialEq, Eq, Structural)]
pub enum ImageError {
    /// The format breaks a format-model invariant (a 1- or 2-byte float).
    UnsupportedFormat,
    /// A bit count that is not 8, 16, 32 or 64.
    InvalidChannelSize,
    /// A (size, representation) pair the engine has no conversion for.
    /// Unreachable through validated formats; kept as a defensive variant.
    InvalidChannelRepresentation,
    /// A byte buffer whose length does not match its descriptor.
    ShapeMismatch,
    /// A conversion that would have to re-encode float samples. The verified
    /// engine covers integer samples; float transcoding is left to the
    /// unverified front-end.
    FloatConversion,
}

impl ChannelCount {
    /// The number of channels as a mathematical value.
    pub open spec fn spec_channels(self) -> nat {
        match self {
            ChannelCount::Gray => 1,
            ChannelCount::GrayAlpha => 2,
            ChannelCount::Rgb => 3,
            ChannelCount::Rgba => 4,
        }
    }

    /// The number of channels per pixel.
    pub fn channel_count(&self) -> (n: u32)
        ensures
            n == self.spec_channels(),
    {
        match self {
            ChannelCount::Gray => 1,
            ChannelCount::GrayAlpha => 2,
            ChannelCount::Rgb => 3,
            ChannelCount::Rgba => 4,
        }
    }

    /// Bytes per pixel for this channel count at the given channel size.
    pub fn byte_count(&self, channel_size: ChannelSize) -> (n: u32)
        ensures
            n == self.spec_channels() * channel_size.spec_bytes(),
    {
        self.channel_count() * channel_size.byte_count()
    }
}

impl ChannelSize {
    /// The sample width in bytes as a mathematical value.
    pub open spec fn spec_bytes(self) -> nat {
        match self {
            ChannelSize::_8bit => 1,
            ChannelSize::_16bit => 2,
            ChannelSize::_32bit => 4,
            ChannelSize::_64bit => 8,
        }
    }

    /// The sample width in bytes.
    pub fn byte_count(&self) -> (n: u32)
        ensures
            n == self.spec_bytes(),
    {
        match self {
            ChannelSize::_8bit => 1,
            ChannelSize::_16bit => 2,
            ChannelSize::_32bit => 4,
            ChannelSize::_64bit => 8,
        }
    }

    /// Maps a bit count in {8, 16, 32, 64} to its size tag; any other bit
    /// count is an invalid-input error.
    pub fn from_bit_count(bit_count: u32) -> (r: Result<ChannelSize, ImageError>)
        ensures
            bit_count == 8 ==> r == Ok::<ChannelSize, ImageError>(ChannelSize::_8bit),
            bit_count == 16 ==> r == Ok::<ChannelSize, ImageError>(ChannelSize::_16bit),
            bit_count == 32 ==> r == Ok::<ChannelSize, ImageError>(ChannelSize::_32bit),
            bit_count == 64 ==> r == Ok::<ChannelSize, ImageError>(ChannelSize::_64bit),
            !(bit_count == 8 || bit_count == 16 || bit_count == 32 || bit_count == 64)
                ==> r == Err::<ChannelSize, ImageError>(ImageError::InvalidChannelSize),
    {
        match bit_count {
            8 => Ok(ChannelSize::_8bit),
            16 => Ok(ChannelSize::_16bit),
            32 => Ok(ChannelSize::_32bit),
            64 => Ok(ChannelSize::_64bit),
            _ => Err(ImageError::InvalidChannelSize),
        }
    }
}

impl ColorFormat {
    /// Bytes per pixel: channel count times channel size.
    pub open spec fn spec_byte_count(self) -> nat {
        self.channel_count.spec_channels() * self.channel_size.spec_bytes()
    }

    /// A format is valid unless it asks for a 1- or 2-byte float sample.
    pub open spec fn spec_valid(self) -> bool {
        self.channel_type == ChannelType::Float ==> self.channel_size.spec_bytes() >= 4
    }

    /// Builds a format from its three components.
    pub fn new(
        channel_count: ChannelCount,
        channel_size: ChannelSize,
        channel_type: ChannelType,
    ) -> (r: ColorFormat)
        ensures
            r == (ColorFormat { channel_count, channel_size, channel_type }),
    {
        ColorFormat { channel_count, channel_size, channel_type }
    }

    /// Bytes per pixel.
    pub fn byte_count(&self) -> (n: u32)
        ensures
            n == self.spec_byte_count(),
            1 <= n <= 32,
    {
        self.channel_count.byte_count(self.channel_size)
    }

    /// Single-channel gray, 8-bit unsigned samples.
    pub fn gray_u8() -> (r: ColorFormat)
        ensures
            r == (ColorFormat {
                channel_count: ChannelCount::Gray,
                channel_size: ChannelSize::_8bit,
                channel_type: ChannelType::UInt,
            }),
    {
        ColorFormat {
            channel_count: ChannelCount::Gray,
            channel_size: ChannelSize::_8bit,
            channel_type: ChannelType::UInt,
        }
    }

    /// Single-channel gray, 16-bit unsigned samples.
    pub fn gray_u16() -> (r: ColorFormat)
        ensures
            r == (ColorFormat {
                channel_count: ChannelCount::Gray,
                channel_size: ChannelSize::_16bit,
                channel_type: ChannelType::UInt,
            }),
    {
        ColorFormat {
            channel_count: ChannelCount::Gray,
            channel_size: ChannelSize::_16bit,
            channel_type: ChannelType::UInt,
        }
    }

    /// Single-channel gray, 8-bit signed samples.
    pub fn gray_i8() -> (r: ColorFormat)
        ensures
            r == (ColorFormat {
                channel_count: ChannelCount::Gray,
                channel_size: ChannelSize::_8bit,
                channel_type: ChannelType::Int,
            }),
    {
        ColorFormat {
            channel_count: ChannelCount::Gray,
            channel_size: ChannelSize::_8bit,
            channel_type: ChannelType::Int,
        }
    }

    /// Single-channel gray, 32-bit float samples.
    pub fn gray_f32() -> (r: ColorFormat)
        ensures
            r == (ColorFormat {
                channel_count: ChannelCount::Gray,
                channel_size: ChannelSize::_32bit,
                channel_type: ChannelType::Float,
            }),
    {
        ColorFormat {
            channel_count: ChannelCount::Gray,
            channel_size: ChannelSize::_32bit,
            channel_type: ChannelType::Float,
        }
    }

    /// Gray plus alpha, 8-bit unsigned samples.
    pub fn gray_alpha_u8() -> (r: ColorFormat)
        ensures
            r == (ColorFormat {
                channel_count: ChannelCount::GrayAlpha,
                channel_size: ChannelSize::_8bit,
                channel_type: ChannelType::UInt,
            }),
    {
        ColorFormat {
            channel_count: ChannelCount::GrayAlpha,
            channel_size: ChannelSize::_8bit,
            channel_type: ChannelType::UInt,
        }
    }

    /// Red, green and blue, 8-bit unsigned samples.
    pub fn rgb_u8() -> (r: ColorFormat)
        ensures
            r == (ColorFormat {
                channel_count: ChannelCount::Rgb,
                channel_size: ChannelSize::_8bit,
                channel_type: ChannelType::UInt,
            }),
    {
        ColorFormat {
            channel_count: ChannelCount::Rgb,
            channel_size: ChannelSize::_8bit,
            channel_type: ChannelType::UInt,
        }
    }

    /// Red, green and blue, 16-bit unsigned samples.
    pub fn rgb_u16() -> (r: ColorFormat)
        ensures
            r == (ColorFormat {
                channel_count: ChannelCount::Rgb,
                channel_size: ChannelSize::_16bit,
                channel_type: ChannelType::UInt,
            }),
    {
        ColorFormat {
            channel_count: ChannelCount::Rgb,
            channel_size: ChannelSize::_16bit,
            channel_type: ChannelType::UInt,
        }
    }

    /// Red, green and blue, 16-bit signed samples.
    pub fn rgb_i16() -> (r: ColorFormat)
        ensures
            r == (ColorFormat {
                channel_count: ChannelCount::Rgb,
                channel_size: ChannelSize::_16bit,
                channel_type: ChannelType::Int,
            }),
    {
        ColorFormat {
            channel_count: ChannelCount::Rgb,
            channel_size: ChannelSize::_16bit,
            channel_type: ChannelType::Int,
        }
    }

    /// Red, green, blue and alpha, 8-bit unsigned samples.
    pub fn rgba_u8() -> (r: ColorFormat)
        ensures
            r == (ColorFormat {
                channel_count: ChannelCount::Rgba,
                channel_size: ChannelSize::_8bit,
                channel_type: ChannelType::UInt,
            }),
    {
        ColorFormat {
            channel_count: ChannelCount::Rgba,
            channel_size: ChannelSize::_8bit,
            channel_type: ChannelType::UInt,
        }
    }

    /// Red, green, blue and alpha, 8-bit signed samples.
    pub fn rgba_i8() -> (r: ColorFormat)
        ensures
            r == (ColorFormat {
                channel_count: ChannelCount::Rgba,
                channel_size: ChannelSize::_8bit,
                channel_type: ChannelType::Int,
            }),
    {
        ColorFormat {
            channel_count: ChannelCount::Rgba,
            channel_size: ChannelSize::_8bit,
            channel_type: ChannelType::Int,
        }
    }

    /// Red, green, blue and alpha, 16-bit unsigned samples.
    pub fn rgba_u16() -> (r: ColorFormat)
        ensures
            r == (ColorFormat {
                channel_count: ChannelCount::Rgba,
                channel_size: ChannelSize::_16bit,
                channel_type: ChannelType::UInt,
            }),
    {
        ColorFormat {
            channel_count: ChannelCount::Rgba,
            channel_size: ChannelSize::_16bit,
            channel_type: ChannelType::UInt,
        }
    }

    /// Red, green, blue and alpha, 32-bit float samples.
    pub fn rgba_f32() -> (r: ColorFormat)
        ensures
            r == (ColorFormat {
                channel_count: ChannelCount::Rgba,
                channel_size: ChannelSize::_32bit,
                channel_type: ChannelType::Float,
            }),
    {
        ColorFormat {
            channel_count: ChannelCount::Rgba,
            channel_size: ChannelSize::_32bit,
            channel_type: ChannelType::Float,
        }
    }

    /// The count part of the canonical display name.
    pub open spec fn spec_count_name(c: ChannelCount) -> Seq<char> {
        match c {
            ChannelCount::Gray => "Gray"@,
            ChannelCount::GrayAlpha => "GrayAlpha"@,
            ChannelCount::Rgb => "Rgb"@,
            ChannelCount::Rgba => "Rgba"@,
        }
    }

    /// The representation part of the canonical display name.
    pub open spec fn spec_type_name(t: ChannelType) -> Seq<char> {
        match t {
            ChannelType::UInt => "UInt"@,
            ChannelType::Float => "Float"@,
            ChannelType::Int => "Int"@,
        }
    }

    /// The bit-width part of the canonical display name.
    pub open spec fn spec_size_name(s: ChannelSize) -> Seq<char> {
        match s {
            ChannelSize::_8bit => "8"@,
            ChannelSize::_16bit => "16"@,
            ChannelSize::_32bit => "32"@,
            ChannelSize::_64bit => "64"@,
        }
    }

    /// The canonical display name of a format.
    pub open spec fn spec_display_name(self) -> Seq<char> {
        Self::spec_count_name(self.channel_count) + "_"@ + Self::spec_type_name(self.channel_type)
            + Self::spec_size_name(self.channel_size)
    }

    /// Canonical display name composed from count, representation and bit
    /// width, "Rgba_UInt8" say; used only for diagnostics.
    pub fn display_name(&self) -> (r: String)
        ensures
            r@ == self.spec_display_name(),
    {
        let mut s = String::from_str(match self.channel_count {
            ChannelCount::Gray => "Gray",
            ChannelCount::GrayAlpha => "GrayAlpha",
            ChannelCount::Rgb => "Rgb",
            ChannelCount::Rgba => "Rgba",
        });
        s.append("_");
        s.append(match self.channel_type {
            ChannelType::UInt => "UInt",
            ChannelType::Float => "Float",
            ChannelType::Int => "Int",
        });
        s.append(match self.channel_size {
            ChannelSize::_8bit => "8",
            ChannelSize::_16bit => "16",
            ChannelSize::_32bit => "32",
            ChannelSize::_64bit => "64",
        });
        s
    }

    /// Checks the format-model invariant: floats narrower than 4 bytes are
    /// rejected, every other combination is accepted.
    pub fn validate(&self) -> (r: Result<(), ImageError>)
        ensures
            self.spec_valid() ==> r == Ok::<(), ImageError>(()),
            !self.spec_valid() ==> r == Err::<(), ImageError>(ImageError::UnsupportedFormat),
    {
        if self.channel_type == ChannelType::Float {
            match self.channel_size {
                ChannelSize::_8bit | ChannelSize::_16bit => {
                    return Err(ImageError::UnsupportedFormat);
                },
                _ => {},
            }
        }
        Ok(())
    }
}

} // verus!
