//! The container-facing side of the format model: which pixel formats each
//! supported container kind can encode. The encoders and decoders
//! themselves are outside collaborators; this map is total and explicit,
//! so a format is either encodable or rejected before any bytes are
//! written.

use vstd::prelude::*;

use crate::color_format::{ChannelCount, ChannelSize, ChannelType, ColorFormat};

verus! {

/// An on-disk container format.
#[derive(Clone, Copy, Debug, PartialEq, Eq, Structural)]
pub enum ContainerKind {
    Png,
    Jpeg,
    Tiff,
}

impl ContainerKind {
    /// Which formats the container has a native encoding for: PNG takes
    /// unsigned 8- and 16-bit samples at any channel count, JPEG only
    /// unsigned 8-bit gray and RGB, TIFF every valid format.
    pub open spec fn spec_supports(self, f: ColorFormat) -> bool {
        match self {
            ContainerKind::Png => f.channel_type == ChannelType::UInt && (f.channel_size
                == ChannelSize::_8bit || f.channel_size == ChannelSize::_16bit),
            ContainerKind::Jpeg => f.channel_type == ChannelType::UInt && f.channel_size
                == ChannelSize::_8bit && (f.channel_count == ChannelCount::Gray || f.channel_count
                == ChannelCount::Rgb),
            ContainerKind::Tiff => f.spec_valid(),
        }
    }

    /// Whether an image in `format` can be handed to this container's
    /// encoder at all.
    pub fn supports(&self, format: ColorFormat) -> (r: bool)
        ensures
            r == self.spec_supports(format),
    {
        match self {
            ContainerKind::Png => {
                format.channel_type == ChannelType::UInt && (format.channel_size
                    == ChannelSize::_8bit || format.channel_size == ChannelSize::_16bit)
            },
            ContainerKind::Jpeg => {
                format.channel_type == ChannelType::UInt && format.channel_size
                    == ChannelSize::_8bit && (format.channel_count == ChannelCount::Gray
                    || format.channel_count == ChannelCount::Rgb)
            },
            ContainerKind::Tiff => format.validate().is_ok(),
        }
    }
}

} // verus!
