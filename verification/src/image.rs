//! The image buffer: a geometry-and-format descriptor paired with the raw
//! bytes it describes, laid out row-major with interleaved channels and no
//! sub-pixel padding.

use vstd::prelude::*;

use crate::color_format::{ChannelType, ColorFormat, ImageError};
use crate::transcode::{spec_converted_bytes, transcode_bytes};

verus! {

/// Keeps the stride as computed from the width; the hook where a row
/// alignment policy would go. The current policy applies no padding.
fn align_stride(n: u32) -> (r: u32)
    ensures
        r == n,
{
    n
}

/// Geometry and format of an image: width and height in pixels, row stride
/// in bytes, and the pixel format.
#[derive(Clone, Debug, PartialEq, Eq, Structural)]
pub struct ImageDesc {
    pub width: u32,
    pub height: u32,
    pub stride: u32,
    pub color_format: ColorFormat,
}

/// An image: a descriptor and an exclusively owned byte buffer of exactly
/// the size the descriptor calls for.
#[derive(Clone)]
pub struct Image {
    pub desc: ImageDesc,
    pub bytes: Vec<u8>,
}

impl ImageDesc {
    /// Rows are packed: the stride is exactly the bytes of one row of
    /// pixels, and the whole buffer size stays within `u32`.
    pub open spec fn wf(self) -> bool {
        &&& self.stride == self.width * self.color_format.spec_byte_count()
        &&& self.height * self.stride <= u32::MAX
    }

    /// Total buffer size in bytes: height times stride.
    pub open spec fn spec_size_in_bytes(self) -> int {
        self.height * self.stride
    }

    /// Builds a descriptor for the given geometry and format. The stride is
    /// exactly `width` times the pixel byte size.
    pub fn new(width: u32, height: u32, color_format: ColorFormat) -> (r: ImageDesc)
        requires
            width * color_format.spec_byte_count() <= u32::MAX,
            height * (width * color_format.spec_byte_count()) <= u32::MAX,
        ensures
            r == (ImageDesc {
                width,
                height,
                stride: (width * color_format.spec_byte_count()) as u32,
                color_format,
            }),
            r.wf(),
    {
        let stride = align_stride(width * color_format.byte_count());
        ImageDesc { width, height, stride, color_format }
    }

    /// Total buffer size in bytes.
    pub fn size_in_bytes(&self) -> (n: u32)
        requires
            self.height * self.stride <= u32::MAX,
        ensures
            n == self.spec_size_in_bytes(),
    {
        self.height * self.stride
    }

    pub fn width(&self) -> (n: u32)
        ensures
            n == self.width,
    {
        self.width
    }

    pub fn height(&self) -> (n: u32)
        ensures
            n == self.height,
    {
        self.height
    }

    pub fn stride(&self) -> (n: u32)
        ensures
            n == self.stride,
    {
        self.stride
    }

    pub fn color_format(&self) -> (f: ColorFormat)
        ensures
            f == self.color_format,
    {
        self.color_format
    }
}

impl Image {
    /// The buffer length matches the descriptor exactly.
    pub open spec fn wf(self) -> bool {
        &&& self.desc.wf()
        &&& self.bytes@.len() == self.desc.spec_size_in_bytes()
    }

    /// Creates a zero-filled image of the size the descriptor calls for.
    /// Fails when the format breaks the format-model invariant.
    pub fn new_empty(desc: ImageDesc) -> (r: Result<Image, ImageError>)
        requires
            desc.wf(),
        ensures
            desc.color_format.spec_valid() ==> {
                &&& r is Ok
                &&& r->Ok_0.desc == desc
                &&& r->Ok_0.bytes@ == Seq::new(desc.spec_size_in_bytes() as nat, |i: int| 0u8)
                &&& r->Ok_0.wf()
            },
            !desc.color_format.spec_valid() ==> r == Err::<Image, ImageError>(
                ImageError::UnsupportedFormat,
            ),
    {
        if let Err(e) = desc.color_format.validate() {
            return Err(e);
        }
        let total = desc.size_in_bytes() as usize;
        let mut bytes: Vec<u8> = Vec::new();
        let mut k: usize = 0;
        while k < total
            invariant
                k <= total,
                bytes@ == Seq::new(k as nat, |i: int| 0u8),
            decreases total - k,
        {
            bytes.push(0u8);
            k = k + 1;
            assert(bytes@ =~= Seq::new(k as nat, |i: int| 0u8));
        }
        Ok(Image { desc, bytes })
    }

    /// Creates an image over a caller-supplied buffer. Fails when the format
    /// breaks the format-model invariant, and with a shape mismatch when the
    /// buffer length is not exactly the size the descriptor calls for.
    pub fn new_with_data(desc: ImageDesc, bytes: Vec<u8>) -> (r: Result<Image, ImageError>)
        requires
            desc.wf(),
        ensures
            !desc.color_format.spec_valid() ==> r == Err::<Image, ImageError>(
                ImageError::UnsupportedFormat,
            ),
            desc.color_format.spec_valid() && bytes@.len() != desc.spec_size_in_bytes()
                ==> r == Err::<Image, ImageError>(ImageError::ShapeMismatch),
            desc.color_format.spec_valid() && bytes@.len() == desc.spec_size_in_bytes() ==> {
                &&& r is Ok
                &&& r->Ok_0.desc == desc
                &&& r->Ok_0.bytes@ == bytes@
                &&& r->Ok_0.wf()
            },
    {
        if let Err(e) = desc.color_format.validate() {
            return Err(e);
        }
        if bytes.len() != desc.size_in_bytes() as usize {
            return Err(ImageError::ShapeMismatch);
        }
        Ok(Image { desc, bytes })
    }

    /// Re-encodes the pixel data into the target format.
    ///
    /// An invalid target is rejected. A target equal to the source format
    /// returns the image unchanged, bytes untouched. When only integer
    /// samples are involved, every pixel is transcoded: values are
    /// converted between representations and widths, and channels are
    /// remapped, exactly as [`spec_converted_bytes`] lays the buffer out;
    /// this includes the pairs where source and target share channel count
    /// and width but differ in representation, whose samples are still
    /// converted. A conversion that would have to re-encode float samples
    /// is left to the unverified front-end and reported here as an error.
    pub fn convert(self, color_format: ColorFormat) -> (r: Result<Image, ImageError>)
        requires
            self.wf(),
            self.desc.width * color_format.spec_byte_count() <= u32::MAX,
            self.desc.height * (self.desc.width * color_format.spec_byte_count()) <= u32::MAX,
        ensures
            !color_format.spec_valid() ==> r == Err::<Image, ImageError>(
                ImageError::UnsupportedFormat,
            ),
            color_format.spec_valid() && self.desc.color_format == color_format ==> r == Ok::<
                Image,
                ImageError,
            >(self),
            color_format.spec_valid() && self.desc.color_format != color_format && (
            self.desc.color_format.channel_type == ChannelType::Float
                || color_format.channel_type == ChannelType::Float) ==> r == Err::<
                Image,
                ImageError,
            >(ImageError::FloatConversion),
            color_format.spec_valid() && self.desc.color_format != color_format
                && self.desc.color_format.channel_type != ChannelType::Float
                && color_format.channel_type != ChannelType::Float ==> {
                &&& r is Ok
                &&& r->Ok_0.desc == (ImageDesc {
                    width: self.desc.width,
                    height: self.desc.height,
                    stride: (self.desc.width * color_format.spec_byte_count()) as u32,
                    color_format,
                })
                &&& r->Ok_0.bytes@ == spec_converted_bytes(self.bytes@, self.desc, color_format)
                &&& r->Ok_0.wf()
            },
    {
        if let Err(e) = color_format.validate() {
            return Err(e);
        }
        if self.desc.color_format == color_format {
            return Ok(self);
        }
        if self.desc.color_format.channel_type == ChannelType::Float
            || color_format.channel_type == ChannelType::Float {
            return Err(ImageError::FloatConversion);
        }
        let desc = ImageDesc::new(self.desc.width, self.desc.height, color_format);
        let bytes = transcode_bytes(&self, color_format);
        Ok(Image { desc, bytes })
    }

    /// Bytes of one pixel in this image's format.
    pub fn bytes_per_pixel(&self) -> (n: u32)
        ensures
            n == self.desc.color_format.spec_byte_count(),
    {
        self.desc.color_format.byte_count()
    }
}

} // verus!
