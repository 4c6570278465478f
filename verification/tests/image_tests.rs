use pixel_convert::color_format::{ChannelCount, ChannelSize, ChannelType, ColorFormat, ImageError};
use pixel_convert::conversion::{u16_to_i16, u8_to_i8, u8_to_u16};
use pixel_convert::image::{Image, ImageDesc};

#[test]
fn new_empty_builds_a_zero_filled_buffer() {
    let desc = ImageDesc::new(2, 2, ColorFormat::rgb_u8());
    assert_eq!(desc.width(), 2);
    assert_eq!(desc.height(), 2);
    assert_eq!(desc.stride(), 6);
    assert_eq!(desc.size_in_bytes(), 12);
    let img = Image::new_empty(desc).unwrap();
    assert_eq!(img.bytes, vec![0u8; 12]);
    assert_eq!(img.bytes_per_pixel(), 3);
}

#[test]
fn new_empty_rejects_an_invalid_format() {
    let fmt = ColorFormat::new(ChannelCount::Gray, ChannelSize::_8bit, ChannelType::Float);
    let desc = ImageDesc::new(1, 1, fmt);
    assert_eq!(
        Image::new_empty(desc).err(),
        Some(ImageError::UnsupportedFormat)
    );
}

#[test]
fn new_with_data_wrong_length_fails() {
    let desc = ImageDesc::new(1, 1, ColorFormat::gray_u16());
    let r = Image::new_with_data(desc, vec![0u8; 3]);
    assert_eq!(r.err(), Some(ImageError::ShapeMismatch));
}

#[test]
fn identity_conversion_returns_the_same_bytes() {
    let desc = ImageDesc::new(2, 1, ColorFormat::rgba_u8());
    let src = Image::new_with_data(desc, vec![1, 2, 3, 4, 5, 6, 7, 8]).unwrap();
    let result = src.convert(ColorFormat::rgba_u8()).unwrap();
    assert_eq!(result.bytes, vec![1, 2, 3, 4, 5, 6, 7, 8]);
    assert_eq!(result.desc.color_format(), ColorFormat::rgba_u8());
}

#[test]
fn float_conversion_is_reported() {
    let desc = ImageDesc::new(1, 1, ColorFormat::gray_u8());
    let src = Image::new_with_data(desc, vec![10]).unwrap();
    let r = src.convert(ColorFormat::gray_f32());
    assert_eq!(r.err(), Some(ImageError::FloatConversion));
}

#[test]
fn convert_rejects_an_invalid_target() {
    let desc = ImageDesc::new(1, 1, ColorFormat::gray_u8());
    let src = Image::new_with_data(desc, vec![10]).unwrap();
    let bad = ColorFormat::new(ChannelCount::Gray, ChannelSize::_16bit, ChannelType::Float);
    assert_eq!(src.convert(bad).err(), Some(ImageError::UnsupportedFormat));
}

#[test]
fn gray_expansion_defaults_alpha_to_max() {
    let desc = ImageDesc::new(1, 1, ColorFormat::gray_u8());
    let src = Image::new_with_data(desc, vec![200]).unwrap();
    let ga = src.clone().convert(ColorFormat::gray_alpha_u8()).unwrap();
    assert_eq!(ga.bytes, vec![200, 255]);
    let rgba = src.convert(ColorFormat::rgba_u8()).unwrap();
    assert_eq!(rgba.bytes, vec![200, 200, 200, 255]);
}

#[test]
fn rgb_to_gray_averages_before_converting() {
    let desc = ImageDesc::new(1, 1, ColorFormat::rgb_u8());
    let src = Image::new_with_data(desc, vec![0, 90, 255]).unwrap();
    let gray = src.convert(ColorFormat::gray_u8()).unwrap();
    assert_eq!(gray.bytes, vec![115]);
}

#[test]
fn gray_u8_to_gray_u16_replicates_into_both_bytes() {
    let desc = ImageDesc::new(1, 1, ColorFormat::gray_u8());
    let src = Image::new_with_data(desc, vec![200]).unwrap();
    let wide = src.convert(ColorFormat::gray_u16()).unwrap();
    assert_eq!(wide.desc.stride(), 2);
    assert_eq!(wide.bytes, u8_to_u16(200).to_le_bytes().to_vec());
}

#[test]
fn two_by_two_uses_both_strides() {
    // Two rows of two RGB pixels; dropping to gray shrinks the stride from
    // six bytes to two.
    let desc = ImageDesc::new(2, 2, ColorFormat::rgb_u8());
    let src = Image::new_with_data(
        desc,
        vec![0, 90, 255, 10, 10, 10, 30, 60, 90, 255, 255, 255],
    )
    .unwrap();
    let gray = src.convert(ColorFormat::gray_u8()).unwrap();
    assert_eq!(gray.desc.stride(), 2);
    assert_eq!(gray.bytes, vec![115, 10, 60, 255]);
}

#[test]
fn rgba_to_gray_alpha_averages_and_copies_alpha() {
    let desc = ImageDesc::new(1, 1, ColorFormat::rgba_u8());
    let src = Image::new_with_data(desc, vec![0, 90, 255, 7]).unwrap();
    let ga = src.convert(ColorFormat::gray_alpha_u8()).unwrap();
    assert_eq!(ga.bytes, vec![115, 7]);
}

#[test]
fn gray_alpha_to_rgba_replicates_and_copies_alpha() {
    let desc = ImageDesc::new(1, 1, ColorFormat::gray_alpha_u8());
    let src = Image::new_with_data(desc, vec![5, 200]).unwrap();
    let rgba = src.convert(ColorFormat::rgba_u8()).unwrap();
    assert_eq!(rgba.bytes, vec![5, 5, 5, 200]);
}

#[test]
fn rgba_to_rgb_drops_alpha() {
    let desc = ImageDesc::new(1, 1, ColorFormat::rgba_u8());
    let src = Image::new_with_data(desc, vec![1, 2, 3, 200]).unwrap();
    let rgb = src.convert(ColorFormat::rgb_u8()).unwrap();
    assert_eq!(rgb.bytes, vec![1, 2, 3]);
}

#[test]
fn rgb_to_rgba_defaults_alpha_to_max() {
    let desc = ImageDesc::new(1, 1, ColorFormat::rgb_u8());
    let src = Image::new_with_data(desc, vec![1, 2, 3]).unwrap();
    let rgba = src.convert(ColorFormat::rgba_u8()).unwrap();
    assert_eq!(rgba.bytes, vec![1, 2, 3, 255]);
}

#[test]
fn gray_u16_to_gray_u8_keeps_the_high_byte() {
    let desc = ImageDesc::new(1, 1, ColorFormat::gray_u16());
    let src = Image::new_with_data(desc, 0xabcdu16.to_le_bytes().to_vec()).unwrap();
    let narrow = src.convert(ColorFormat::gray_u8()).unwrap();
    assert_eq!(narrow.bytes, vec![0xab]);
}

#[test]
fn gray_u8_to_gray_u64_replicates_into_every_byte() {
    let desc = ImageDesc::new(1, 1, ColorFormat::gray_u8());
    let src = Image::new_with_data(desc, vec![0xab]).unwrap();
    let wide = src
        .convert(ColorFormat::new(
            ChannelCount::Gray,
            ChannelSize::_64bit,
            ChannelType::UInt,
        ))
        .unwrap();
    assert_eq!(wide.bytes, vec![0xab; 8]);
}

#[test]
fn convert_rgba_u8_to_rgba_i8() {
    let desc = ImageDesc::new(1, 1, ColorFormat::rgba_u8());
    let src = Image::new_with_data(desc, vec![0, 128, 255, 64]).unwrap();
    let result = src.convert(ColorFormat::rgba_i8()).unwrap();
    assert_eq!(result.desc.color_format(), ColorFormat::rgba_i8());
    let expected_vals = [u8_to_i8(0), u8_to_i8(128), u8_to_i8(255), u8_to_i8(64)];
    let expected_bytes: Vec<u8> = bytemuck::cast_slice(&expected_vals).to_vec();
    assert_eq!(result.bytes, expected_bytes);
}

#[test]
fn convert_rgb_u16_to_rgb_i16() {
    let desc = ImageDesc::new(1, 1, ColorFormat::rgb_u16());
    let src =
        Image::new_with_data(desc, bytemuck::cast_slice(&[0u16, 32768, 65535]).to_vec()).unwrap();
    let result = src.convert(ColorFormat::rgb_i16()).unwrap();
    assert_eq!(result.desc.color_format(), ColorFormat::rgb_i16());
    let expected_vals = [u16_to_i16(0), u16_to_i16(32768), u16_to_i16(65535)];
    let expected_bytes: Vec<u8> = bytemuck::cast_slice(&expected_vals).to_vec();
    assert_eq!(result.bytes, expected_bytes);
}

#[test]
fn convert_gray_u8_to_gray_i8() {
    let desc = ImageDesc::new(1, 1, ColorFormat::gray_u8());
    let src = Image::new_with_data(desc, vec![200]).unwrap();
    let result = src.convert(ColorFormat::gray_i8()).unwrap();
    assert_eq!(result.desc.color_format(), ColorFormat::gray_i8());
    let expected_val = u8_to_i8(200);
    let expected_bytes: Vec<u8> = bytemuck::cast_slice(&[expected_val]).to_vec();
    assert_eq!(result.bytes, expected_bytes);
}
