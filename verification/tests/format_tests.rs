use pixel_convert::color_format::{
    ChannelCount, ChannelSize, ChannelType, ColorFormat, ImageError,
};
use pixel_convert::container::ContainerKind;

#[test]
fn from_bit_count_returns_64bit() {
    let size = ChannelSize::from_bit_count(64).unwrap();
    assert_eq!(size, ChannelSize::_64bit);
}

#[test]
fn from_bit_count_maps_every_supported_width() {
    assert_eq!(ChannelSize::from_bit_count(8).unwrap(), ChannelSize::_8bit);
    assert_eq!(ChannelSize::from_bit_count(16).unwrap(), ChannelSize::_16bit);
    assert_eq!(ChannelSize::from_bit_count(32).unwrap(), ChannelSize::_32bit);
}

#[test]
fn from_bit_count_rejects_other_widths() {
    assert_eq!(
        ChannelSize::from_bit_count(7),
        Err(ImageError::InvalidChannelSize)
    );
    assert_eq!(
        ChannelSize::from_bit_count(0),
        Err(ImageError::InvalidChannelSize)
    );
    assert_eq!(
        ChannelSize::from_bit_count(128),
        Err(ImageError::InvalidChannelSize)
    );
}

#[test]
fn one_byte_float_format_fails_validation() {
    let fmt = ColorFormat::new(ChannelCount::Gray, ChannelSize::_8bit, ChannelType::Float);
    assert_eq!(fmt.validate(), Err(ImageError::UnsupportedFormat));
    let fmt = ColorFormat::new(ChannelCount::Rgba, ChannelSize::_16bit, ChannelType::Float);
    assert_eq!(fmt.validate(), Err(ImageError::UnsupportedFormat));
}

#[test]
fn wide_float_and_integer_formats_pass_validation() {
    assert_eq!(ColorFormat::gray_f32().validate(), Ok(()));
    assert_eq!(ColorFormat::rgba_f32().validate(), Ok(()));
    assert_eq!(ColorFormat::gray_u8().validate(), Ok(()));
    assert_eq!(ColorFormat::rgba_i8().validate(), Ok(()));
}

#[test]
fn display_name_is_canonical() {
    assert_eq!(ColorFormat::rgba_u8().display_name(), "Rgba_UInt8");
    assert_eq!(ColorFormat::gray_f32().display_name(), "Gray_Float32");
    assert_eq!(ColorFormat::rgb_i16().display_name(), "Rgb_Int16");
    assert_eq!(ColorFormat::gray_alpha_u8().display_name(), "GrayAlpha_UInt8");
}

#[test]
fn byte_count_is_channels_times_size() {
    assert_eq!(ColorFormat::gray_u8().byte_count(), 1);
    assert_eq!(ColorFormat::gray_alpha_u8().byte_count(), 2);
    assert_eq!(ColorFormat::rgb_u16().byte_count(), 6);
    assert_eq!(ColorFormat::rgba_u16().byte_count(), 8);
    assert_eq!(ChannelCount::Rgba.byte_count(ChannelSize::_64bit), 32);
    assert_eq!(ChannelCount::Rgb.channel_count(), 3);
    assert_eq!(ChannelSize::_32bit.byte_count(), 4);
}

#[test]
fn container_support_map_is_explicit() {
    assert!(ContainerKind::Png.supports(ColorFormat::rgba_u8()));
    assert!(ContainerKind::Png.supports(ColorFormat::gray_u16()));
    assert!(!ContainerKind::Png.supports(ColorFormat::gray_i8()));
    assert!(!ContainerKind::Png.supports(ColorFormat::rgba_f32()));
    assert!(ContainerKind::Jpeg.supports(ColorFormat::gray_u8()));
    assert!(ContainerKind::Jpeg.supports(ColorFormat::rgb_u8()));
    assert!(!ContainerKind::Jpeg.supports(ColorFormat::rgba_u8()));
    assert!(!ContainerKind::Jpeg.supports(ColorFormat::rgb_u16()));
    assert!(ContainerKind::Tiff.supports(ColorFormat::rgba_f32()));
    assert!(ContainerKind::Tiff.supports(ColorFormat::gray_i8()));
    let narrow_float =
        ColorFormat::new(ChannelCount::Gray, ChannelSize::_8bit, ChannelType::Float);
    assert!(!ContainerKind::Tiff.supports(narrow_float));
}
