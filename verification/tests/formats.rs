use image_convert::settings::svg_settings;
use image_convert::source_type::from_custom_mime_type;
use image_convert::{RasterKind, Settings, SourceType, SvgSettings};

#[test]
fn standard_mime_types_name_their_raster_kind() {
    let table = [
        ("image/avif", RasterKind::Avif),
        ("image/jpeg", RasterKind::Jpeg),
        ("image/png", RasterKind::Png),
        ("image/gif", RasterKind::Gif),
        ("image/webp", RasterKind::WebP),
        ("image/tiff", RasterKind::Tiff),
        ("image/x-targa", RasterKind::Tga),
        ("image/x-tga", RasterKind::Tga),
        ("image/vnd-ms.dds", RasterKind::Dds),
        ("image/bmp", RasterKind::Bmp),
        ("image/x-icon", RasterKind::Ico),
        ("image/vnd.microsoft.icon", RasterKind::Ico),
        ("image/vnd.radiance", RasterKind::Hdr),
        ("image/x-exr", RasterKind::OpenExr),
        ("image/x-portable-bitmap", RasterKind::Pnm),
        ("image/x-portable-graymap", RasterKind::Pnm),
        ("image/x-portable-pixmap", RasterKind::Pnm),
        ("image/x-portable-anymap", RasterKind::Pnm),
        ("image/x-qoi", RasterKind::Qoi),
    ];
    for (mime, kind) in table {
        assert_eq!(RasterKind::from_mime_type(mime), Some(kind), "{}", mime);
        assert_eq!(SourceType::from_mime_type(mime), Some(SourceType::Raster(kind)), "{}", mime);
    }
}

#[test]
fn unknown_mime_types_name_nothing() {
    for mime in ["", "image/PNG", "image/png ", "png", "text/plain", "image/farbfeld", "image/svg+xml"] {
        assert_eq!(RasterKind::from_mime_type(mime), None, "{:?}", mime);
    }
    for mime in ["", "image/PNG", "image/svg", "application/octet-stream"] {
        assert_eq!(SourceType::from_mime_type(mime), None, "{:?}", mime);
    }
}

#[test]
fn custom_source_types_are_recognized() {
    assert_eq!(SourceType::from_mime_type("image/svg+xml"), Some(SourceType::Svg));
    assert_eq!(
        SourceType::from_mime_type("image/farbfeld"),
        Some(SourceType::Raster(RasterKind::Farbfeld))
    );
    assert_eq!(from_custom_mime_type("image/svg+xml"), Some(SourceType::Svg));
    assert_eq!(
        from_custom_mime_type("image/farbfeld"),
        Some(SourceType::Raster(RasterKind::Farbfeld))
    );
    assert_eq!(from_custom_mime_type("image/png"), None);
    assert_eq!(from_custom_mime_type(""), None);
}

#[test]
fn every_codec_format_maps_back_to_its_kind() {
    let pairs = [
        (image::ImageFormat::Png, RasterKind::Png),
        (image::ImageFormat::Jpeg, RasterKind::Jpeg),
        (image::ImageFormat::Gif, RasterKind::Gif),
        (image::ImageFormat::WebP, RasterKind::WebP),
        (image::ImageFormat::Pnm, RasterKind::Pnm),
        (image::ImageFormat::Tiff, RasterKind::Tiff),
        (image::ImageFormat::Tga, RasterKind::Tga),
        (image::ImageFormat::Dds, RasterKind::Dds),
        (image::ImageFormat::Bmp, RasterKind::Bmp),
        (image::ImageFormat::Ico, RasterKind::Ico),
        (image::ImageFormat::Hdr, RasterKind::Hdr),
        (image::ImageFormat::OpenExr, RasterKind::OpenExr),
        (image::ImageFormat::Farbfeld, RasterKind::Farbfeld),
        (image::ImageFormat::Avif, RasterKind::Avif),
        (image::ImageFormat::Qoi, RasterKind::Qoi),
    ];
    for (format, kind) in pairs {
        assert_eq!(RasterKind::from_format(format), Some(kind));
    }
}

#[test]
fn default_svg_settings_are_100_by_100() {
    let settings = SvgSettings::default();
    assert_eq!(settings.width, 100);
    assert_eq!(settings.height, 100);
}

#[test]
fn svg_settings_come_from_the_payload_or_the_default() {
    assert_eq!(svg_settings(None), SvgSettings { width: 100, height: 100 });
    assert_eq!(
        svg_settings(Some(Settings::Svg(SvgSettings { width: 200, height: 150 }))),
        SvgSettings { width: 200, height: 150 }
    );
    assert_eq!(
        svg_settings(Some(Settings::Svg(SvgSettings { width: 0, height: 7 }))),
        SvgSettings { width: 0, height: 7 }
    );
}
