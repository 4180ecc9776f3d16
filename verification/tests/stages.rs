use image::{DynamicImage, GenericImageView, ImageFormat};
use image_convert::layout::{height, layout, width};
use image_convert::pipeline::{load_raster, load_sniffed, target_fixup, Fixup, ICON_SIDE};
use image_convert::{
    load_image, process_image, write_image, ConvertError, PixelLayout, RasterKind, Settings,
    SourceType, SvgSettings,
};
use std::io::Cursor;

const ALL_KINDS: [RasterKind; 15] = [
    RasterKind::Png,
    RasterKind::Jpeg,
    RasterKind::Gif,
    RasterKind::WebP,
    RasterKind::Pnm,
    RasterKind::Tiff,
    RasterKind::Tga,
    RasterKind::Dds,
    RasterKind::Bmp,
    RasterKind::Ico,
    RasterKind::Hdr,
    RasterKind::OpenExr,
    RasterKind::Farbfeld,
    RasterKind::Avif,
    RasterKind::Qoi,
];

fn gradient(width: u32, height: u32) -> DynamicImage {
    DynamicImage::ImageRgba8(image::RgbaImage::from_fn(width, height, |x, y| {
        image::Rgba([(x * 3) as u8, (y * 5) as u8, 77, 200])
    }))
}

fn bytes_of(img: &DynamicImage, format: ImageFormat) -> Vec<u8> {
    let mut out = Vec::new();
    img.write_to(&mut Cursor::new(&mut out), format).unwrap();
    out
}

fn samples() -> Vec<DynamicImage> {
    vec![
        gradient(64, 64),
        gradient(300, 20),
        DynamicImage::new_luma8(5, 9),
        DynamicImage::new_luma_a16(31, 2),
        DynamicImage::new_rgb16(256, 256),
        DynamicImage::new_rgb32f(7, 7),
        DynamicImage::new_rgba32f(1, 1),
    ]
}

#[test]
fn every_target_has_its_fixup() {
    for kind in ALL_KINDS {
        let expected = match kind {
            RasterKind::Jpeg
            | RasterKind::Qoi
            | RasterKind::Farbfeld
            | RasterKind::Pnm
            | RasterKind::Tga => Fixup::DropAlpha,
            RasterKind::Ico => Fixup::Icon,
            RasterKind::OpenExr => Fixup::Float,
            _ => Fixup::Keep,
        };
        assert_eq!(target_fixup(kind), expected, "{:?}", kind);
    }
    assert_eq!(ICON_SIDE, 256);
}

#[test]
fn radiance_source_is_brought_to_rgba8() {
    for img in samples() {
        for target in [
            None,
            Some(RasterKind::Png),
            Some(RasterKind::Gif),
            Some(RasterKind::WebP),
            Some(RasterKind::Tiff),
            Some(RasterKind::Bmp),
            Some(RasterKind::Hdr),
            Some(RasterKind::Ico),
        ] {
            let out = process_image(img.clone(), Some(RasterKind::Hdr), target);
            assert_eq!(out.color(), image::ColorType::Rgba8, "{:?}", target);
        }
        let out = process_image(img.clone(), Some(RasterKind::Hdr), Some(RasterKind::Jpeg));
        assert_eq!(out.color(), image::ColorType::Rgb8);
        let out = process_image(img.clone(), Some(RasterKind::Hdr), Some(RasterKind::OpenExr));
        assert_eq!(out.color(), image::ColorType::Rgba32F);
    }
}

#[test]
fn radiance_fixup_converts_the_pixels() {
    let img = DynamicImage::ImageRgb32F(image::Rgb32FImage::from_pixel(
        2,
        2,
        image::Rgb([1.0, 0.0, 1.0]),
    ));
    let out = process_image(img, Some(RasterKind::Hdr), Some(RasterKind::Png));
    assert_eq!(out.as_rgba8().unwrap().get_pixel(1, 1), &image::Rgba([255, 0, 255, 255]));
}

#[test]
fn icon_target_is_always_256_by_256() {
    for img in samples() {
        for source in [None, Some(RasterKind::Png), Some(RasterKind::Hdr)] {
            let layout = img.color();
            let out = process_image(img.clone(), source, Some(RasterKind::Ico));
            assert_eq!(out.dimensions(), (256, 256));
            if source == Some(RasterKind::Hdr) {
                assert_eq!(out.color(), image::ColorType::Rgba8);
            } else {
                assert_eq!(out.color(), layout);
            }
        }
    }
}

#[test]
fn icon_target_stretches_the_picture() {
    let img = DynamicImage::ImageRgba8(image::RgbaImage::from_fn(4, 2, |x, _| {
        if x < 2 {
            image::Rgba([255, 0, 0, 255])
        } else {
            image::Rgba([0, 0, 255, 255])
        }
    }));
    let out = process_image(img, None, Some(RasterKind::Ico));
    assert_eq!(out.dimensions(), (256, 256));
    let left = out.get_pixel(10, 250);
    assert!(left.0[0] > 200 && left.0[2] < 50, "{:?}", left);
    let right = out.get_pixel(245, 5);
    assert!(right.0[0] < 50 && right.0[2] > 200, "{:?}", right);
}

#[test]
fn alpha_free_targets_get_rgb8() {
    for img in samples() {
        for target in [
            RasterKind::Jpeg,
            RasterKind::Qoi,
            RasterKind::Farbfeld,
            RasterKind::Pnm,
            RasterKind::Tga,
        ] {
            for source in [None, Some(RasterKind::Png), Some(RasterKind::Hdr)] {
                let out = process_image(img.clone(), source, Some(target));
                assert_eq!(out.color(), image::ColorType::Rgb8);
                assert!(!out.color().has_alpha());
                assert_eq!(out.dimensions(), img.dimensions());
            }
        }
    }
}

#[test]
fn alpha_free_fixup_keeps_the_colours() {
    let out = process_image(gradient(8, 8), None, Some(RasterKind::Jpeg));
    assert_eq!(out.as_rgb8().unwrap().get_pixel(2, 3), &image::Rgb([6, 15, 77]));
}

#[test]
fn float_target_gets_rgba32f() {
    for img in samples() {
        let out = process_image(img.clone(), Some(RasterKind::Png), Some(RasterKind::OpenExr));
        assert_eq!(out.color(), image::ColorType::Rgba32F);
        assert_eq!(out.dimensions(), img.dimensions());
    }
    let out = process_image(gradient(2, 2), None, Some(RasterKind::OpenExr));
    let pixel = out.as_rgba32f().unwrap().get_pixel(0, 0);
    assert_eq!(pixel.0[3], 200.0 / 255.0);
}

#[test]
fn other_targets_take_the_image_as_it_is() {
    for img in samples() {
        for target in [
            None,
            Some(RasterKind::Png),
            Some(RasterKind::Gif),
            Some(RasterKind::WebP),
            Some(RasterKind::Tiff),
            Some(RasterKind::Dds),
            Some(RasterKind::Bmp),
            Some(RasterKind::Hdr),
            Some(RasterKind::Avif),
        ] {
            for source in [None, Some(RasterKind::Png), Some(RasterKind::OpenExr)] {
                let out = process_image(img.clone(), source, target);
                assert_eq!(out, img);
            }
        }
    }
}

#[test]
fn size_is_kept_for_every_target_but_the_icon() {
    for img in samples() {
        for target in ALL_KINDS {
            let out = process_image(img.clone(), None, Some(target));
            if target == RasterKind::Ico {
                assert_eq!(out.dimensions(), (256, 256));
            } else {
                assert_eq!(out.dimensions(), img.dimensions());
            }
        }
    }
}

#[test]
fn round_trip_through_a_target_keeps_the_size() {
    let sources = [
        (RasterKind::Png, ImageFormat::Png),
        (RasterKind::Bmp, ImageFormat::Bmp),
        (RasterKind::Tiff, ImageFormat::Tiff),
        (RasterKind::Qoi, ImageFormat::Qoi),
    ];
    let targets = [
        RasterKind::Png,
        RasterKind::Jpeg,
        RasterKind::Gif,
        RasterKind::WebP,
        RasterKind::Pnm,
        RasterKind::Tiff,
        RasterKind::Tga,
        RasterKind::Bmp,
        RasterKind::Qoi,
    ];
    for (width, height) in [(64, 64), (37, 5), (1, 1)] {
        for (source, source_format) in sources {
            let input = bytes_of(&gradient(width, height), source_format);
            for target in targets {
                let loaded = load_image(&input, Some(SourceType::Raster(source)), None).unwrap();
                let prepared = process_image(loaded, Some(source), Some(target));
                let there = write_image(&prepared, Some(target)).unwrap();

                let back = load_image(&there, Some(SourceType::Raster(target)), None).unwrap();
                assert_eq!(back.dimensions(), (width, height), "{:?} {:?}", source, target);
                let prepared = process_image(back, Some(target), Some(source));
                let again = write_image(&prepared, Some(source)).unwrap();
                let last = load_image(&again, Some(SourceType::Raster(source)), None).unwrap();
                assert_eq!(last.dimensions(), (width, height), "{:?} {:?}", source, target);
            }
        }
    }
}

#[test]
fn output_is_written_in_the_target_format() {
    let img = gradient(16, 16);
    let cases = [
        (RasterKind::Png, ImageFormat::Png),
        (RasterKind::Gif, ImageFormat::Gif),
        (RasterKind::WebP, ImageFormat::WebP),
        (RasterKind::Tiff, ImageFormat::Tiff),
        (RasterKind::Bmp, ImageFormat::Bmp),
        (RasterKind::Ico, ImageFormat::Ico),
        (RasterKind::Jpeg, ImageFormat::Jpeg),
        (RasterKind::Qoi, ImageFormat::Qoi),
        (RasterKind::Pnm, ImageFormat::Pnm),
        (RasterKind::OpenExr, ImageFormat::OpenExr),
    ];
    for (kind, format) in cases {
        let prepared = process_image(img.clone(), None, Some(kind));
        let bytes = write_image(&prepared, Some(kind)).unwrap();
        assert_eq!(image::guess_format(&bytes).unwrap(), format, "{:?}", kind);
        assert_eq!(bytes, bytes_of(&prepared, format));
    }
}

#[test]
fn missing_target_is_written_as_png() {
    let img = gradient(9, 4);
    let bytes = write_image(&img, None).unwrap();
    assert_eq!(image::guess_format(&bytes).unwrap(), ImageFormat::Png);
    assert_eq!(bytes, bytes_of(&img, ImageFormat::Png));
    assert_eq!(image::load_from_memory(&bytes).unwrap(), img);
}

#[test]
fn encoder_failure_is_a_library_error() {
    match write_image(&gradient(4, 4), Some(RasterKind::Dds)) {
        Err(ConvertError::LibError(_)) => {}
        other => panic!("expected a library error, got {:?}", other),
    }
    match write_image(&gradient(300, 300), Some(RasterKind::Ico)) {
        Err(ConvertError::LibError(_)) => {}
        other => panic!("expected a library error, got {:?}", other),
    }
}

#[test]
fn raster_source_is_decoded_as_named() {
    let img = gradient(12, 7);
    let png = bytes_of(&img, ImageFormat::Png);
    assert_eq!(load_image(&png, Some(SourceType::Raster(RasterKind::Png)), None).unwrap(), img);
    assert_eq!(load_raster(&png, RasterKind::Png).unwrap(), img);

    let tga = bytes_of(&img, ImageFormat::Tga);
    assert_eq!(load_raster(&tga, RasterKind::Tga).unwrap(), img);

    match load_image(&png, Some(SourceType::Raster(RasterKind::Jpeg)), None) {
        Err(ConvertError::LibError(_)) => {}
        other => panic!("expected a library error, got {:?}", other),
    }
    match load_raster(b"", RasterKind::Bmp) {
        Err(ConvertError::LibError(_)) => {}
        other => panic!("expected a library error, got {:?}", other),
    }
}

#[test]
fn settings_are_ignored_for_raster_sources() {
    let img = gradient(12, 7);
    let png = bytes_of(&img, ImageFormat::Png);
    let settings = Some(Settings::Svg(SvgSettings { width: 0, height: 0 }));
    let loaded = load_image(&png, Some(SourceType::Raster(RasterKind::Png)), settings).unwrap();
    assert_eq!(loaded, img);
    assert_eq!(load_image(&png, None, settings).unwrap(), img);
}

#[test]
fn missing_source_kind_is_read_off_the_bytes() {
    let img = gradient(12, 7);
    for format in [ImageFormat::Png, ImageFormat::Bmp, ImageFormat::Qoi, ImageFormat::Tiff] {
        let bytes = bytes_of(&img, format);
        assert_eq!(load_image(&bytes, None, None).unwrap(), img);
        assert_eq!(load_sniffed(&bytes).unwrap(), img);
    }
}

#[test]
fn unrecognized_bytes_are_an_unknown_file_type() {
    for bytes in [&b"arbitrary bytes, no signature"[..], &b""[..], &[0u8, 1, 2, 3][..]] {
        match load_image(bytes, None, None) {
            Err(ConvertError::UnknownFileType(text)) => {
                assert_eq!(text, "The image format could not be determined")
            }
            other => panic!("expected an unknown file type, got {:?}", other),
        }
    }
}

#[test]
fn recognized_but_broken_bytes_are_an_unknown_file_type() {
    let broken = b"\x89PNG\r\n\x1a\nnothing of a PNG follows";
    let expected = image::load_from_memory_with_format(broken, ImageFormat::Png)
        .unwrap_err()
        .to_string();
    match load_image(broken, None, None) {
        Err(ConvertError::UnknownFileType(text)) => assert_eq!(text, expected),
        other => panic!("expected an unknown file type, got {:?}", other),
    }
}

#[test]
fn vector_source_is_rasterized_at_the_settings_or_the_default() {
    let svg = br##"<svg xmlns="http://www.w3.org/2000/svg" width="10" height="10"><rect width="10" height="10" fill="#ff0000"/></svg>"##;
    let loaded = load_image(svg, Some(SourceType::Svg), None).unwrap();
    assert_eq!(loaded.dimensions(), (100, 100));
    assert_eq!(loaded.color(), image::ColorType::Rgba8);
    assert_eq!(loaded.get_pixel(50, 50), image::Rgba([255, 0, 0, 255]));

    let settings = Some(Settings::Svg(SvgSettings { width: 200, height: 150 }));
    let loaded = load_image(svg, Some(SourceType::Svg), settings).unwrap();
    assert_eq!(loaded.dimensions(), (200, 150));
    assert_eq!(loaded.get_pixel(140, 140), image::Rgba([255, 0, 0, 255]));
    assert_eq!(loaded.get_pixel(180, 10), image::Rgba([0, 0, 0, 0]));
}

#[test]
fn vector_source_failures_are_passed_on() {
    match load_image(b"<svg", Some(SourceType::Svg), None) {
        Err(ConvertError::SvgError(_)) => {}
        other => panic!("expected a parse error, got {:?}", other),
    }
    let settings = Some(Settings::Svg(SvgSettings { width: 10, height: 0 }));
    match load_image(b"<svg", Some(SourceType::Svg), settings) {
        Err(ConvertError::EncodingError(text)) => assert_eq!(text, "invalid size"),
        other => panic!("expected an encoding error, got {:?}", other),
    }
}

#[test]
fn size_and_layout_are_those_of_the_image() {
    let cases = [
        (DynamicImage::new_luma8(5, 9), PixelLayout::L8),
        (DynamicImage::new_luma_a8(1, 2), PixelLayout::La8),
        (DynamicImage::new_rgb8(3, 4), PixelLayout::Rgb8),
        (DynamicImage::new_rgba8(64, 64), PixelLayout::Rgba8),
        (DynamicImage::new_luma16(7, 1), PixelLayout::L16),
        (DynamicImage::new_luma_a16(31, 2), PixelLayout::La16),
        (DynamicImage::new_rgb16(256, 256), PixelLayout::Rgb16),
        (DynamicImage::new_rgba16(2, 300), PixelLayout::Rgba16),
        (DynamicImage::new_rgb32f(7, 7), PixelLayout::Rgb32F),
        (DynamicImage::new_rgba32f(1, 1), PixelLayout::Rgba32F),
    ];
    for (img, expected) in cases {
        assert_eq!(layout(&img), expected);
        assert_eq!((width(&img), height(&img)), img.dimensions());
    }
    assert_eq!(width(&gradient(300, 20)), 300);
    assert_eq!(height(&gradient(300, 20)), 20);
}

#[test]
fn prepared_image_reports_the_normalized_size_and_layout() {
    let out = process_image(gradient(300, 20), None, Some(RasterKind::Ico));
    assert_eq!((width(&out), height(&out)), (256, 256));
    assert_eq!(layout(&out), PixelLayout::Rgba8);
    let out = process_image(gradient(300, 20), None, Some(RasterKind::Jpeg));
    assert_eq!((width(&out), height(&out)), (300, 20));
    assert_eq!(layout(&out), PixelLayout::Rgb8);
    let out = process_image(DynamicImage::new_luma16(3, 3), None, Some(RasterKind::OpenExr));
    assert_eq!(layout(&out), PixelLayout::Rgba32F);
    let out = process_image(DynamicImage::new_luma16(3, 3), Some(RasterKind::Hdr), None);
    assert_eq!(layout(&out), PixelLayout::Rgba8);
}

#[test]
fn preparing_again_for_the_same_target_changes_nothing() {
    for img in samples() {
        for target in ALL_KINDS {
            if target == RasterKind::Ico {
                continue;
            }
            for source in [None, Some(RasterKind::Png), Some(RasterKind::Hdr)] {
                let once = process_image(img.clone(), source, Some(target));
                let twice = process_image(once.clone(), None, Some(target));
                assert_eq!(twice, once, "{:?} {:?}", source, target);
                let twice = process_image(once.clone(), Some(target), Some(target));
                if target != RasterKind::Hdr {
                    assert_eq!(twice, once, "{:?} {:?}", source, target);
                }
            }
        }
    }
}

#[test]
fn image_already_in_the_layout_comes_back_unchanged() {
    let rgb = DynamicImage::ImageRgb8(gradient(9, 9).to_rgb8());
    assert_eq!(process_image(rgb.clone(), None, Some(RasterKind::Jpeg)), rgb);
    let rgba = gradient(9, 9);
    assert_eq!(process_image(rgba.clone(), Some(RasterKind::Hdr), Some(RasterKind::Png)), rgba);
    let float = DynamicImage::ImageRgba32F(gradient(9, 9).to_rgba32f());
    assert_eq!(process_image(float.clone(), None, Some(RasterKind::OpenExr)), float);
}
