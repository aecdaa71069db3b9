use ferrink::framebuffer::Rgb8Pixel;
use ferrink::images::{
    assemble_icon, check_image_file, convert_background_pixels, convert_icon_pixels,
    decode_application_icon, decode_launcher_background_png, inspect_background_png,
    inspect_launcher_background_png, load_application_icon, load_launcher_background_png,
    validate_background_info, ApplicationIconError, ImageFile, LauncherBackgroundImageError,
    PngFrame, PngHeader, Rgba8Pixel, BACKGROUND_BYTES, JACQUARD_HEIGHT, JACQUARD_WIDTH, PNG_COLOR8,
    PNG_GRAYSCALE, PNG_GRAYSCALE_ALPHA, PNG_IDENTITY, PNG_INDEXED, PNG_RGB, PNG_RGBA,
};

fn encode(
    width: u32,
    height: u32,
    color: png::ColorType,
    depth: png::BitDepth,
    data: &[u8],
) -> Vec<u8> {
    let mut bytes = Vec::new();
    let mut encoder = png::Encoder::new(&mut bytes, width, height);
    encoder.set_color(color);
    encoder.set_depth(depth);
    if color == png::ColorType::Indexed {
        encoder.set_palette(vec![10, 20, 30, 40, 50, 60]);
    }
    let mut writer = encoder.write_header().unwrap();
    writer.write_image_data(data).unwrap();
    writer.finish().unwrap();
    bytes
}

fn pixel(red: u8, green: u8, blue: u8, alpha: u8) -> Rgba8Pixel {
    Rgba8Pixel {
        red,
        green,
        blue,
        alpha,
    }
}

#[test]
fn reviewed_topography_asset_is_exact_rgb8() {
    let mut data = vec![0; BACKGROUND_BYTES];
    data[0] = 1;
    data[1] = 2;
    data[2] = 3;
    let input = encode(
        632,
        843,
        png::ColorType::Rgb,
        png::BitDepth::Eight,
        &data,
    );
    assert!(inspect_background_png(&input).is_ok());
    let pixels = decode_launcher_background_png(&input).unwrap();
    assert_eq!(
        pixels.len(),
        (JACQUARD_WIDTH as usize) * (JACQUARD_HEIGHT as usize)
    );
    assert_eq!(
        pixels[0],
        Rgb8Pixel {
            red: 1,
            green: 2,
            blue: 3,
        }
    );
    assert_eq!(pixels[1], Rgb8Pixel::default());
}

#[test]
fn backgrounds_of_another_shape_are_refused() {
    let small = encode(
        2,
        1,
        png::ColorType::Rgb,
        png::BitDepth::Eight,
        &[0; 6],
    );
    assert!(matches!(
        inspect_background_png(&small),
        Err(LauncherBackgroundImageError::InvalidFormat)
    ));
    let gray = encode(
        632,
        843,
        png::ColorType::Grayscale,
        png::BitDepth::Eight,
        &vec![7; 632 * 843],
    );
    let error = decode_launcher_background_png(&gray).unwrap_err();
    assert!(matches!(error, LauncherBackgroundImageError::InvalidFormat));
    assert_eq!(
        error.message(),
        "launcher background must be an exact 632×843 eight-bit RGB PNG"
    );
    let error = decode_launcher_background_png(b"not a png").unwrap_err();
    assert!(matches!(error, LauncherBackgroundImageError::Decode(_)));
    let text = error.message();
    assert!(text.starts_with("cannot decode launcher background: "));
    assert!(text.len() > "cannot decode launcher background: ".len());
    assert_eq!(
        LauncherBackgroundImageError::Io("gone".to_owned()).message(),
        "cannot read launcher background: gone"
    );
    let mut truncated = encode(
        632,
        843,
        png::ColorType::Rgb,
        png::BitDepth::Eight,
        &vec![9; BACKGROUND_BYTES],
    );
    truncated.truncate(200);
    assert!(inspect_background_png(&truncated).is_ok());
    assert!(matches!(
        decode_launcher_background_png(&truncated),
        Err(LauncherBackgroundImageError::Decode(_))
    ));
}

#[test]
fn background_headers_are_exact() {
    let header = PngHeader {
        width: 632,
        height: 843,
        color: PNG_RGB,
        depth: 8,
    };
    assert!(validate_background_info(header).is_ok());
    for wrong in [
        PngHeader {
            width: 633,
            ..header
        },
        PngHeader {
            height: 842,
            ..header
        },
        PngHeader {
            color: PNG_RGBA,
            ..header
        },
        PngHeader {
            depth: 16,
            ..header
        },
    ] {
        assert!(validate_background_info(wrong).is_err());
    }
    let frame = PngFrame {
        color: PNG_RGB,
        depth: 8,
        bytes: vec![1; BACKGROUND_BYTES],
    };
    assert_eq!(
        convert_background_pixels(&frame).unwrap().len() * 3,
        BACKGROUND_BYTES
    );
    let short = PngFrame {
        bytes: vec![1; 3],
        ..frame
    };
    assert!(convert_background_pixels(&short).is_none());
}

#[test]
fn icons_of_every_color_type_become_rgba() {
    let count = 64 * 64;
    let rgba = decode_application_icon(&encode(
        64,
        64,
        png::ColorType::Rgba,
        png::BitDepth::Eight,
        &[1, 2, 3, 4].repeat(count),
    ))
    .unwrap();
    assert_eq!((rgba.width, rgba.height), (64, 64));
    assert_eq!(rgba.pixels, vec![pixel(1, 2, 3, 4); count]);
    let rgb = decode_application_icon(&encode(
        64,
        64,
        png::ColorType::Rgb,
        png::BitDepth::Eight,
        &[1, 2, 3].repeat(count),
    ))
    .unwrap();
    assert_eq!(rgb.pixels, vec![pixel(1, 2, 3, 255); count]);
    let gray = decode_application_icon(&encode(
        64,
        64,
        png::ColorType::Grayscale,
        png::BitDepth::Eight,
        &vec![9; count],
    ))
    .unwrap();
    assert_eq!(gray.pixels, vec![pixel(9, 9, 9, 255); count]);
    let alpha = decode_application_icon(&encode(
        64,
        64,
        png::ColorType::GrayscaleAlpha,
        png::BitDepth::Eight,
        &[9, 8].repeat(count),
    ))
    .unwrap();
    assert_eq!(alpha.pixels, vec![pixel(9, 9, 9, 8); count]);
    let deep = decode_application_icon(&encode(
        64,
        64,
        png::ColorType::Grayscale,
        png::BitDepth::Sixteen,
        &[7, 200].repeat(count),
    ))
    .unwrap();
    assert_eq!(deep.pixels, vec![pixel(7, 7, 7, 255); count]);
    let indexed = decode_application_icon(&encode(
        64,
        64,
        png::ColorType::Indexed,
        png::BitDepth::Eight,
        &vec![1; count],
    ))
    .unwrap();
    assert_eq!(indexed.pixels, vec![pixel(40, 50, 60, 255); count]);
}

#[test]
fn icons_must_be_bounded_squares() {
    for (width, height) in [(63, 63), (513, 513), (64, 65)] {
        let input = encode(
            width,
            height,
            png::ColorType::Grayscale,
            png::BitDepth::Eight,
            &vec![0; (width * height) as usize],
        );
        let error = decode_application_icon(&input).unwrap_err();
        assert_eq!(
            error.message(),
            format!(
                "application icon is {width}×{height}; \
                 expected a square edge from 64 to 512 pixels"
            )
        );
    }
    let error = decode_application_icon(b"").unwrap_err();
    assert!(matches!(error, ApplicationIconError::Decode(_)));
    assert!(error
        .message()
        .starts_with("cannot decode application icon PNG: "));
    assert_eq!(
        ApplicationIconError::Io("gone".to_owned()).message(),
        "cannot read application icon: gone"
    );
}

#[test]
fn frames_must_fill_the_icon() {
    let header = PngHeader {
        width: 64,
        height: 64,
        color: PNG_GRAYSCALE,
        depth: 8,
    };
    let short = PngFrame {
        color: PNG_GRAYSCALE,
        depth: 8,
        bytes: vec![0; 64 * 63],
    };
    let error = assemble_icon(header, &short).unwrap_err();
    assert!(matches!(error, ApplicationIconError::InvalidPixelLayout));
    assert_eq!(
        error.message(),
        "application icon has an unsupported normalized pixel layout"
    );
    let indexed = PngFrame {
        color: PNG_INDEXED,
        depth: 8,
        bytes: vec![0; 64 * 64],
    };
    assert!(assemble_icon(header, &indexed).is_err());
    assert_eq!(
        convert_icon_pixels(PNG_GRAYSCALE_ALPHA, &[1, 2, 3]),
        Some(vec![pixel(1, 1, 1, 2)])
    );
    assert_eq!(convert_icon_pixels(PNG_INDEXED, &[1]), None);
}

#[test]
fn image_files_are_bounded() {
    assert!(check_image_file(true, 1, 1_048_576));
    assert!(check_image_file(true, 1_048_576, 1_048_576));
    assert!(!check_image_file(true, 1_048_577, 1_048_576));
    assert!(!check_image_file(true, 0, 1_048_576));
    assert!(!check_image_file(false, 1, 1_048_576));
}

#[test]
fn refused_files_are_not_decoded() {
    let background = encode(
        632,
        843,
        png::ColorType::Rgb,
        png::BitDepth::Eight,
        &vec![9; BACKGROUND_BYTES],
    );
    let icon = encode(
        64,
        64,
        png::ColorType::Rgb,
        png::BitDepth::Eight,
        &[9; 64 * 64 * 3],
    );
    let file = |bytes: &Vec<u8>| ImageFile {
        is_regular: true,
        length: bytes.len() as u64,
        bytes: bytes.clone(),
    };
    assert!(inspect_launcher_background_png(&file(&background)).is_ok());
    let pixels = load_launcher_background_png(&file(&background)).unwrap();
    assert_eq!(pixels.len(), 532_776);
    assert!(load_application_icon(&file(&icon)).is_ok());
    assert!(matches!(
        inspect_launcher_background_png(&file(&icon)),
        Err(LauncherBackgroundImageError::InvalidFormat)
    ));
    for refusal in [
        ImageFile {
            is_regular: false,
            ..file(&background)
        },
        ImageFile {
            length: 0,
            ..file(&background)
        },
        ImageFile {
            length: 1_048_577,
            ..file(&background)
        },
    ] {
        for error in [
            inspect_launcher_background_png(&refusal).unwrap_err(),
            load_launcher_background_png(&refusal).unwrap_err(),
        ] {
            assert_eq!(
                error.message(),
                "cannot read launcher background: background must be a non-empty regular file \
                 no larger than 1 MiB"
            );
        }
        let icon_refusal = ImageFile {
            bytes: icon.clone(),
            ..refusal
        };
        assert!(matches!(
            load_application_icon(&icon_refusal),
            Err(ApplicationIconError::Io(error))
                if error == "icon must be a non-empty regular file no larger than 1 MiB"
        ));
    }
}

#[test]
fn codes_agree_with_the_png_crate() {
    assert_eq!(PNG_COLOR8, png::Transformations::normalize_to_color8().bits());
    assert_eq!(PNG_IDENTITY, png::Transformations::IDENTITY.bits());
    assert_eq!(PNG_GRAYSCALE, png::ColorType::Grayscale as u8);
    assert_eq!(PNG_RGB, png::ColorType::Rgb as u8);
    assert_eq!(PNG_INDEXED, png::ColorType::Indexed as u8);
    assert_eq!(PNG_GRAYSCALE_ALPHA, png::ColorType::GrayscaleAlpha as u8);
    assert_eq!(PNG_RGBA, png::ColorType::Rgba as u8);
}
