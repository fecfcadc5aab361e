use mrktools::imgtools::process_image;
use mrktools::{ColorTransform, Error, PixelImage};

fn rgb8(width: u32, height: u32, data: Vec<u8>) -> PixelImage {
    PixelImage::Rgb8 { width, height, data }
}

fn gray8(width: u32, height: u32, data: Vec<u8>) -> PixelImage {
    PixelImage::Gray8 { width, height, data }
}

#[test]
fn identity_returns_input_unchanged() {
    let img = rgb8(2, 1, vec![10, 200, 31, 0, 255, 128]);
    let out = process_image(&img, ColorTransform::Unchanged, 100).unwrap();
    assert_eq!(out, img);
}

#[test]
fn identity_holds_for_gray_and_rgb16() {
    let g = gray8(2, 2, vec![0, 63, 128, 255]);
    assert_eq!(process_image(&g, ColorTransform::Unchanged, 100).unwrap(), g);
    let w = PixelImage::Rgb16 {
        width: 1,
        height: 1,
        data: vec![0, 40000, 65535],
    };
    assert_eq!(process_image(&w, ColorTransform::Unchanged, 100).unwrap(), w);
}

#[test]
fn opacity_zero_makes_pure_white() {
    let img = rgb8(2, 1, vec![10, 200, 31, 0, 255, 128]);
    match process_image(&img, ColorTransform::Unchanged, 0).unwrap() {
        PixelImage::Rgb8 { data, .. } => assert!(data.iter().all(|&v| v == 255)),
        other => panic!("unexpected layout: {:?}", other),
    }
    let wide = PixelImage::Rgb16 {
        width: 1,
        height: 1,
        data: vec![0, 40000, 65535],
    };
    match process_image(&wide, ColorTransform::Unchanged, 0).unwrap() {
        PixelImage::Rgb16 { data, .. } => assert!(data.iter().all(|&v| v == 65535)),
        other => panic!("unexpected layout: {:?}", other),
    }
}

#[test]
fn opacity_fifty_lifts_dynamic_range() {
    // (50*c + 50*255 + 50)/100, rounded half up: every channel,
    // pure black included, lands at 128 or above.
    let data: Vec<u8> = (0..=255).map(|v| v as u8).collect();
    let img = gray8(256, 1, data);
    match process_image(&img, ColorTransform::Unchanged, 50).unwrap() {
        PixelImage::Gray8 { data, .. } => assert!(data.iter().all(|&v| v >= 128)),
        other => panic!("unexpected layout: {:?}", other),
    }
    let black = gray8(1, 1, vec![0]);
    match process_image(&black, ColorTransform::Unchanged, 50).unwrap() {
        PixelImage::Gray8 { data, .. } => assert_eq!(data, vec![128]),
        other => panic!("unexpected layout: {:?}", other),
    }
}

#[test]
fn opacity_formula_exact_values() {
    // (80*200 + 20*255 + 50)/100 = 211; (80*0 + 20*255 + 50)/100 = 51.
    let img = gray8(2, 1, vec![200, 0]);
    match process_image(&img, ColorTransform::Unchanged, 80).unwrap() {
        PixelImage::Gray8 { data, .. } => assert_eq!(data, vec![211, 51]),
        other => panic!("unexpected layout: {:?}", other),
    }
}

#[test]
fn grayscale_single_channel_exact_luma() {
    // (2126*255)/10000 = 54, (7152*255)/10000 = 182, (722*255)/10000 = 18.
    let img = rgb8(3, 1, vec![255, 0, 0, 0, 255, 0, 0, 0, 255]);
    match process_image(&img, ColorTransform::ToGrayscale, 100).unwrap() {
        PixelImage::Gray8 { width, height, data } => {
            assert_eq!((width, height), (3, 1));
            assert_eq!(data, vec![54, 182, 18]);
        }
        other => panic!("unexpected layout: {:?}", other),
    }
}

#[test]
fn grayscale_is_deterministic() {
    let img = rgb8(2, 2, vec![1, 2, 3, 4, 5, 6, 7, 8, 9, 10, 11, 12]);
    let a = process_image(&img, ColorTransform::ToGrayscale, 70).unwrap();
    let b = process_image(&img, ColorTransform::ToGrayscale, 70).unwrap();
    assert_eq!(a, b);
}

#[test]
fn grayscale_of_rgb16_is_eight_bit() {
    let img = PixelImage::Rgb16 {
        width: 1,
        height: 1,
        data: vec![65535, 65535, 65535],
    };
    match process_image(&img, ColorTransform::ToGrayscale, 100).unwrap() {
        PixelImage::Gray8 { data, .. } => assert_eq!(data, vec![255]),
        other => panic!("unexpected layout: {:?}", other),
    }
}

#[test]
fn black_and_white_is_two_level() {
    let img = gray8(4, 4, vec![128; 16]);
    match process_image(&img, ColorTransform::ToBlackAndWhite, 100).unwrap() {
        PixelImage::Gray8 { width, height, data } => {
            assert_eq!((width, height), (4, 4));
            assert!(data.iter().all(|&v| v == 0 || v == 255));
            // A mid-gray input must actually have been dithered.
            assert_ne!(data, vec![128; 16]);
        }
        other => panic!("unexpected layout: {:?}", other),
    }
}

#[test]
fn single_column_black_and_white_is_thresholded() {
    // The dither of the image crate cannot take a single column; such
    // an image is reduced by the plain two-level threshold instead.
    let img = gray8(1, 3, vec![0, 128, 200]);
    match process_image(&img, ColorTransform::ToBlackAndWhite, 100).unwrap() {
        PixelImage::Gray8 { width, height, data } => {
            assert_eq!((width, height), (1, 3));
            assert_eq!(data, vec![0, 255, 255]);
        }
        other => panic!("unexpected layout: {:?}", other),
    }
    let dot = gray8(1, 1, vec![127]);
    match process_image(&dot, ColorTransform::ToBlackAndWhite, 100).unwrap() {
        PixelImage::Gray8 { data, .. } => assert_eq!(data, vec![0]),
        other => panic!("unexpected layout: {:?}", other),
    }
}

#[test]
fn empty_image_stays_empty() {
    let img = gray8(0, 0, vec![]);
    for t in [
        ColorTransform::Unchanged,
        ColorTransform::ToGrayscale,
        ColorTransform::ToBlackAndWhite,
    ] {
        match process_image(&img, t, 50).unwrap() {
            PixelImage::Gray8 { width, height, data } => {
                assert_eq!((width, height), (0, 0));
                assert!(data.is_empty());
            }
            other => panic!("unexpected layout: {:?}", other),
        }
    }
}

#[test]
fn unsupported_layout_is_rejected() {
    let img = PixelImage::Unsupported;
    assert_eq!(
        process_image(&img, ColorTransform::Unchanged, 50),
        Err(Error::UnsupportedPixelFormat)
    );
    assert_eq!(
        process_image(&img, ColorTransform::ToGrayscale, 100),
        Err(Error::UnsupportedPixelFormat)
    );
    // With nothing to do there is nothing to reject.
    assert_eq!(
        process_image(&img, ColorTransform::Unchanged, 100),
        Ok(PixelImage::Unsupported)
    );
}
