use snippet::popup::{popup_position, PopupBounds, WorkArea};
use snippet::screen::{
    encode_capture, prepare_capture, resize_bounds, resize_if_needed, ScreenCaptureError,
    MAX_IMAGE_EDGE,
};

#[test]
fn resizes_only_large_images() {
    assert_eq!(resize_bounds(3_840, 2_160), Some((MAX_IMAGE_EDGE, MAX_IMAGE_EDGE)));
    assert_eq!(resize_bounds(800, 600), None);
    assert_eq!(resize_bounds(1_920, 1_920), None);
    assert_eq!(resize_bounds(1_000, 1_921), Some((1_920, 1_920)));
}

#[test]
fn reduces_large_images_without_upscaling_small_ones() {
    let large = vec![0u8; 3_840 * 2_160 * 4];
    let (pixels, width, height) = resize_if_needed(large, 3_840, 2_160);
    assert_eq!(width, MAX_IMAGE_EDGE);
    assert_eq!(height, 1_080);
    assert_eq!(pixels.len(), 1_920 * 1_080 * 4);

    let small = vec![7u8; 800 * 600 * 4];
    let (unchanged, width, height) = resize_if_needed(small.clone(), 800, 600);
    assert_eq!((width, height), (800, 600));
    assert_eq!(unchanged, small);
}

#[test]
fn scales_a_tall_image_by_its_height() {
    let tall = vec![255u8; 10 * 3_000 * 4];
    let (pixels, width, height) = resize_if_needed(tall, 10, 3_000);
    assert_eq!((width, height), (6, 1_920));
    assert_eq!(pixels.len(), 6 * 1_920 * 4);
}

#[test]
fn prepares_a_capture_as_png_in_base64() {
    let rgba = vec![
        255, 0, 0, 255, 0, 255, 0, 255, //
        0, 0, 255, 255, 255, 255, 255, 0,
    ];
    let (image, preview) = prepare_capture(rgba, 2, 2).expect("a small image encodes");
    // The PNG signature, 0x89 'P' 'N' 'G' CR LF 0x1A LF, in Base64.
    assert!(image.png_base64.starts_with("iVBORw0KGgo"));
    assert_eq!(preview.data_url, format!("data:image/png;base64,{}", image.png_base64));
    assert_eq!((preview.width, preview.height), (2, 2));
}

#[test]
fn a_capture_without_pixels_is_refused() {
    assert_eq!(prepare_capture(Vec::new(), 0, 0).err(), Some(ScreenCaptureError::Capture));
}

#[test]
fn encodes_base64_with_padding() {
    assert_eq!(encode_capture(b"f", 1, 1).0.png_base64, "Zg==");
    assert_eq!(encode_capture(b"fo", 1, 1).0.png_base64, "Zm8=");
    assert_eq!(encode_capture(b"foobar", 1, 1).0.png_base64, "Zm9vYmFy");
    assert_eq!(encode_capture(b"", 1, 1).0.png_base64, "");
}

#[test]
fn encodes_a_capture_for_the_model_and_the_preview() {
    let (image, preview) = encode_capture(b"PNG!", 3, 2);
    assert_eq!(image.png_base64, "UE5HIQ==");
    assert_eq!(preview.data_url, "data:image/png;base64,UE5HIQ==");
    assert_eq!((preview.width, preview.height), (3, 2));
}

#[test]
fn describes_screen_errors() {
    assert_eq!(
        ScreenCaptureError::Capture.user_message(),
        "Snippet could not capture the current screen. Try again."
    );
    assert_eq!(
        ScreenCaptureError::CursorUnavailable.user_message(),
        "Snippet could not locate the current monitor."
    );
}

#[test]
fn places_the_popup_beside_the_cursor_inside_the_work_area() {
    let bounds = PopupBounds {
        area: WorkArea { x: 0, y: 0, width: 1920, height: 1040 },
        window_width: 400,
        window_height: 300,
    };
    assert_eq!(popup_position(100, 100, Some(bounds)), (114, 118));
    assert_eq!(popup_position(1900, 1030, Some(bounds)), (1520, 740));
    assert_eq!(popup_position(-50, -50, Some(bounds)), (0, 0));
    assert_eq!(popup_position(100, 100, None), (114, 118));
    let tiny = PopupBounds {
        area: WorkArea { x: 10, y: 20, width: 100, height: 100 },
        window_width: 400,
        window_height: 300,
    };
    assert_eq!(popup_position(500, 500, Some(tiny)), (10, 20));
}
