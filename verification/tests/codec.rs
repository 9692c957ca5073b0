use xero_core::codec::{encode_jpeg_rgba, CodecError};

#[test]
fn round_trip_decodes_to_expected_dimensions() {
    let width = 32;
    let height = 16;
    let mut rgba = Vec::with_capacity((width * height * 4) as usize);
    for y in 0..height {
        for x in 0..width {
            rgba.push((x * 8) as u8);
            rgba.push((y * 16) as u8);
            rgba.push(((x + y) * 4) as u8);
            rgba.push(255);
        }
    }

    let jpeg = encode_jpeg_rgba(&rgba, width, height).expect("encode");
    assert_eq!(&jpeg[..3], &[0xFF, 0xD8, 0xFF]);

    let decoded = image::load_from_memory_with_format(&jpeg, image::ImageFormat::Jpeg).expect("decode");
    assert_eq!(decoded.width(), width);
    assert_eq!(decoded.height(), height);
}

#[test]
fn rejects_mismatched_rgba_length() {
    let err = encode_jpeg_rgba(&[0; 10], 4, 4).unwrap_err();
    match err {
        CodecError::InvalidRgbaSize { width, height, expected, actual } => {
            assert_eq!(width, 4);
            assert_eq!(height, 4);
            assert_eq!(expected, 64);
            assert_eq!(actual, 10);
        }
        _ => panic!("expected InvalidRgbaSize, got {err:?}"),
    }
}
