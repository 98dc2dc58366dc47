use pomodorust::icon::{decode_icon, row_stride};

fn tiny_png() -> Vec<u8> {
    let mut img = image::RgbaImage::new(2, 1);
    img.put_pixel(0, 0, image::Rgba([255, 0, 0, 255]));
    img.put_pixel(1, 0, image::Rgba([0, 0, 255, 128]));
    let mut out = std::io::Cursor::new(Vec::new());
    img.write_to(&mut out, image::ImageFormat::Png).unwrap();
    out.into_inner()
}

#[test]
fn decodes_the_pixels() {
    let png = tiny_png();
    let (px, w, h) = decode_icon(&png).unwrap();
    assert_eq!((w, h), (2, 1));
    assert_eq!(px, vec![255, 0, 0, 255, 0, 0, 255, 128]);
    assert_ne!(px, png);
}

#[test]
fn rejects_what_is_no_image() {
    assert!(decode_icon(b"not an image").is_none());
}

#[test]
fn row_strides() {
    assert_eq!(row_stride(128), Some(512));
    assert_eq!(row_stride(0x2000_0000), None);
}
