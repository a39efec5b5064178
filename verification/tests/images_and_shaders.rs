use fidget_vk::bitmap::{bitmap_from_decoded, decode_image, icon_image};
use fidget_vk::shader::spirv_words;

fn png_bytes(width: u32, height: u32, pixels: Vec<u8>) -> Vec<u8> {
    let img = image::RgbaImage::from_raw(width, height, pixels).unwrap();
    let mut out = std::io::Cursor::new(Vec::new());
    img.write_to(&mut out, image::ImageFormat::Png).unwrap();
    out.into_inner()
}

#[test]
fn decoding_a_png_gives_its_pixels() {
    let pixels = vec![255, 0, 0, 255, 0, 255, 0, 128, 0, 0, 255, 0];
    let bytes = png_bytes(3, 1, pixels.clone());
    let bitmap = decode_image(&bytes).expect("decodes");
    assert_eq!(bitmap.width(), 3);
    assert_eq!(bitmap.height(), 1);
    assert_eq!(bitmap.pixels(), pixels.as_slice());
    assert_eq!(bitmap.texel(1, 0), (0, 255, 0, 128));
    assert_eq!(bitmap.texel(2, 0), (0, 0, 255, 0));
}

#[test]
fn texels_are_found_row_by_row() {
    let pixels: Vec<u8> = (0..24).collect();
    let bitmap = decode_image(&png_bytes(3, 2, pixels)).unwrap();
    assert_eq!(bitmap.texel(0, 1), (12, 13, 14, 15));
    assert_eq!(bitmap.texel(2, 1), (20, 21, 22, 23));
}

#[test]
fn bytes_that_are_no_image_do_not_decode() {
    assert!(decode_image(&[]).is_none());
    assert!(decode_image(b"not an image at all").is_none());
}

#[test]
fn a_decoded_buffer_must_cover_every_pixel() {
    assert!(bitmap_from_decoded(None).is_none());
    assert!(bitmap_from_decoded(Some((2, 2, vec![0; 15]))).is_none());
    let b = bitmap_from_decoded(Some((2, 2, vec![7; 16]))).unwrap();
    assert_eq!((b.width(), b.height(), b.pixels().len()), (2, 2, 16));
    let empty = bitmap_from_decoded(Some((0, 5, Vec::new()))).unwrap();
    assert_eq!(empty.width(), 0);
}

#[test]
fn the_icon_is_scaled_to_the_icon_size() {
    let pixels = vec![200u8; 8 * 4 * 4];
    let bytes = png_bytes(8, 4, pixels);
    let icon = icon_image(&bytes, 32, 20).unwrap();
    assert_eq!((icon.width(), icon.height()), (20, 20));
    assert_eq!(icon.pixels().len(), 20 * 20 * 4);
    let small = icon_image(&bytes, 2, 2).unwrap();
    assert_eq!((small.width(), small.height()), (16, 16));
    let big = icon_image(&bytes, 500, 400).unwrap();
    assert_eq!((big.width(), big.height()), (64, 64));
    assert!(icon_image(b"garbage", 16, 16).is_none());
}

#[test]
fn spirv_bytes_pack_little_endian() {
    let spv = [0x03, 0x02, 0x23, 0x07, 0x00, 0x00, 0x01, 0x00, 0xAA];
    assert_eq!(spirv_words(&spv), vec![0x0723_0203, 0x0001_0000]);
    assert!(spirv_words(&[1, 2, 3]).is_empty());
    assert_eq!(spirv_words(&[0xFF; 4]), vec![u32::MAX]);
}
