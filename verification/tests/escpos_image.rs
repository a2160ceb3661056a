use eco_print::escpos::image::ESCPOSImage;
use eco_print::EcoPrintError;

/// A 16x8 checkerboard: even (x + y) is black (0), odd is white (255).
fn checkerboard_16x8() -> Vec<u8> {
    let mut data = Vec::new();
    for y in 0..8u32 {
        for x in 0..16u32 {
            data.push(if (x + y) % 2 == 0 { 0 } else { 255 });
        }
    }
    data
}

#[test]
fn checkerboard_packs_bit_for_bit() {
    let img = ESCPOSImage::new(checkerboard_16x8(), 16, 8, 384).unwrap();
    let block = img.to_escpos();

    // header: GS v 0, mode 0, width-in-bytes = 2 (LE), height = 8 (LE)
    let mut expected: Vec<u8> = vec![0x1D, 0x76, 0x30, 0x00, 0x02, 0x00, 0x08, 0x00];
    // even rows start black: 10101010; odd rows start white: 01010101
    for y in 0..8u8 {
        let row_byte = if y % 2 == 0 { 0xAA } else { 0x55 };
        expected.push(row_byte);
        expected.push(row_byte);
    }
    assert_eq!(block, expected);
}

#[test]
fn row_padding_bits_stay_blank() {
    // three all-black pixels in one row: 11100000 in a single padded byte
    let img = ESCPOSImage::new(vec![0, 0, 0], 3, 1, 384).unwrap();
    let block = img.to_escpos();
    assert_eq!(block, vec![0x1D, 0x76, 0x30, 0x00, 0x01, 0x00, 0x01, 0x00, 0xE0]);
}

#[test]
fn threshold_is_128() {
    // 127 prints (bit set), 128 stays blank
    let img = ESCPOSImage::new(vec![127, 128], 2, 1, 384).unwrap();
    let block = img.to_escpos();
    assert_eq!(block[8], 0x80);
}

#[test]
fn wide_source_resizes_to_max_width() {
    // 768 wide, max_width 384: width halves, height = round(2 * 384/768) = 1
    let img = ESCPOSImage::new(vec![0u8; 768 * 2], 768, 2, 384).unwrap();
    assert_eq!(img.width, 384);
    assert_eq!(img.height, 1);
    assert_eq!(img.max_width_escpos, 384);
    // the resampled buffer really holds the new dimensions
    assert_eq!(img.data.len(), 384);
}

#[test]
fn narrow_source_is_never_upscaled() {
    let data: Vec<u8> = (0..100).map(|i| (i * 2) as u8).collect();
    let img = ESCPOSImage::new(data.clone(), 10, 10, 384).unwrap();
    assert_eq!(img.width, 10);
    assert_eq!(img.height, 10);
    assert_eq!(img.data, data);
}

#[test]
fn exact_width_source_is_untouched() {
    let img = ESCPOSImage::new(vec![9u8; 384 * 3], 384, 3, 384).unwrap();
    assert_eq!(img.width, 384);
    assert_eq!(img.height, 3);
    assert_eq!(img.data.len(), 384 * 3);
}

#[test]
fn output_width_never_exceeds_max_width() {
    for (w, h, max) in [(500u32, 4u32, 384u32), (384, 4, 384), (64, 4, 384), (400, 1, 8)] {
        let img = ESCPOSImage::new(vec![0u8; (w * h) as usize], w, h, max).unwrap();
        assert!(img.width <= max);
        assert!(img.width <= w);
        assert!(img.height <= h);
    }
}

#[test]
fn mismatched_buffer_is_a_decode_error() {
    let r = ESCPOSImage::new(vec![0u8; 10], 4, 4, 384);
    assert!(matches!(r, Err(EcoPrintError::Decode(_))));
}

#[test]
fn ascii_art_uses_the_eleven_glyph_table() {
    // bucket = pixel * 10 / 255
    let img = ESCPOSImage::new(
        vec![0, 26, 52, 77, 103, 128, 154, 179, 205, 230, 255],
        11,
        1,
        384,
    )
    .unwrap();
    assert_eq!(img.to_ascii_art(), "@#S%?*+;:,.\n");
}

#[test]
fn ascii_art_bucket_boundaries() {
    // 25 is still the darkest bucket, 26 moves to the next one
    let img = ESCPOSImage::new(vec![25, 26, 254, 255], 2, 2, 384).unwrap();
    assert_eq!(img.to_ascii_art(), "@#\n,.\n");
}

#[test]
fn ascii_art_one_line_per_row() {
    let img = ESCPOSImage::new(vec![0, 255, 255, 0], 2, 2, 384).unwrap();
    assert_eq!(img.to_ascii_art(), "@.\n.@\n");
}
