use wadlauncher::wad::header::{read_le16, read_le32};
use wadlauncher::wad::raster::put_pixel;
use wadlauncher::wad::{decode_htitle, decode_titlepic, get_titlepic_dimensions};

/// A palette whose entry `i` is the colour (i, 255 - i, i / 2).
fn ramp_palette() -> Vec<u8> {
    let mut palette = Vec::with_capacity(768);
    for i in 0..256u32 {
        palette.push(i as u8);
        palette.push((255 - i) as u8);
        palette.push((i / 2) as u8);
    }
    palette
}

fn offset_table(offsets: &[u32]) -> Vec<u8> {
    let mut table = Vec::new();
    for offset in offsets {
        table.extend_from_slice(&offset.to_le_bytes());
    }
    table
}

fn post(start: u8, pixels: &[u8]) -> Vec<u8> {
    let mut bytes = vec![start, pixels.len() as u8, 0];
    bytes.extend_from_slice(pixels);
    bytes.push(0);
    bytes
}

#[test]
fn le16_reads_low_byte_first() {
    assert_eq!(read_le16(&[0x34, 0x12], 0), 0x1234);
    assert_eq!(read_le16(&[9, 0xff, 0xff], 1), 65535);
    assert_eq!(read_le16(&[0, 0], 0), 0);
}

#[test]
fn le32_reads_low_byte_first() {
    assert_eq!(read_le32(&[0x78, 0x56, 0x34, 0x12], 0), 0x12345678);
    assert_eq!(read_le32(&[7, 0xff, 0xff, 0xff, 0xff], 1), 0xffff_ffff);
    assert_eq!(read_le32(&[2, 0, 1, 0], 0), 65538);
}

#[test]
fn dimensions_of_a_plausible_header_are_kept() {
    let mut data = vec![2u8, 0, 1, 0];
    data.extend_from_slice(&[0u8; 8]);
    assert_eq!(get_titlepic_dimensions(&data), (2, 1));
}

#[test]
fn dimensions_read_both_bytes_of_each_field() {
    let mut data = vec![0x40u8, 0x01, 0xc8, 0x00];
    data.resize(4 + 4 * 320, 0);
    assert_eq!(get_titlepic_dimensions(&data), (320, 200));
    let mut data = vec![0x00u8, 0x01, 0x01, 0x02];
    data.resize(4 + 4 * 256, 0);
    assert_eq!(get_titlepic_dimensions(&data), (256, 513));
}

#[test]
fn dimensions_of_a_zero_header_fall_back() {
    let data = vec![0u8; 64];
    assert_eq!(get_titlepic_dimensions(&data), (320, 200));
}

#[test]
fn dimensions_with_a_zero_width_or_height_fall_back() {
    let mut data = vec![0u8, 0, 5, 0];
    data.resize(64, 0);
    assert_eq!(get_titlepic_dimensions(&data), (320, 200));
    let mut data = vec![5u8, 0, 0, 0];
    data.resize(64, 0);
    assert_eq!(get_titlepic_dimensions(&data), (320, 200));
}

#[test]
fn dimensions_whose_offset_table_does_not_fit_fall_back() {
    // Width 3 needs 4 + 12 bytes.
    let mut data = vec![3u8, 0, 7, 0];
    data.resize(15, 0);
    assert_eq!(get_titlepic_dimensions(&data), (320, 200));
    data.push(0);
    assert_eq!(get_titlepic_dimensions(&data), (3, 7));
}

#[test]
fn dimensions_of_a_lump_without_a_header_fall_back() {
    assert_eq!(get_titlepic_dimensions(&[]), (320, 200));
    assert_eq!(get_titlepic_dimensions(&[1]), (320, 200));
    assert_eq!(get_titlepic_dimensions(&[1, 0, 1]), (320, 200));
    assert_eq!(get_titlepic_dimensions(&[1, 0, 1, 0]), (320, 200));
}

#[test]
fn put_pixel_writes_one_pixel_only() {
    let palette = ramp_palette();
    let mut out = vec![0u8; 3 * 2 * 4];
    put_pixel(&mut out, 3, 2, 1, 1, &palette, 10);
    let mut expected = vec![0u8; 24];
    expected[16..20].copy_from_slice(&[10, 245, 5, 16]);
    assert_eq!(out, expected);
}

#[test]
fn patch_decodes_one_post_per_column() {
    let palette = ramp_palette();
    let mut data = offset_table(&[8, 14]);
    data.extend(post(0, &[1]));
    data.push(255);
    data.extend(post(0, &[200]));
    data.push(255);
    let image = decode_titlepic(&data, &palette, 2, 1).unwrap();
    assert_eq!(image, vec![1, 254, 0, 16, 200, 55, 100, 16]);
}

#[test]
fn patch_is_column_major_in_and_row_major_out() {
    let palette = ramp_palette();
    // Two columns of three rows; column 0 paints rows 0..3, column 1 rows 1..3.
    let mut data = offset_table(&[8, 16]);
    data.extend(post(0, &[10, 20, 30]));
    data.push(255);
    assert_eq!(data.len(), 16);
    data.extend(post(1, &[40, 50]));
    data.push(255);
    let image = decode_titlepic(&data, &palette, 2, 3).unwrap();
    let expected: Vec<u8> = vec![
        10, 245, 5, 16, 0, 0, 0, 0, // row 0
        20, 235, 10, 16, 40, 215, 20, 16, // row 1
        30, 225, 15, 16, 50, 205, 25, 16, // row 2
    ];
    assert_eq!(image, expected);
}

#[test]
fn patch_leaves_unpainted_pixels_fully_zero() {
    let palette = ramp_palette();
    let mut data = offset_table(&[4]);
    data.push(255);
    let image = decode_titlepic(&data, &palette, 1, 4).unwrap();
    assert_eq!(image, vec![0u8; 16]);
}

#[test]
fn patch_paints_index_zero_with_alpha_sixteen() {
    let mut palette = ramp_palette();
    palette[0] = 0;
    palette[1] = 0;
    palette[2] = 0;
    let mut data = offset_table(&[4]);
    data.extend(post(0, &[0]));
    data.push(255);
    let image = decode_titlepic(&data, &palette, 1, 1).unwrap();
    assert_eq!(image, vec![0, 0, 0, 16]);
}

#[test]
fn patch_reads_several_posts_of_a_column() {
    let palette = ramp_palette();
    let mut data = offset_table(&[4]);
    data.extend(post(0, &[1]));
    data.extend(post(3, &[2, 3]));
    data.push(255);
    let image = decode_titlepic(&data, &palette, 1, 5).unwrap();
    let expected: Vec<u8> = vec![
        1, 254, 0, 16, 0, 0, 0, 0, 0, 0, 0, 0, 2, 253, 1, 16, 3, 252, 1, 16,
    ];
    assert_eq!(image, expected);
}

#[test]
fn patch_lets_a_later_post_paint_over_an_earlier_one() {
    let palette = ramp_palette();
    let mut data = offset_table(&[4]);
    data.extend(post(0, &[1, 2, 3]));
    data.extend(post(1, &[9]));
    data.push(255);
    let image = decode_titlepic(&data, &palette, 1, 3).unwrap();
    let expected: Vec<u8> = vec![1, 254, 0, 16, 9, 246, 4, 16, 3, 252, 1, 16];
    assert_eq!(image, expected);
}

#[test]
fn patch_shorter_than_its_offset_table_is_refused() {
    let palette = ramp_palette();
    assert_eq!(decode_titlepic(&[0u8; 7], &palette, 2, 1), None);
    assert_eq!(decode_titlepic(&[], &palette, 1, 1), None);
    assert_eq!(decode_titlepic(&[0u8; 1279], &palette, 320, 200), None);
    assert!(decode_titlepic(&[255u8; 8], &palette, 2, 1).is_some());
}

#[test]
fn patch_skips_rows_below_the_picture() {
    let palette = ramp_palette();
    let mut data = offset_table(&[4]);
    data.extend(post(1, &[5, 6, 7]));
    data.extend(post(200, &[8]));
    data.extend(post(0, &[4]));
    data.push(255);
    let image = decode_titlepic(&data, &palette, 1, 2).unwrap();
    assert_eq!(image, vec![4, 251, 2, 16, 5, 250, 2, 16]);
}

#[test]
fn patch_stops_a_column_that_runs_off_the_lump() {
    let palette = ramp_palette();
    // The post announces four pixels; the lump ends after two of them.
    let mut data = offset_table(&[8, 8]);
    data.extend_from_slice(&[0, 4, 0, 7, 8]);
    let image = decode_titlepic(&data, &palette, 2, 4).unwrap();
    let expected: Vec<u8> = vec![
        7, 248, 3, 16, 7, 248, 3, 16, //
        8, 247, 4, 16, 8, 247, 4, 16, //
        0, 0, 0, 0, 0, 0, 0, 0, //
        0, 0, 0, 0, 0, 0, 0, 0,
    ];
    assert_eq!(image, expected);
}

#[test]
fn patch_stops_a_column_whose_run_length_is_missing() {
    let palette = ramp_palette();
    let mut data = offset_table(&[4]);
    data.push(0);
    let image = decode_titlepic(&data, &palette, 1, 1).unwrap();
    assert_eq!(image, vec![0u8; 4]);
}

#[test]
fn patch_stops_a_column_whose_offset_lies_outside_the_lump() {
    let palette = ramp_palette();
    let data = offset_table(&[4, 0xffff_ffff]);
    let image = decode_titlepic(&data, &palette, 2, 1).unwrap();
    assert_eq!(image, vec![0u8; 8]);
}

#[test]
fn patch_reads_the_post_after_a_full_post() {
    let palette = ramp_palette();
    // A column that points into the offset table itself is read all the same.
    let mut data = offset_table(&[4, 8]);
    data.extend(post(0, &[3]));
    data.push(255);
    let image = decode_titlepic(&data, &palette, 2, 1).unwrap();
    // Column 0 starts at byte 4: start row 8, run 0, then the post of column 1.
    assert_eq!(image, vec![3, 252, 1, 16, 3, 252, 1, 16]);
}

#[test]
fn patch_of_no_pixels_is_empty() {
    let palette = ramp_palette();
    assert_eq!(decode_titlepic(&[], &palette, 0, 0), Some(vec![]));
    assert_eq!(decode_titlepic(&[], &palette, 0, 9), Some(vec![]));
    assert_eq!(decode_titlepic(&[255u8; 16], &palette, 4, 0), Some(vec![]));
}

#[test]
fn patch_output_has_four_bytes_per_pixel() {
    let palette = ramp_palette();
    let data = vec![255u8; 1280];
    let image = decode_titlepic(&data, &palette, 320, 200).unwrap();
    assert_eq!(image.len(), 320 * 200 * 4);
}

#[test]
fn raw_lump_of_one_screen_is_decoded() {
    let palette = ramp_palette();
    let mut data = vec![0u8; 64000];
    data[0] = 1;
    data[1] = 255;
    data[63999] = 100;
    let image = decode_htitle(&data, &palette).unwrap();
    assert_eq!(image.len(), 320 * 200 * 4);
    assert_eq!(&image[0..4], &[1, 254, 0, 16]);
    assert_eq!(&image[4..8], &[255, 0, 127, 16]);
    assert_eq!(&image[8..12], &[0, 255, 0, 16]);
    assert_eq!(&image[255996..256000], &[100, 155, 50, 16]);
}

#[test]
fn raw_lump_paints_every_pixel() {
    let palette = ramp_palette();
    let data: Vec<u8> = (0..64000u32).map(|i| (i % 256) as u8).collect();
    let image = decode_htitle(&data, &palette).unwrap();
    for i in 0..64000usize {
        let index = data[i] as usize;
        assert_eq!(image[4 * i], palette[3 * index]);
        assert_eq!(image[4 * i + 1], palette[3 * index + 1]);
        assert_eq!(image[4 * i + 2], palette[3 * index + 2]);
        assert_eq!(image[4 * i + 3], 16);
    }
}

#[test]
fn raw_lump_of_wrong_length_is_refused() {
    let palette = ramp_palette();
    assert_eq!(decode_htitle(&[1u8, 2, 3], &palette), None);
    assert_eq!(decode_htitle(&[], &palette), None);
    assert_eq!(decode_htitle(&vec![0u8; 63999], &palette), None);
    assert_eq!(decode_htitle(&vec![0u8; 64001], &palette), None);
}

#[test]
fn decoders_take_a_palette_with_more_than_one_block() {
    let mut palette = ramp_palette();
    palette.extend_from_slice(&[9u8; 768]);
    let mut data = offset_table(&[4]);
    data.extend(post(0, &[255]));
    data.push(255);
    assert_eq!(decode_titlepic(&data, &palette, 1, 1), Some(vec![255, 0, 127, 16]));
}

#[test]
fn patch_shorter_than_its_offset_table_is_refused_at_any_height() {
    let palette = ramp_palette();
    assert_eq!(decode_titlepic(&[0u8; 7], &palette, 2, usize::MAX), None);
    assert_eq!(decode_titlepic(&[0u8; 7], &palette, 2, 0), None);
    assert_eq!(decode_titlepic(&[255u8; 64], &palette, usize::MAX, usize::MAX), None);
    assert_eq!(decode_titlepic(&[255u8; 64], &palette, usize::MAX / 4 + 1, 1), None);
    assert_eq!(decode_titlepic(&[], &palette, 1, usize::MAX), None);
}

#[test]
fn patch_pixels_are_painted_at_alpha_sixteen_or_blank() {
    let palette = ramp_palette();
    let mut data = offset_table(&[12, 12, 19]);
    data.extend(post(1, &[255, 0]));
    data.push(255);
    data.extend(post(0, &[7]));
    data.extend(post(2, &[9, 9, 9]));
    data.push(255);
    let image = decode_titlepic(&data, &palette, 3, 4).unwrap();
    assert_eq!(image.len(), 3 * 4 * 4);
    for pixel in image.chunks(4) {
        assert!(pixel[3] == 16 || pixel == [0u8, 0, 0, 0]);
    }
    let painted = image.chunks(4).filter(|pixel| pixel[3] == 16).count();
    assert_eq!(painted, 2 + 2 + 3);
}
