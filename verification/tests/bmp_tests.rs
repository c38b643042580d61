use backdrop::bmp::bmp_file_bytes;

#[test]
fn bitmap_image_has_headers_and_pixels() {
    let pixels: Vec<u8> = (0u8..16).collect(); // a 2 by 2 RGBA capture
    let out = bmp_file_bytes(2, 2, &pixels);
    assert_eq!(out.len(), 54 + 16);
    assert_eq!(&out[0..2], b"BM");
    let file_size = 54 + 16u32;
    assert_eq!(out[2], (file_size & 0xFF) as u8);
    assert_eq!(out[3], 0);
    assert_eq!(out[10], 54); // pixel data offset
    assert_eq!(out[14], 40); // information header size
    assert_eq!(out[18], 2); // width
    assert_eq!(out[22], 2); // height
    assert_eq!(out[26], 1); // colour planes
    assert_eq!(out[28], 32); // bits per pixel
    assert_eq!(out[38], 16); // image size
    assert_eq!(&out[54..], &pixels[..]);
}

#[test]
fn bitmap_width_spans_two_bytes() {
    let pixels = vec![0u8; 4 * 300];
    let out = bmp_file_bytes(300, 1, &pixels);
    assert_eq!(out[18], (300 % 256) as u8);
    assert_eq!(out[19], (300 / 256) as u8);
}
