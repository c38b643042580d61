//! Serialises a captured RGBA pixel buffer as a 32-bit-per-pixel bitmap
//! file image: a 14-byte file header, a 40-byte information header, then the
//! pixel bytes unchanged.

use vstd::prelude::*;

verus! {

/// Byte `k` (little-endian) of `v`, for the four bytes of a word.
pub open spec fn le_byte(v: int, k: int) -> u8 {
    if k == 0 {
        (v % 256) as u8
    } else if k == 1 {
        ((v / 256) % 256) as u8
    } else if k == 2 {
        ((v / 65536) % 256) as u8
    } else {
        ((v / 16777216) % 256) as u8
    }
}

/// The bitmap file image for a `width` by `height` RGBA capture.
pub fn bmp_file_bytes(width: u32, height: u32, pixels: &Vec<u8>) -> (out: Vec<u8>)
    requires
        1 <= width <= 0x4000,
        1 <= height <= 0x4000,
        pixels@.len() == 4 * width * height,
    ensures
        out@.len() == 54 + pixels@.len(),
        out@[0] == 66u8,
        out@[1] == 77u8,
        out@[2] == le_byte(54 + 4 * width * height, 0),
        out@[3] == le_byte(54 + 4 * width * height, 1),
        out@[4] == le_byte(54 + 4 * width * height, 2),
        out@[5] == le_byte(54 + 4 * width * height, 3),
        out@[10] == 54u8,
        out@[14] == 40u8,
        out@[18] == le_byte(width as int, 0),
        out@[19] == le_byte(width as int, 1),
        out@[20] == le_byte(width as int, 2),
        out@[21] == le_byte(width as int, 3),
        out@[22] == le_byte(height as int, 0),
        out@[23] == le_byte(height as int, 1),
        out@[24] == le_byte(height as int, 2),
        out@[25] == le_byte(height as int, 3),
        out@[26] == 1u8,
        out@[28] == 32u8,
        out@[34] == 1u8,
        out@[38] == le_byte(4 * width * height, 0),
        out@[39] == le_byte(4 * width * height, 1),
        out@[40] == le_byte(4 * width * height, 2),
        out@[41] == le_byte(4 * width * height, 3),
        forall|k: int|
            0 <= k < 54 && !(k == 0 || k == 1 || k == 2 || k == 3 || k == 4 || k == 5 || k == 10
                || k == 14 || k == 18 || k == 19 || k == 20 || k == 21 || k == 22 || k == 23 || k
                == 24 || k == 25 || k == 26 || k == 28 || k == 34 || k == 38 || k == 39 || k == 40
                || k == 41) ==> out@[k] == 0u8,
        forall|i: int| 0 <= i < pixels@.len() ==> out@[54 + i] == pixels@[i],
{
    assert(4 * (width as int) * (height as int) <= 4 * 0x4000 * 0x4000) by (nonlinear_arith)
        requires
            width <= 0x4000,
            height <= 0x4000,
    ;
    let img_size: u32 = 4 * width * height;
    let file_size: u32 = 54 + img_size;

    let mut out: Vec<u8> = Vec::new();
    out.push(66);  // 'B'
    out.push(77);  // 'M'
    out.push((file_size % 256) as u8);
    out.push(((file_size / 256) % 256) as u8);
    out.push(((file_size / 65536) % 256) as u8);
    out.push(((file_size / 16777216) % 256) as u8);
    out.push(0);
    out.push(0);
    out.push(0);
    out.push(0);
    out.push(54);  // offset to pixel data
    out.push(0);
    out.push(0);
    out.push(0);

    out.push(40);  // information header size
    out.push(0);
    out.push(0);
    out.push(0);
    out.push((width % 256) as u8);
    out.push(((width / 256) % 256) as u8);
    out.push(((width / 65536) % 256) as u8);
    out.push(((width / 16777216) % 256) as u8);
    out.push((height % 256) as u8);
    out.push(((height / 256) % 256) as u8);
    out.push(((height / 65536) % 256) as u8);
    out.push(((height / 16777216) % 256) as u8);
    out.push(1);  // colour planes
    out.push(0);
    out.push(32);  // bits per pixel
    out.push(0);
    out.push(0);
    out.push(0);
    out.push(0);
    out.push(0);
    out.push(1);  // compression tag
    out.push(0);
    out.push(0);
    out.push(0);
    out.push((img_size % 256) as u8);
    out.push(((img_size / 256) % 256) as u8);
    out.push(((img_size / 65536) % 256) as u8);
    out.push(((img_size / 16777216) % 256) as u8);
    out.push(0);
    out.push(0);
    out.push(0);
    out.push(0);
    out.push(0);
    out.push(0);
    out.push(0);
    out.push(0);
    out.push(0);
    out.push(0);
    out.push(0);
    out.push(0);

    let ghost header = out@;
    let n = pixels.len();
    let mut i: usize = 0;
    while i < n
        invariant
            i <= n,
            n == pixels@.len(),
            out@.len() == 54 + i,
            header.len() == 54,
            forall|j: int| 0 <= j < 54 ==> #[trigger] out@[j] == header[j],
            forall|j: int| 0 <= j < i ==> out@[54 + j] == pixels@[j],
        decreases n - i,
    {
        out.push(pixels[i]);
        i += 1;
    }
    out
}

} // verus!
