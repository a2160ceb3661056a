//! Raster image preparation for graphic printing.
//!
//! A decoded 8-bit grayscale buffer is resized to the printer's maximum
//! dot width (never upscaled), thresholded at 128 into a 1-bit bitmap,
//! packed eight pixels per byte most-significant-bit first, and framed with
//! the ESC/POS `GS v 0` raster header. An ASCII-art renderer over the same
//! buffer serves terminal-target printers.

use vstd::prelude::*;
use vstd::arithmetic::div_mod::{lemma_div_is_ordered, lemma_div_by_multiple};

use crate::{EcoPrintError, EcoPrintResult};

verus! {

/// Relies on `image::imageops::resize` with the Lanczos3 filter, via
/// `GrayImage::from_raw` / `into_raw`: the resampled buffer holds exactly
/// one byte per pixel of the requested dimensions. The resampled pixel
/// values themselves are not specified beyond that.
#[verifier::external_body]
fn resample_gray(pixels: &Vec<u8>, width: u32, height: u32, new_width: u32, new_height: u32) -> (r:
    Vec<u8>)
    requires
        pixels@.len() == width * height,
        width > 0,
        height > 0,
        new_width > 0,
        new_height > 0,
    ensures
        r@.len() == new_width * new_height,
{
    let img = image::GrayImage::from_raw(width, height, pixels.clone()).unwrap();
    image::imageops::resize(&img, new_width, new_height, image::imageops::FilterType::Lanczos3)
        .into_raw()
}

/// How many bytes one packed row of `width` pixels occupies.
pub open spec fn spec_row_bytes(width: int) -> int {
    (width + 7) / 8
}

/// The bit pixel `x` of row `y` contributes to its packed byte: pixels
/// darker than the 128 threshold print (bit set), the leftmost pixel of a
/// byte is the most significant bit.
pub open spec fn spec_pixel_bit(data: Seq<u8>, width: int, y: int, x: int) -> u8 {
    if data[y * width + x] < 128 {
        1u8 << ((7 - x % 8) as u8)
    } else {
        0u8
    }
}

/// Byte `j` of packed row `y` after its first `n` pixels have been folded
/// in.
pub open spec fn spec_byte_upto(data: Seq<u8>, width: int, y: int, j: int, n: int) -> u8
    decreases n,
{
    if n <= 0 {
        0u8
    } else {
        spec_byte_upto(data, width, y, j, n - 1) | spec_pixel_bit(data, width, y, 8 * j + (n - 1))
    }
}

/// Byte `j` of packed row `y`: eight pixels, or the remainder of the row in
/// the final byte, whose trailing bits stay 0 (blank padding).
pub open spec fn spec_packed_byte(data: Seq<u8>, width: int, y: int, j: int) -> u8 {
    spec_byte_upto(
        data,
        width,
        y,
        j,
        if 8 * j + 8 <= width {
            8
        } else {
            width - 8 * j
        },
    )
}

/// Packed row `y`, in full.
pub open spec fn spec_packed_row(data: Seq<u8>, width: int, y: int) -> Seq<u8> {
    Seq::new(spec_row_bytes(width) as nat, |j: int| spec_packed_byte(data, width, y, j))
}

/// The first `y` packed rows, concatenated top to bottom.
pub open spec fn spec_rows_upto(data: Seq<u8>, width: int, y: int) -> Seq<u8>
    decreases y,
{
    if y <= 0 {
        Seq::empty()
    } else {
        spec_rows_upto(data, width, y - 1) + spec_packed_row(data, width, y - 1)
    }
}

/// The packed bytes of row `y` after its first `x` pixels have been folded
/// in: complete bytes first, then the byte still being filled.
pub open spec fn spec_row_partial(data: Seq<u8>, width: int, y: int, x: int) -> Seq<u8> {
    Seq::new(
        ((x + 7) / 8) as nat,
        |j: int|
            if 8 * j + 8 <= x {
                spec_packed_byte(data, width, y, j)
            } else {
                spec_byte_upto(data, width, y, j, x - 8 * j)
            },
    )
}

/// The first `y` packed rows hold exactly `y` times the row width in bytes.
proof fn lemma_rows_upto_len(data: Seq<u8>, width: int, y: int)
    requires
        y >= 0,
        width >= 0,
    ensures
        spec_rows_upto(data, width, y).len() == y * spec_row_bytes(width),
    decreases y,
{
    let wb = spec_row_bytes(width);
    assert(wb >= 0);
    if y > 0 {
        lemma_rows_upto_len(data, width, y - 1);
        assert(spec_rows_upto(data, width, y) == spec_rows_upto(data, width, y - 1)
            + spec_packed_row(data, width, y - 1));
        assert(spec_packed_row(data, width, y - 1).len() == wb);
        assert(spec_rows_upto(data, width, y).len() == (y - 1) * wb + wb);
        assert((y - 1) * wb + wb == y * wb) by (nonlinear_arith);
    } else {
        assert(spec_rows_upto(data, width, y).len() == 0);
        assert(y * wb == 0);
    }
}

/// The product of two 32-bit values fits in 64 bits.
proof fn lemma_u32_mul_fits_u64(a: u32, b: u32)
    ensures
        0 <= a as int * b as int <= 0xFFFF_FFFE_0000_0001,
{
    assert(0 <= a as int * b as int <= 0xFFFF_FFFF * 0xFFFF_FFFF) by (nonlinear_arith)
        requires
            0 <= a <= 0xFFFF_FFFFu32,
            0 <= b <= 0xFFFF_FFFFu32,
    ;
}

/// OR-ing with zero changes nothing.
proof fn lemma_or_zero(b: u8)
    ensures
        b | 0u8 == b,
        0u8 | b == b,
{
    assert(b | 0u8 == b && 0u8 | b == b) by (bit_vector);
}

/// The `GS v 0` raster header: command, mode, then width-in-bytes and
/// height in pixels, each as a little-endian 16-bit value.
pub open spec fn spec_raster_header(width: int, height: int) -> Seq<u8> {
    seq![
        0x1Du8,
        0x76u8,
        0x30u8,
        0x00u8,
        (spec_row_bytes(width) % 256) as u8,
        ((spec_row_bytes(width) / 256) % 256) as u8,
        (height % 256) as u8,
        ((height / 256) % 256) as u8,
    ]
}

/// The complete raster command block: header, then the packed rows.
pub open spec fn spec_raster_block(data: Seq<u8>, width: int, height: int) -> Seq<u8> {
    spec_raster_header(width, height) + spec_rows_upto(data, width, height)
}

/// The eleven-glyph luminance table used by the ASCII-art renderer: the
/// bucket is `pixel * 10 / 255`, from dark to light.
pub open spec fn spec_glyph(p: u8) -> char {
    let idx = p * 10 / 255;
    if idx == 0 {
        '@'
    } else if idx == 1 {
        '#'
    } else if idx == 2 {
        'S'
    } else if idx == 3 {
        '%'
    } else if idx == 4 {
        '?'
    } else if idx == 5 {
        '*'
    } else if idx == 6 {
        '+'
    } else if idx == 7 {
        ';'
    } else if idx == 8 {
        ':'
    } else if idx == 9 {
        ','
    } else {
        '.'
    }
}

/// The first `x` glyphs of ASCII-art row `y`.
pub open spec fn spec_ascii_row_upto(data: Seq<u8>, width: int, y: int, x: int) -> Seq<char> {
    Seq::new(x as nat, |xx: int| spec_glyph(data[y * width + xx]))
}

/// The first `y` ASCII-art rows, each terminated by a newline.
pub open spec fn spec_ascii_upto(data: Seq<u8>, width: int, y: int) -> Seq<char>
    decreases y,
{
    if y <= 0 {
        Seq::empty()
    } else {
        spec_ascii_upto(data, width, y - 1) + spec_ascii_row_upto(data, width, y - 1, width)
            + seq!['\n']
    }
}

/// The full ASCII-art rendering of the buffer.
pub open spec fn spec_ascii_art(data: Seq<u8>, width: int, height: int) -> Seq<char> {
    spec_ascii_upto(data, width, height)
}

/// A printer-ready grayscale image: one byte per pixel, already resized to
/// the printer's maximum dot width.
pub struct ESCPOSImage {
    /// Pixel intensities, row-major, one byte per pixel.
    pub data: Vec<u8>,
    /// The maximum printable width in dots.
    pub max_width_escpos: u32,
    /// Current width; never exceeds `max_width_escpos`.
    pub width: u32,
    /// Current height.
    pub height: u32,
}

impl ESCPOSImage {
    /// The buffer holds exactly one byte per pixel and the width respects
    /// the print head.
    pub open spec fn wf(self) -> bool {
        &&& self.data@.len() == self.width * self.height
        &&& self.width <= self.max_width_escpos
    }

    /// Build a printer image from a decoded grayscale buffer, resizing it
    /// down to `max_width_escpos` when the source is wider (aspect ratio
    /// preserved, heights rounded down; never upscaled). Fails with
    /// `Decode` if and only if the buffer does not hold exactly
    /// `width * height` bytes.
    pub fn new(data: Vec<u8>, width: u32, height: u32, max_width_escpos: u32) -> (r: EcoPrintResult<
        Self,
    >)
        ensures
            r is Ok <==> data@.len() == width * height,
            r matches Ok(img) ==> {
                &&& img.wf()
                &&& img.max_width_escpos == max_width_escpos
                &&& width > max_width_escpos ==> img.width == max_width_escpos && img.height
                    == height as int * max_width_escpos as int / width as int
                &&& width <= max_width_escpos ==> img.width == width && img.height == height
                    && img.data@ == data@
            },
            r matches Err(e) ==> e matches EcoPrintError::Decode(_),
    {
        proof {
            lemma_u32_mul_fits_u64(width, height);
        }
        if (data.len() as u64) != (width as u64) * (height as u64) {
            return Err(
                EcoPrintError::Decode(
                    String::from_str("pixel buffer does not match the stated dimensions"),
                ),
            );
        }
        let (resized, new_width, new_height) = Self::resize_image(data, width, height,
            max_width_escpos);
        Ok(
            ESCPOSImage {
                data: resized,
                max_width_escpos,
                width: new_width,
                height: new_height,
            },
        )
    }

    /// Resize a grayscale buffer to fit the print head: when the source is
    /// wider than `max_width_escpos`, resample it to that width with the
    /// height scaled by the same ratio (rounded down); otherwise hand the
    /// buffer back untouched. The result never exceeds the maximum width
    /// and is never an upscale.
    pub fn resize_image(data: Vec<u8>, width: u32, height: u32, max_width_escpos: u32) -> (r: (
        Vec<u8>,
        u32,
        u32,
    ))
        requires
            data@.len() == width * height,
        ensures
            r.1 <= max_width_escpos,
            r.1 <= width,
            r.2 <= height,
            r.1 < width <==> width > max_width_escpos,
            r.0@.len() == r.1 * r.2,
            width > max_width_escpos ==> r.1 == max_width_escpos && r.2 == height as int
                * max_width_escpos as int / width as int,
            width <= max_width_escpos ==> r.1 == width && r.2 == height && r.0@ == data@,
    {
        if width > max_width_escpos {
            proof {
                lemma_u32_mul_fits_u64(height, max_width_escpos);
                assert(height as int * max_width_escpos as int <= height as int * width as int)
                    by (nonlinear_arith)
                    requires
                        max_width_escpos <= width,
                        height >= 0,
                ;
                lemma_div_is_ordered(
                    height as int * max_width_escpos as int,
                    height as int * width as int,
                    width as int,
                );
                lemma_div_by_multiple(height as int, width as int);
            }
            let new_height_wide: u64 = (height as u64) * (max_width_escpos as u64) / (width as u64);
            let new_height = new_height_wide as u32;
            if max_width_escpos == 0 || new_height == 0 {
                let empty: Vec<u8> = Vec::new();
                proof {
                    assert(max_width_escpos as int * new_height as int == 0) by (nonlinear_arith)
                        requires
                            max_width_escpos == 0 || new_height == 0,
                    ;
                }
                (empty, max_width_escpos, new_height)
            } else {
                let resized = resample_gray(&data, width, height, max_width_escpos, new_height);
                (resized, max_width_escpos, new_height)
            }
        } else {
            (data, width, height)
        }
    }

    /// Emit the raster command block: the `GS v 0` header, then every row
    /// thresholded at 128 and packed eight pixels per byte, most
    /// significant bit first, each row padded to a whole byte. The result
    /// is pinned bit-for-bit by [`spec_raster_block`].
    pub fn to_escpos(&self) -> (r: Vec<u8>)
        requires
            self.wf(),
        ensures
            r@ == spec_raster_block(self.data@, self.width as int, self.height as int),
    {
        let total = self.data.len();
        let ghost dataq = self.data@;
        let ghost w = self.width as int;
        let ghost h = self.height as int;
        let ghost wb = spec_row_bytes(w);

        let mut bitmap_data: Vec<u8> = Vec::new();
        let mut y: u32 = 0;
        while y < self.height
            invariant
                self.wf(),
                y <= self.height,
                total == dataq.len(),
                dataq == self.data@,
                w == self.width as int,
                h == self.height as int,
                wb == spec_row_bytes(w),
                bitmap_data@ == spec_rows_upto(dataq, w, y as int),
            decreases self.height - y,
        {
            proof {
                lemma_rows_upto_len(dataq, w, y as int);
            }
            let ghost row_base = bitmap_data@.len() as int;
            let mut x: u32 = 0;
            while x < self.width
                invariant
                    self.wf(),
                    y < self.height,
                    x <= self.width,
                    total == dataq.len(),
                    dataq == self.data@,
                    w == self.width as int,
                    h == self.height as int,
                    wb == spec_row_bytes(w),
                    row_base == y * wb,
                    bitmap_data@ == spec_rows_upto(dataq, w, y as int) + spec_row_partial(
                        dataq,
                        w,
                        y as int,
                        x as int,
                    ),
                    bitmap_data@.len() == row_base + (x + 7) / 8,
                decreases self.width - x,
            {
                let ghost prefix = spec_rows_upto(dataq, w, y as int);
                let ghost yi = y as int;
                let ghost xi = x as int;
                let ghost j = xi / 8;
                let ghost m = xi % 8;
                let ghost partial_old = spec_row_partial(dataq, w, yi, xi);
                let ghost partial_new = spec_row_partial(dataq, w, yi, xi + 1);
                let ghost bit = spec_pixel_bit(dataq, w, yi, xi);
                proof {
                    lemma_rows_upto_len(dataq, w, yi);
                    assert(8 * j + m == xi && 0 <= m < 8);
                    if m == 0 {
                        assert(spec_byte_upto(dataq, w, yi, j, 0) == 0u8);
                        assert(partial_old.len() == j && partial_new.len() == j + 1);
                    } else {
                        assert(partial_old.len() == j + 1 && partial_new.len() == j + 1);
                        assert(partial_old[j] == spec_byte_upto(dataq, w, yi, j, m));
                    }
                }
                if x % 8 == 0 {
                    bitmap_data.push(0);
                }
                proof {
                    assert(y * w + xi < h * w && y * w >= 0) by (nonlinear_arith)
                        requires
                            0 <= y < h,
                            0 <= xi < w,
                    ;
                    // after the optional push, the byte being filled holds
                    // the first m pixels of its group
                    assert(bitmap_data@.len() == row_base + j + 1);
                    assert(bitmap_data@[row_base + j] == spec_byte_upto(dataq, w, yi, j, m));
                }
                let index: usize = (y as usize) * (self.width as usize) + (x as usize);
                let pixel = self.data[index];
                proof {
                    assert(index == yi * w + xi);
                    assert(pixel == dataq[yi * w + xi]);
                }
                if pixel < 128 {
                    let byte_index = bitmap_data.len() - 1;
                    let k: u8 = (x % 8) as u8;
                    let mask: u8 = 1u8 << (7 - k);
                    let updated = bitmap_data[byte_index] | mask;
                    bitmap_data.set(byte_index, updated);
                    proof {
                        assert(mask == bit);
                        assert(bitmap_data@[row_base + j] == spec_byte_upto(dataq, w, yi, j, m)
                            | bit);
                    }
                } else {
                    proof {
                        assert(bit == 0u8);
                        lemma_or_zero(spec_byte_upto(dataq, w, yi, j, m));
                        assert(bitmap_data@[row_base + j] == spec_byte_upto(dataq, w, yi, j, m)
                            | bit);
                    }
                }
                proof {
                    assert(spec_byte_upto(dataq, w, yi, j, m + 1) == spec_byte_upto(
                        dataq,
                        w,
                        yi,
                        j,
                        m,
                    ) | bit);
                    if 8 * j + 8 <= xi + 1 {
                        // this pixel completes byte j, which the row is wide
                        // enough to fill entirely
                        assert(8 * j + 8 <= w);
                        assert(partial_new[j] == spec_byte_upto(dataq, w, yi, j, 8));
                    }
                    assert(partial_new[j] == spec_byte_upto(dataq, w, yi, j, m + 1));
                    assert(forall|jj: int|
                        0 <= jj < j ==> partial_new[jj] == partial_old[jj]);
                    assert(prefix.len() == row_base);
                    assert(bitmap_data@.len() == row_base + partial_new.len());
                    assert(forall|i: int| 0 <= i < row_base ==> bitmap_data@[i] == prefix[i]);
                    assert(forall|jj: int|
                        0 <= jj < partial_new.len() ==> bitmap_data@[row_base + jj]
                            == partial_new[jj]);
                    assert(bitmap_data@ =~= prefix + partial_new);
                }
                x = x + 1;
            }
            proof {
                assert(spec_row_partial(dataq, w, y as int, w) =~= spec_packed_row(
                    dataq,
                    w,
                    y as int,
                ));
                assert(spec_rows_upto(dataq, w, y as int + 1) == spec_rows_upto(dataq, w, y as int)
                    + spec_packed_row(dataq, w, y as int));
            }
            y = y + 1;
        }

        let width_bytes: u32 = ((self.width as u64 + 7) / 8) as u32;
        let x_l = (width_bytes % 256) as u8;
        let x_h = ((width_bytes / 256) % 256) as u8;
        let y_l = (self.height % 256) as u8;
        let y_h = ((self.height / 256) % 256) as u8;

        let mut escpos_command: Vec<u8> = Vec::new();
        escpos_command.push(0x1D);
        escpos_command.push(0x76);
        escpos_command.push(0x30);
        escpos_command.push(0x00);
        escpos_command.push(x_l);
        escpos_command.push(x_h);
        escpos_command.push(y_l);
        escpos_command.push(y_h);
        proof {
            assert(escpos_command@ =~= spec_raster_header(w, h));
        }
        escpos_command.append(&mut bitmap_data);
        proof {
            assert(escpos_command@ =~= spec_raster_block(dataq, w, h));
        }
        escpos_command
    }

    /// Render the buffer as ASCII art for terminal-target printers: one
    /// glyph per pixel from the eleven-level luminance table, one line per
    /// row.
    pub fn to_ascii_art(&self) -> (r: String)
        requires
            self.wf(),
        ensures
            r@ == spec_ascii_art(self.data@, self.width as int, self.height as int),
    {
        let total = self.data.len();
        let ghost dataq = self.data@;
        let ghost w = self.width as int;
        let ghost h = self.height as int;

        let mut ascii_art = String::new();
        let mut y: u32 = 0;
        while y < self.height
            invariant
                self.wf(),
                y <= self.height,
                total == dataq.len(),
                dataq == self.data@,
                w == self.width as int,
                h == self.height as int,
                ascii_art@ == spec_ascii_upto(dataq, w, y as int),
            decreases self.height - y,
        {
            let mut x: u32 = 0;
            while x < self.width
                invariant
                    self.wf(),
                    y < self.height,
                    x <= self.width,
                    total == dataq.len(),
                    dataq == self.data@,
                    w == self.width as int,
                    h == self.height as int,
                    ascii_art@ == spec_ascii_upto(dataq, w, y as int) + spec_ascii_row_upto(
                        dataq,
                        w,
                        y as int,
                        x as int,
                    ),
                decreases self.width - x,
            {
                proof {
                    assert(y * w + x < h * w && y * w >= 0) by (nonlinear_arith)
                        requires
                            0 <= y < h,
                            0 <= x < w,
                    ;
                }
                let index: usize = (y as usize) * (self.width as usize) + (x as usize);
                let pixel = self.data[index];
                ascii_art.append(glyph_of(pixel));
                proof {
                    assert(spec_ascii_row_upto(dataq, w, y as int, x + 1) =~= spec_ascii_row_upto(
                        dataq,
                        w,
                        y as int,
                        x as int,
                    ) + seq![spec_glyph(dataq[y * w + x])]);
                }
                x = x + 1;
            }
            proof {
                reveal_strlit("\n");
            }
            ascii_art.append("\n");
            proof {
                assert(spec_ascii_upto(dataq, w, y as int + 1) =~= spec_ascii_upto(
                    dataq,
                    w,
                    y as int,
                ) + spec_ascii_row_upto(dataq, w, y as int, w) + seq!['\n']);
                assert("\n"@ =~= seq!['\n']);
            }
            y = y + 1;
        }
        ascii_art
    }
}

/// The glyph for one pixel intensity, as a one-character string slice.
fn glyph_of(pixel: u8) -> (r: &'static str)
    ensures
        r@ == seq![spec_glyph(pixel)],
{
    let idx: u32 = (pixel as u32) * 10 / 255;
    if idx == 0 {
        proof {
            reveal_strlit("@");
        }
        "@"
    } else if idx == 1 {
        proof {
            reveal_strlit("#");
        }
        "#"
    } else if idx == 2 {
        proof {
            reveal_strlit("S");
        }
        "S"
    } else if idx == 3 {
        proof {
            reveal_strlit("%");
        }
        "%"
    } else if idx == 4 {
        proof {
            reveal_strlit("?");
        }
        "?"
    } else if idx == 5 {
        proof {
            reveal_strlit("*");
        }
        "*"
    } else if idx == 6 {
        proof {
            reveal_strlit("+");
        }
        "+"
    } else if idx == 7 {
        proof {
            reveal_strlit(";");
        }
        ";"
    } else if idx == 8 {
        proof {
            reveal_strlit(":");
        }
        ":"
    } else if idx == 9 {
        proof {
            reveal_strlit(",");
        }
        ","
    } else {
        proof {
            reveal_strlit(".");
        }
        "."
    }
}

} // verus!
