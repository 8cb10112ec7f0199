//! The bit-image encoder: a decoded monochrome or grayscale pixel buffer
//! packed into raster bytes behind a raster-mode header.
//!
//! Each pixel is one byte, row-major; a value below the threshold prints
//! black. Eight pixels pack into one byte, most significant bit first, and
//! a row narrower than a whole number of bytes is padded with white bits.

use vstd::prelude::*;
use crate::errors::Error;

verus! {

/// The widest raster image the device can print, in dots.
pub const MAX_DOT_WIDTH: usize = 2040;

/// Pixels whose value lies below this threshold print black.
pub const BLACK_THRESHOLD: u8 = 128;

/// The raster rendering scale.
#[derive(Debug, Clone, Copy, PartialEq, Eq, Structural)]
pub enum BitImageSize {
    Normal,
    DoubleWidth,
    DoubleHeight,
    DoubleWidthAndHeight,
}

impl BitImageSize {
    /// The mode byte of the raster-mode header.
    pub open spec fn mode_spec(self) -> u8 {
        match self {
            BitImageSize::Normal => 0,
            BitImageSize::DoubleWidth => 1,
            BitImageSize::DoubleHeight => 2,
            BitImageSize::DoubleWidthAndHeight => 3,
        }
    }

    /// The mode byte of the raster-mode header.
    pub fn mode(&self) -> (n: u8)
        ensures
            n == self.mode_spec(),
    {
        match self {
            BitImageSize::Normal => 0,
            BitImageSize::DoubleWidth => 1,
            BitImageSize::DoubleHeight => 2,
            BitImageSize::DoubleWidthAndHeight => 3,
        }
    }
}

/// A caller-supplied raster image: a decoded pixel buffer, one byte per
/// pixel and row-major, its width in dots, and the rendering scale.
#[derive(Debug, Clone, PartialEq, Eq)]
pub struct BitImage {
    pub pixels: Vec<u8>,
    pub width: usize,
    pub size: BitImageSize,
}

/// The packed value of the bit for column `col` of row `row`: 1 where the
/// pixel prints black, 0 where it is white or where `col` lies in the
/// padding beyond the row's width.
pub open spec fn bit_at(pixels: Seq<u8>, width: int, row: int, col: int) -> u8 {
    if col < width && pixels[row * width + col] < BLACK_THRESHOLD {
        1
    } else {
        0
    }
}

/// How many bytes one packed row takes: eight pixels per byte, the last
/// byte padded.
pub open spec fn width_bytes(width: int) -> int {
    (width + 7) / 8
}

/// The packed byte covering columns `8 * bcol` through `8 * bcol + 7` of
/// row `row`, most significant bit first.
pub open spec fn packed_byte(pixels: Seq<u8>, width: int, row: int, bcol: int) -> u8 {
    (128 * bit_at(pixels, width, row, 8 * bcol) + 64 * bit_at(pixels, width, row, 8 * bcol + 1)
        + 32 * bit_at(pixels, width, row, 8 * bcol + 2) + 16 * bit_at(
        pixels,
        width,
        row,
        8 * bcol + 3,
    ) + 8 * bit_at(pixels, width, row, 8 * bcol + 4) + 4 * bit_at(pixels, width, row, 8 * bcol + 5)
        + 2 * bit_at(pixels, width, row, 8 * bcol + 6) + bit_at(
        pixels,
        width,
        row,
        8 * bcol + 7,
    )) as u8
}

/// One packed row.
pub open spec fn packed_row(pixels: Seq<u8>, width: int, row: int) -> Seq<u8> {
    Seq::new(width_bytes(width) as nat, |b: int| packed_byte(pixels, width, row, b))
}

/// The packed rows before `upto`, concatenated in row order.
pub open spec fn packed_rows(pixels: Seq<u8>, width: int, upto: int) -> Seq<u8>
    decreases upto,
{
    if upto <= 0 {
        Seq::empty()
    } else {
        packed_rows(pixels, width, upto - 1) + packed_row(pixels, width, upto - 1)
    }
}

/// Whether a pixel buffer of `pixel_count` pixels at `width` dots per row
/// lies in the device's allowed ranges: a positive width up to the device
/// maximum, whole rows, at least one of them, and a height that fits the
/// header's two length bytes.
pub open spec fn image_valid(pixel_count: int, width: int) -> bool {
    &&& 1 <= width <= MAX_DOT_WIDTH
    &&& pixel_count >= 1
    &&& pixel_count % width == 0
    &&& pixel_count / width <= 0xffff
}

/// The raster-mode header: mode byte, width in bytes as a little-endian
/// pair, height in rows as a little-endian pair.
pub open spec fn image_header(mode: u8, wb: int, height: int) -> Seq<u8> {
    seq![
        0x1du8,
        0x76,
        0x30,
        mode,
        (wb % 256) as u8,
        (wb / 256) as u8,
        (height % 256) as u8,
        (height / 256) as u8,
    ]
}

/// The full command sequence printing one raster image: the header, then
/// every row packed eight pixels per byte.
pub open spec fn image_commands(pixels: Seq<u8>, width: int, size: BitImageSize) -> Seq<u8> {
    let height = pixels.len() as int / width;
    image_header(size.mode_spec(), width_bytes(width), height) + packed_rows(pixels, width, height)
}

/// The packed value of the bit for column `col` of row `row`.
fn bit_at_exec(pixels: &Vec<u8>, width: usize, height: usize, row: usize, col: usize) -> (b: u8)
    requires
        width >= 1,
        pixels@.len() == width * height,
        row < height,
        col < width + 7,
    ensures
        b == bit_at(pixels@, width as int, row as int, col as int),
{
    if col < width {
        let n = pixels.len();
        proof {
            assert(row * width + col < width * height) by (nonlinear_arith)
                requires
                    row < height,
                    col < width,
                    width >= 1,
            ;
            assert(row * width + col < n);
        }
        if pixels[row * width + col] < BLACK_THRESHOLD {
            1
        } else {
            0
        }
    } else {
        0
    }
}

/// The packed byte covering columns `8 * bcol` through `8 * bcol + 7` of
/// row `row`.
fn pack_byte(pixels: &Vec<u8>, width: usize, height: usize, row: usize, bcol: usize) -> (b: u8)
    requires
        width >= 1,
        width <= MAX_DOT_WIDTH,
        pixels@.len() == width * height,
        row < height,
        8 * bcol < width,
    ensures
        b == packed_byte(pixels@, width as int, row as int, bcol as int),
{
    let base = 8 * bcol;
    let b0 = bit_at_exec(pixels, width, height, row, base);
    let b1 = bit_at_exec(pixels, width, height, row, base + 1);
    let b2 = bit_at_exec(pixels, width, height, row, base + 2);
    let b3 = bit_at_exec(pixels, width, height, row, base + 3);
    let b4 = bit_at_exec(pixels, width, height, row, base + 4);
    let b5 = bit_at_exec(pixels, width, height, row, base + 5);
    let b6 = bit_at_exec(pixels, width, height, row, base + 6);
    let b7 = bit_at_exec(pixels, width, height, row, base + 7);
    128 * b0 + 64 * b1 + 32 * b2 + 16 * b3 + 8 * b4 + 4 * b5 + 2 * b6 + b7
}

/// Validates the buffer geometry and builds the full raster command
/// sequence: header, then the packed bytes of every row.
///
/// A zero or over-wide width, an empty buffer, or a buffer that is not a
/// whole number of rows is a validation error.
pub fn image_commands_vec(pixels: &Vec<u8>, width: usize, size: BitImageSize) -> (r: Result<
    Vec<u8>,
    Error,
>)
    ensures
        r is Ok <==> image_valid(pixels@.len() as int, width as int),
        r is Ok ==> r.unwrap()@ == image_commands(pixels@, width as int, size),
        r is Err ==> r == Err::<Vec<u8>, Error>(Error::Validation),
{
    if width < 1 || width > MAX_DOT_WIDTH || pixels.len() < 1 || pixels.len() % width != 0
        || pixels.len() / width > 0xffff {
        return Err(Error::Validation);
    }
    let height = pixels.len() / width;
    proof {
        assert(pixels@.len() == width * height) by (nonlinear_arith)
            requires
                width >= 1,
                height == pixels@.len() as int / width as int,
                pixels@.len() as int % width as int == 0,
        ;
    }
    let wb = (width + 7) / 8;
    let mut out: Vec<u8> = Vec::new();
    out.push(0x1d);
    out.push(0x76);
    out.push(0x30);
    out.push(size.mode());
    out.push((wb % 256) as u8);
    out.push((wb / 256) as u8);
    out.push((height % 256) as u8);
    out.push((height / 256) as u8);
    let ghost header = image_header(size.mode_spec(), width_bytes(width as int), height as int);
    proof {
        assert(out@ =~= header);
    }
    let mut row: usize = 0;
    while row < height
        invariant
            row <= height,
            width >= 1,
            width <= MAX_DOT_WIDTH,
            wb == width_bytes(width as int),
            pixels@.len() == width * height,
            out@ == header + packed_rows(pixels@, width as int, row as int),
        decreases height - row,
    {
        let mut bcol: usize = 0;
        proof {
            assert(packed_row(pixels@, width as int, row as int).take(0) =~= Seq::<u8>::empty());
            assert(out@ =~= header + packed_rows(pixels@, width as int, row as int) + packed_row(
                pixels@,
                width as int,
                row as int,
            ).take(0));
        }
        while bcol < wb
            invariant
                bcol <= wb,
                row < height,
                width >= 1,
                width <= MAX_DOT_WIDTH,
                wb == width_bytes(width as int),
                pixels@.len() == width * height,
                out@ == header + packed_rows(pixels@, width as int, row as int) + packed_row(
                    pixels@,
                    width as int,
                    row as int,
                ).take(bcol as int),
            decreases wb - bcol,
        {
            let b = pack_byte(pixels, width, height, row, bcol);
            out.push(b);
            proof {
                let pr = packed_row(pixels@, width as int, row as int);
                assert(pr.take(bcol + 1) =~= pr.take(bcol as int).push(b));
                assert(out@ =~= header + packed_rows(pixels@, width as int, row as int) + pr.take(
                    bcol + 1,
                ));
            }
            bcol = bcol + 1;
        }
        proof {
            let pr = packed_row(pixels@, width as int, row as int);
            assert(pr.take(wb as int) =~= pr);
            assert(out@ =~= header + packed_rows(pixels@, width as int, row as int + 1));
        }
        row = row + 1;
    }
    Ok(out)
}

impl BitImage {
    /// Whether this image lies in the device's allowed ranges.
    pub open spec fn valid(self) -> bool {
        image_valid(self.pixels@.len() as int, self.width as int)
    }

    /// Validates this image and builds its full raster command sequence.
    pub fn commands(&self) -> (r: Result<Vec<u8>, Error>)
        ensures
            r is Ok <==> self.valid(),
            r is Ok ==> r.unwrap()@ == image_commands(self.pixels@, self.width as int, self.size),
            r is Err ==> r == Err::<Vec<u8>, Error>(Error::Validation),
    {
        image_commands_vec(&self.pixels, self.width, self.size)
    }
}

} // verus!
