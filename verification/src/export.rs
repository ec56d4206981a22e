//! The plain text form of an image.

use vstd::prelude::*;

verus! {

/// The digits of `n` in base ten, as the bytes of their characters.
pub open spec fn decimal(n: nat) -> Seq<u8>
    decreases n,
{
    if n < 10 {
        seq![(48 + n) as u8]
    } else {
        decimal(n / 10).push((48 + n % 10) as u8)
    }
}

/// The head of an image of `width` columns and `height` rows: the line
/// that names the plain text format, a capital P and the digit 3, then the
/// line of the width and the height, and the line `255` of the greatest
/// level of a colour.
pub open spec fn ppm_header(width: u32, height: u32) -> Seq<u8> {
    seq![80u8, 51, 10] + decimal(width as nat) + seq![32u8] + decimal(height as nat) + seq![
        10u8,
        50,
        53,
        53,
        10,
    ]
}

/// The line of one pixel: its red, green and blue level, with a blank
/// between.
pub open spec fn ppm_pixel(rgb: [u8; 3]) -> Seq<u8> {
    decimal(rgb[0] as nat) + seq![32u8] + decimal(rgb[1] as nat) + seq![32u8] + decimal(
        rgb[2] as nat,
    ) + seq![10u8]
}

/// The lines of the first `n` pixels.
pub open spec fn ppm_pixels(colors: Seq<[u8; 3]>, n: int) -> Seq<u8>
    decreases n,
{
    if n <= 0 {
        Seq::empty()
    } else {
        ppm_pixels(colors, n - 1) + ppm_pixel(colors[n - 1])
    }
}

/// The bytes of the first `n` pixels, three for each: red, green, blue.
pub open spec fn raster(colors: Seq<[u8; 3]>, n: int) -> Seq<u8>
    decreases n,
{
    if n <= 0 {
        Seq::empty()
    } else {
        raster(colors, n - 1).push(colors[n - 1][0]).push(colors[n - 1][1]).push(colors[n - 1][2])
    }
}

/// How far the writing of a raster image has come.
#[derive(Clone, Copy, Debug, PartialEq, Eq, Structural)]
pub enum PngWriter {
    /// Nothing was written yet.
    Waiting,
    /// The head was written, for an image of this width and height.
    Ready { width: u32, height: u32 },
}

impl PngWriter {
    /// A writer that has written nothing.
    pub fn new() -> (r: PngWriter)
        ensures
            r == PngWriter::Waiting,
    {
        PngWriter::Waiting
    }

    /// Notes that the head of an image of `width` columns and `height`
    /// rows is written. A head is written once.
    pub fn write_header(&mut self, width: u32, height: u32)
        requires
            *old(self) == PngWriter::Waiting,
        ensures
            *final(self) == (PngWriter::Ready { width, height }),
    {
        *self = PngWriter::Ready { width, height };
    }

    /// The bytes of the pixels given as they go into the image after its
    /// head: three for each pixel, red, green and blue, row by row.
    pub fn write(&self, colors: &Vec<[u8; 3]>) -> (buf: Vec<u8>)
        requires
            *self is Ready,
        ensures
            buf@ == raster(colors@, colors@.len() as int),
            buf@.len() == 3 * colors@.len(),
    {
        let mut buf: Vec<u8> = Vec::new();
        let mut k: usize = 0;
        while k < colors.len()
            invariant
                0 <= k <= colors@.len(),
                buf@ == raster(colors@, k as int),
                buf@.len() == 3 * k,
            decreases colors@.len() - k,
        {
            let rgb = colors[k];
            buf.push(rgb[0]);
            buf.push(rgb[1]);
            buf.push(rgb[2]);
            k = k + 1;
        }
        buf
    }
}

/// Writes an image as plain text. It holds what was written so far.
#[derive(Debug)]
pub struct PpmWriter {
    pub out: Vec<u8>,
}

/// Adds the digits of `n` to `out`.
fn push_decimal(out: &mut Vec<u8>, n: u32)
    ensures
        final(out)@ == old(out)@ + decimal(n as nat),
    decreases n,
{
    if n >= 10 {
        push_decimal(out, n / 10);
    }
    let digit: u8 = 48 + (n % 10) as u8;
    out.push(digit);
    proof {
        assert(final(out)@ =~= old(out)@ + decimal(n as nat));
    }
}

impl PpmWriter {
    /// A writer that has written nothing.
    pub fn new() -> (r: PpmWriter)
        ensures
            r.out@ == Seq::<u8>::empty(),
    {
        PpmWriter { out: Vec::new() }
    }

    /// Writes the head of an image of `width` columns and `height` rows.
    pub fn write_header(&mut self, width: u32, height: u32)
        ensures
            final(self).out@ == old(self).out@ + ppm_header(width, height),
    {
        self.out.push(80);
        self.out.push(51);
        self.out.push(10);
        push_decimal(&mut self.out, width);
        self.out.push(32);
        push_decimal(&mut self.out, height);
        self.out.push(10);
        self.out.push(50);
        self.out.push(53);
        self.out.push(53);
        self.out.push(10);
        proof {
            assert(self.out@ =~= old(self).out@ + ppm_header(width, height));
        }
    }

    /// Writes the pixels given, one line for each: the red, the green and
    /// the blue level of the pixel, out of 255.
    pub fn write(&mut self, colors: &Vec<[u8; 3]>)
        ensures
            final(self).out@ == old(self).out@ + ppm_pixels(colors@, colors@.len() as int),
    {
        let mut k: usize = 0;
        while k < colors.len()
            invariant
                0 <= k <= colors@.len(),
                self.out@ == old(self).out@ + ppm_pixels(colors@, k as int),
            decreases colors@.len() - k,
        {
            let rgb = colors[k];
            let ghost before = self.out@;
            push_decimal(&mut self.out, rgb[0] as u32);
            self.out.push(32);
            push_decimal(&mut self.out, rgb[1] as u32);
            self.out.push(32);
            push_decimal(&mut self.out, rgb[2] as u32);
            self.out.push(10);
            proof {
                assert(self.out@ =~= before + ppm_pixel(rgb));
                assert(self.out@ =~= old(self).out@ + ppm_pixels(colors@, k as int + 1));
            }
            k = k + 1;
        }
    }

    /// What was written, as bytes.
    pub fn into_bytes(self) -> (bytes: Vec<u8>)
        ensures
            bytes@ == self.out@,
    {
        self.out
    }
}

} // verus!
