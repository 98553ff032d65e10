//! Pixels of the four tile formats, and the reductions of four pixels to one.

use vstd::prelude::*;
use crate::attachment::AttachmentFormat;

verus! {

/// Arithmetic mean of four samples, rounded to the nearest integer; a tie
/// rounds up.
pub open spec fn mean4(a: int, b: int, c: int, d: int) -> int {
    (a + b + c + d + 2) / 4
}

/// The smallest of four samples.
pub open spec fn min4(a: int, b: int, c: int, d: int) -> int {
    let ab = if a <= b { a } else { b };
    let cd = if c <= d { c } else { d };
    if ab <= cd { ab } else { cd }
}

/// The largest of four samples.
pub open spec fn max4(a: int, b: int, c: int, d: int) -> int {
    let ab = if a >= b { a } else { b };
    let cd = if c >= d { c } else { d };
    if ab >= cd { ab } else { cd }
}

/// Channel by channel, the rounded mean of four pixels given by their channels.
pub open spec fn mean_channels(a: Seq<int>, b: Seq<int>, c: Seq<int>, d: Seq<int>) -> Seq<int> {
    Seq::new(a.len(), |i: int| mean4(a[i], b[i], c[i], d[i]))
}

/// The range that covers four ranges: channel 0 holds the smallest of the four
/// minima, channel 1 the largest of the four maxima.
pub open spec fn minmax_channels(a: Seq<int>, b: Seq<int>, c: Seq<int>, d: Seq<int>) -> Seq<int> {
    seq![min4(a[0], b[0], c[0], d[0]), max4(a[1], b[1], c[1], d[1])]
}

/// Channel values of 8-bit samples.
pub open spec fn channels_u8(samples: Seq<u8>) -> Seq<int> {
    Seq::new(samples.len(), |i: int| samples[i] as int)
}

/// Channel values of 16-bit samples.
pub open spec fn channels_u16(samples: Seq<u16>) -> Seq<int> {
    Seq::new(samples.len(), |i: int| samples[i] as int)
}

/// One pixel of a tile, in the tile's format.
#[derive(Clone, Copy, Debug, PartialEq, Eq)]
pub enum Pixel {
    /// Red, green, blue.
    Rgb8([u8; 3]),
    /// Red, green, blue, alpha.
    Rgba8([u8; 4]),
    /// A single value.
    R16([u16; 1]),
    /// A minimum and a maximum.
    Rg16([u16; 2]),
}

impl View for Pixel {
    type V = Seq<int>;

    /// The channel values, in order.
    open spec fn view(&self) -> Seq<int> {
        match *self {
            Pixel::Rgb8(s) => channels_u8(s@),
            Pixel::Rgba8(s) => channels_u8(s@),
            Pixel::R16(s) => channels_u16(s@),
            Pixel::Rg16(s) => channels_u16(s@),
        }
    }
}

impl Pixel {
    /// The format this pixel belongs to.
    pub open spec fn format(self) -> AttachmentFormat {
        match self {
            Pixel::Rgb8(_) => AttachmentFormat::Rgb8,
            Pixel::Rgba8(_) => AttachmentFormat::Rgba8,
            Pixel::R16(_) => AttachmentFormat::R16,
            Pixel::Rg16(_) => AttachmentFormat::Rg16,
        }
    }

    /// The format this pixel belongs to.
    pub fn kind(&self) -> (format: AttachmentFormat)
        ensures
            format == self.format(),
    {
        match self {
            Pixel::Rgb8(_) => AttachmentFormat::Rgb8,
            Pixel::Rgba8(_) => AttachmentFormat::Rgba8,
            Pixel::R16(_) => AttachmentFormat::R16,
            Pixel::Rg16(_) => AttachmentFormat::Rg16,
        }
    }

    /// The rounded mean of four pixels of one format, channel by channel.
    /// `None` where the four are not of one format.
    pub fn average(a: Pixel, b: Pixel, c: Pixel, d: Pixel) -> (mean: Option<Pixel>)
        ensures
            mean is Some <==> a.format() == b.format() && a.format() == c.format() && a.format()
                == d.format(),
            mean matches Some(m) ==> m.format() == a.format() && m@ == mean_channels(
                a@,
                b@,
                c@,
                d@,
            ),
    {
        match (a, b, c, d) {
            (Pixel::Rgb8(a), Pixel::Rgb8(b), Pixel::Rgb8(c), Pixel::Rgb8(d)) => {
                let m = average_u8(&a, &b, &c, &d);
                assert(channels_u8(m@) =~= mean_channels(
                    channels_u8(a@),
                    channels_u8(b@),
                    channels_u8(c@),
                    channels_u8(d@),
                ));
                Some(Pixel::Rgb8(m))
            },
            (Pixel::Rgba8(a), Pixel::Rgba8(b), Pixel::Rgba8(c), Pixel::Rgba8(d)) => {
                let m = average_u8(&a, &b, &c, &d);
                assert(channels_u8(m@) =~= mean_channels(
                    channels_u8(a@),
                    channels_u8(b@),
                    channels_u8(c@),
                    channels_u8(d@),
                ));
                Some(Pixel::Rgba8(m))
            },
            (Pixel::R16(a), Pixel::R16(b), Pixel::R16(c), Pixel::R16(d)) => {
                let m = average_u16(&a, &b, &c, &d);
                assert(channels_u16(m@) =~= mean_channels(
                    channels_u16(a@),
                    channels_u16(b@),
                    channels_u16(c@),
                    channels_u16(d@),
                ));
                Some(Pixel::R16(m))
            },
            (Pixel::Rg16(a), Pixel::Rg16(b), Pixel::Rg16(c), Pixel::Rg16(d)) => {
                let m = average_u16(&a, &b, &c, &d);
                assert(channels_u16(m@) =~= mean_channels(
                    channels_u16(a@),
                    channels_u16(b@),
                    channels_u16(c@),
                    channels_u16(d@),
                ));
                Some(Pixel::Rg16(m))
            },
            _ => None,
        }
    }

    /// The range that covers the ranges of four two-channel pixels: the
    /// smallest of their minima and the largest of their maxima. `None` where
    /// one of the four is not a two-channel 16-bit pixel.
    pub fn min_max(a: Pixel, b: Pixel, c: Pixel, d: Pixel) -> (range: Option<Pixel>)
        ensures
            range is Some <==> a.format() == AttachmentFormat::Rg16 && b.format()
                == AttachmentFormat::Rg16 && c.format() == AttachmentFormat::Rg16 && d.format()
                == AttachmentFormat::Rg16,
            range matches Some(r) ==> r.format() == AttachmentFormat::Rg16 && r@
                == minmax_channels(a@, b@, c@, d@),
    {
        match (a, b, c, d) {
            (Pixel::Rg16(a), Pixel::Rg16(b), Pixel::Rg16(c), Pixel::Rg16(d)) => {
                let low = smaller(smaller(a[0], b[0]), smaller(c[0], d[0]));
                let high = larger(larger(a[1], b[1]), larger(c[1], d[1]));
                let r = [low, high];
                assert(channels_u16(r@) =~= minmax_channels(
                    channels_u16(a@),
                    channels_u16(b@),
                    channels_u16(c@),
                    channels_u16(d@),
                ));
                Some(Pixel::Rg16(r))
            },
            _ => None,
        }
    }
}

/// A pixel has the channels of its format, each within the format's range.
pub proof fn pixel_fits_its_format(pixel: Pixel, channel: int)
    requires
        0 <= channel < pixel.format().channel_count(),
    ensures
        pixel@.len() == pixel.format().channel_count(),
        0 <= pixel@[channel] <= pixel.format().channel_max(),
{
}

/// The mean of four samples lies between the smallest and the largest of
/// them, so that a mean of equal samples is that sample.
pub proof fn mean_lies_between(a: int, b: int, c: int, d: int)
    ensures
        min4(a, b, c, d) <= mean4(a, b, c, d) <= max4(a, b, c, d),
{
}

/// The rounded mean of four 8-bit samples.
pub fn mean_u8(a: u8, b: u8, c: u8, d: u8) -> (m: u8)
    ensures
        m == mean4(a as int, b as int, c as int, d as int),
{
    let sum: u16 = a as u16 + b as u16 + c as u16 + d as u16 + 2;
    (sum / 4) as u8
}

/// The rounded mean of four 16-bit samples.
pub fn mean_u16(a: u16, b: u16, c: u16, d: u16) -> (m: u16)
    ensures
        m == mean4(a as int, b as int, c as int, d as int),
{
    let sum: u32 = a as u32 + b as u32 + c as u32 + d as u32 + 2;
    (sum / 4) as u16
}

fn smaller(a: u16, b: u16) -> (m: u16)
    ensures
        m == (if a <= b { a } else { b }),
{
    if a <= b { a } else { b }
}

fn larger(a: u16, b: u16) -> (m: u16)
    ensures
        m == (if a >= b { a } else { b }),
{
    if a >= b { a } else { b }
}

/// Channel by channel, the rounded mean of four pixels of `N` 8-bit channels.
pub fn average_u8<const N: usize>(a: &[u8; N], b: &[u8; N], c: &[u8; N], d: &[u8; N]) -> (m: [u8; N])
    ensures
        forall|i: int| 0 <= i < N ==> m@[i] == mean4(a@[i] as int, b@[i] as int, c@[i] as int, d@[i] as int),
{
    let mut m: [u8; N] = *a;
    let mut i: usize = 0;
    while i < N
        invariant
            i <= N,
            forall|j: int| 0 <= j < i ==> m@[j] == mean4(a@[j] as int, b@[j] as int, c@[j] as int, d@[j] as int),
        decreases N - i,
    {
        m[i] = mean_u8(a[i], b[i], c[i], d[i]);
        i += 1;
    }
    m
}

/// Channel by channel, the rounded mean of four pixels of `N` 16-bit channels.
pub fn average_u16<const N: usize>(a: &[u16; N], b: &[u16; N], c: &[u16; N], d: &[u16; N]) -> (m: [u16; N])
    ensures
        forall|i: int| 0 <= i < N ==> m@[i] == mean4(a@[i] as int, b@[i] as int, c@[i] as int, d@[i] as int),
{
    let mut m: [u16; N] = *a;
    let mut i: usize = 0;
    while i < N
        invariant
            i <= N,
            forall|j: int| 0 <= j < i ==> m@[j] == mean4(a@[j] as int, b@[j] as int, c@[j] as int, d@[j] as int),
        decreases N - i,
    {
        m[i] = mean_u16(a[i], b[i], c[i], d[i]);
        i += 1;
    }
    m
}

} // verus!
