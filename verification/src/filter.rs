//! The filters that paint one quarter of a parent tile from one child tile.
//!
//! Each pixel of the quarter is reduced from a two-by-two block of the child's
//! valid region. The border of the child is never read, and nothing outside
//! the quarter is written.

use vstd::prelude::*;
use image::DynamicImage;
use crate::attachment::{AttachmentConfig, AttachmentFormat};
use crate::coords::Quadrant;
use crate::pixel::{max4, mean4, mean_channels, min4, minmax_channels, Pixel};
use crate::tile::{get_pixel, image_pixels, is_tile, put_pixel};

verus! {

/// The pixels of an image as a map from position `(x, y)` to channel values.
pub type Pixels = Map<(int, int), Seq<int>>;

/// How four child pixels are reduced to one parent pixel.
#[derive(Clone, Copy, Debug, PartialEq, Eq, Structural)]
pub enum Filter {
    /// The rounded arithmetic mean of each channel. Fits every format.
    Linear,
    /// The smallest of the first channel and the largest of the second, for
    /// tiles whose two channels bound a value from below and above.
    MinMax,
}

impl Filter {
    /// Whether the filter can be used on tiles of `format`.
    pub open spec fn supports(self, format: AttachmentFormat) -> bool {
        self == Filter::Linear || format == AttachmentFormat::Rg16
    }

    /// The channels of the parent pixel that four child pixels reduce to.
    pub open spec fn reduced(self, a: Seq<int>, b: Seq<int>, c: Seq<int>, d: Seq<int>) -> Seq<int> {
        match self {
            Filter::Linear => mean_channels(a, b, c, d),
            Filter::MinMax => minmax_channels(a, b, c, d),
        }
    }

    /// Tests whether the filter can be used on tiles of `format`.
    pub fn accepts(self, format: AttachmentFormat) -> (ok: bool)
        ensures
            ok == self.supports(format),
    {
        match self {
            Filter::Linear => true,
            Filter::MinMax => format == AttachmentFormat::Rg16,
        }
    }

    /// Reduces four child pixels to one parent pixel. `None` where the four
    /// are not of one format, or of one the filter cannot be used on.
    pub fn reduce(self, a: Pixel, b: Pixel, c: Pixel, d: Pixel) -> (pixel: Option<Pixel>)
        ensures
            pixel is Some <==> self.supports(a.format()) && a.format() == b.format() && a.format()
                == c.format() && a.format() == d.format(),
            pixel matches Some(p) ==> p.format() == a.format() && p@ == self.reduced(a@, b@, c@, d@),
    {
        match self {
            Filter::Linear => Pixel::average(a, b, c, d),
            Filter::MinMax => Pixel::min_max(a, b, c, d),
        }
    }

    /// Paints the quarter `quadrant` of the parent tile `node` from `child`.
    ///
    /// Each pixel of the quarter becomes the reduction of its two-by-two block
    /// of the child's valid region; every other pixel of the parent, its border
    /// included, keeps its value.
    pub fn apply(
        self,
        node: &mut DynamicImage,
        child: &DynamicImage,
        attachment: &AttachmentConfig,
        quadrant: Quadrant,
    )
        requires
            is_tile(*old(node), *attachment),
            is_tile(*child, *attachment),
            self.supports(attachment.format),
        ensures
            is_tile(*final(node), *attachment),
            image_pixels(*final(node)) == painted(
                self,
                image_pixels(*old(node)),
                image_pixels(*child),
                *attachment,
                quadrant,
            ),
    {
        let ghost before = image_pixels(*node);
        let ghost source = image_pixels(*child);
        let half: u32 = attachment.half_size();
        let border: u32 = attachment.border_size;
        let left: u32 = border + (if quadrant.x() == 1 { half } else { 0 });
        let top: u32 = border + (if quadrant.y() == 1 { half } else { 0 });
        let mut x: u32 = 0;
        while x < half
            invariant
                x <= half,
                half == attachment.half(),
                border == attachment.border_size,
                left == quadrant_left(*attachment, quadrant),
                top == quadrant_top(*attachment, quadrant),
                self.supports(attachment.format),
                is_tile(*node, *attachment),
                is_tile(*child, *attachment),
                source == image_pixels(*child),
                image_pixels(*node) == before.union_prefer_right(
                    columns(self, source, *attachment, quadrant, x as int, 0),
                ),
            decreases half - x,
        {
            let mut y: u32 = 0;
            while y < half
                invariant
                    x < half,
                    y <= half,
                    half == attachment.half(),
                    border == attachment.border_size,
                    left == quadrant_left(*attachment, quadrant),
                    top == quadrant_top(*attachment, quadrant),
                    self.supports(attachment.format),
                    is_tile(*node, *attachment),
                    is_tile(*child, *attachment),
                    source == image_pixels(*child),
                    image_pixels(*node) == before.union_prefer_right(
                        columns(self, source, *attachment, quadrant, x as int, y as int),
                    ),
                decreases half - y,
            {
                let sx: u32 = 2 * x + border;
                let sy: u32 = 2 * y + border;
                let a = get_pixel(child, sx, sy);
                let b = get_pixel(child, sx + 1, sy);
                let c = get_pixel(child, sx, sy + 1);
                let d = get_pixel(child, sx + 1, sy + 1);
                let reduced = self.reduce(a.unwrap(), b.unwrap(), c.unwrap(), d.unwrap());
                let ghost earlier = image_pixels(*node);
                put_pixel(node, left + x, top + y, reduced.unwrap());
                proof {
                    let place = ((left + x) as int, (top + y) as int);
                    assert(in_quadrant(*attachment, quadrant, place.0, place.1));
                    assert(source_block(*attachment, quadrant, place.0, place.1) == (sx as int, sy as int));
                    assert(earlier.dom().insert(place) =~= earlier.dom());
                    assert(image_pixels(*node) == earlier.insert(
                        place,
                        filtered_pixel(self, source, *attachment, quadrant, place.0, place.1),
                    ));
                    assert(image_pixels(*node) =~= before.union_prefer_right(
                        columns(self, source, *attachment, quadrant, x as int, y + 1),
                    ));
                }
                y += 1;
            }
            assert(columns(self, source, *attachment, quadrant, x as int, half as int) =~= columns(
                self,
                source,
                *attachment,
                quadrant,
                x + 1,
                0,
            ));
            x += 1;
        }
        assert(columns(self, source, *attachment, quadrant, half as int, 0) =~= patch(
            self,
            source,
            *attachment,
            quadrant,
        ));
    }
}

/// The left edge of a quarter of a parent tile.
pub open spec fn quadrant_left(attachment: AttachmentConfig, quadrant: Quadrant) -> int {
    attachment.border_size + (if quadrant.dx() == 1 { attachment.half() } else { 0 })
}

/// The top edge of a quarter of a parent tile.
pub open spec fn quadrant_top(attachment: AttachmentConfig, quadrant: Quadrant) -> int {
    attachment.border_size + (if quadrant.dy() == 1 { attachment.half() } else { 0 })
}

/// Whether the pixel `(x, y)` of a parent tile lies in the quarter `quadrant`.
pub open spec fn in_quadrant(attachment: AttachmentConfig, quadrant: Quadrant, x: int, y: int) -> bool {
    &&& quadrant_left(attachment, quadrant) <= x < quadrant_left(attachment, quadrant)
        + attachment.half()
    &&& quadrant_top(attachment, quadrant) <= y < quadrant_top(attachment, quadrant)
        + attachment.half()
}

/// The top left corner of the two-by-two block of the child tile that the
/// pixel `(x, y)` of the parent tile is reduced from.
pub open spec fn source_block(attachment: AttachmentConfig, quadrant: Quadrant, x: int, y: int) -> (int, int) {
    (
        attachment.border_size + 2 * (x - quadrant_left(attachment, quadrant)),
        attachment.border_size + 2 * (y - quadrant_top(attachment, quadrant)),
    )
}

/// The value that the pixel `(x, y)` of the quarter `quadrant` takes from the
/// child tile with pixels `child`.
pub open spec fn filtered_pixel(
    filter: Filter,
    child: Pixels,
    attachment: AttachmentConfig,
    quadrant: Quadrant,
    x: int,
    y: int,
) -> Seq<int> {
    let (sx, sy) = source_block(attachment, quadrant, x, y);
    filter.reduced(child[(sx, sy)], child[(sx + 1, sy)], child[(sx, sy + 1)], child[(sx + 1, sy + 1)])
}

/// What a child tile contributes to its parent: the filtered pixels of the
/// quarter `quadrant`, and nothing else.
pub open spec fn patch(filter: Filter, child: Pixels, attachment: AttachmentConfig, quadrant: Quadrant) -> Pixels {
    Map::new(
        |p: (int, int)| in_quadrant(attachment, quadrant, p.0, p.1),
        |p: (int, int)| filtered_pixel(filter, child, attachment, quadrant, p.0, p.1),
    )
}

/// The pixels of a parent tile after the quarter `quadrant` was painted from a
/// child tile: the child's contribution laid over what the parent held.
pub open spec fn painted(
    filter: Filter,
    node: Pixels,
    child: Pixels,
    attachment: AttachmentConfig,
    quadrant: Quadrant,
) -> Pixels {
    node.union_prefer_right(patch(filter, child, attachment, quadrant))
}

/// The part of a child's contribution that is painted before the pixel in
/// column `column` and row `row` of the quarter, going column by column.
spec fn columns(
    filter: Filter,
    child: Pixels,
    attachment: AttachmentConfig,
    quadrant: Quadrant,
    column: int,
    row: int,
) -> Pixels {
    Map::new(
        |p: (int, int)|
            in_quadrant(attachment, quadrant, p.0, p.1) && (p.0 - quadrant_left(attachment, quadrant)
                < column || (p.0 - quadrant_left(attachment, quadrant) == column && p.1
                - quadrant_top(attachment, quadrant) < row)),
        |p: (int, int)| filtered_pixel(filter, child, attachment, quadrant, p.0, p.1),
    )
}

/// Paints the quarter `quadrant` of the parent tile `node` with the rounded
/// mean of each two-by-two block of the valid region of `child`.
pub fn linear(
    node: &mut DynamicImage,
    child: &DynamicImage,
    attachment: &AttachmentConfig,
    quadrant: Quadrant,
)
    requires
        is_tile(*old(node), *attachment),
        is_tile(*child, *attachment),
    ensures
        is_tile(*final(node), *attachment),
        image_pixels(*final(node)) == painted(
            Filter::Linear,
            image_pixels(*old(node)),
            image_pixels(*child),
            *attachment,
            quadrant,
        ),
{
    Filter::Linear.apply(node, child, attachment, quadrant)
}

/// Paints the quarter `quadrant` of the parent tile `node` with the range that
/// covers each two-by-two block of the valid region of `child`: the smallest
/// of the four minima in channel 0, the largest of the four maxima in
/// channel 1. Only for tiles of two 16-bit channels.
pub fn minmax(
    node: &mut DynamicImage,
    child: &DynamicImage,
    attachment: &AttachmentConfig,
    quadrant: Quadrant,
)
    requires
        attachment.format == AttachmentFormat::Rg16,
        is_tile(*old(node), *attachment),
        is_tile(*child, *attachment),
    ensures
        is_tile(*final(node), *attachment),
        image_pixels(*final(node)) == painted(
            Filter::MinMax,
            image_pixels(*old(node)),
            image_pixels(*child),
            *attachment,
            quadrant,
        ),
{
    Filter::MinMax.apply(node, child, attachment, quadrant)
}

/// Averaging is exact: after the linear filter, the pixel in column `lx` and
/// row `ly` of the painted quarter holds in each channel the rounded mean of
/// that channel over the child's pixels `(2 lx, 2 ly)`, `(2 lx + 1, 2 ly)`,
/// `(2 lx, 2 ly + 1)` and `(2 lx + 1, 2 ly + 1)`, counted from the inner edge
/// of the border on both sides.
pub proof fn linear_takes_the_mean(
    node: Pixels,
    child: Pixels,
    attachment: AttachmentConfig,
    quadrant: Quadrant,
    lx: int,
    ly: int,
    channel: int,
)
    requires
        0 <= lx < attachment.half(),
        0 <= ly < attachment.half(),
        0 <= channel < child[(attachment.border_size + 2 * lx, attachment.border_size + 2 * ly)].len(),
    ensures
        ({
            let border = attachment.border_size as int;
            let after = painted(Filter::Linear, node, child, attachment, quadrant);
            let pixel = after[(
                quadrant_left(attachment, quadrant) + lx,
                quadrant_top(attachment, quadrant) + ly,
            )];
            &&& pixel.len() == child[(border + 2 * lx, border + 2 * ly)].len()
            &&& pixel[channel] == mean4(
                child[(border + 2 * lx, border + 2 * ly)][channel],
                child[(border + 2 * lx + 1, border + 2 * ly)][channel],
                child[(border + 2 * lx, border + 2 * ly + 1)][channel],
                child[(border + 2 * lx + 1, border + 2 * ly + 1)][channel],
            )
        }),
{
    let x = quadrant_left(attachment, quadrant) + lx;
    let y = quadrant_top(attachment, quadrant) + ly;
    assert(in_quadrant(attachment, quadrant, x, y));
    assert(source_block(attachment, quadrant, x, y) == (
        attachment.border_size + 2 * lx,
        attachment.border_size + 2 * ly,
    ));
}

/// A uniform child paints a uniform quarter: where every pixel of the child's
/// valid region holds the same channel values, the linear filter gives every
/// pixel of the quarter these values.
pub proof fn uniform_child_paints_its_value(
    node: Pixels,
    child: Pixels,
    value: Seq<int>,
    attachment: AttachmentConfig,
    quadrant: Quadrant,
    x: int,
    y: int,
)
    requires
        forall|i: int, j: int| attachment.in_center(i, j) ==> #[trigger] child[(i, j)] == value,
        in_quadrant(attachment, quadrant, x, y),
    ensures
        painted(Filter::Linear, node, child, attachment, quadrant)[(x, y)] == value,
{
    let (sx, sy) = source_block(attachment, quadrant, x, y);
    assert(child[(sx, sy)] == value);
    assert(child[(sx + 1, sy)] == value);
    assert(child[(sx, sy + 1)] == value);
    assert(child[(sx + 1, sy + 1)] == value);
    assert(mean_channels(value, value, value, value) =~= value);
}

/// Min-max is exact: after the min-max filter, the pixel in column `lx` and
/// row `ly` of the painted quarter holds in channel 0 the smallest of the four
/// channel-0 values of its block of the child, and in channel 1 the largest of
/// the four channel-1 values. Nothing is rounded.
pub proof fn minmax_takes_the_extremes(
    node: Pixels,
    child: Pixels,
    attachment: AttachmentConfig,
    quadrant: Quadrant,
    lx: int,
    ly: int,
)
    requires
        0 <= lx < attachment.half(),
        0 <= ly < attachment.half(),
    ensures
        ({
            let border = attachment.border_size as int;
            let after = painted(Filter::MinMax, node, child, attachment, quadrant);
            let pixel = after[(
                quadrant_left(attachment, quadrant) + lx,
                quadrant_top(attachment, quadrant) + ly,
            )];
            &&& pixel.len() == 2
            &&& pixel[0] == min4(
                child[(border + 2 * lx, border + 2 * ly)][0],
                child[(border + 2 * lx + 1, border + 2 * ly)][0],
                child[(border + 2 * lx, border + 2 * ly + 1)][0],
                child[(border + 2 * lx + 1, border + 2 * ly + 1)][0],
            )
            &&& pixel[1] == max4(
                child[(border + 2 * lx, border + 2 * ly)][1],
                child[(border + 2 * lx + 1, border + 2 * ly)][1],
                child[(border + 2 * lx, border + 2 * ly + 1)][1],
                child[(border + 2 * lx + 1, border + 2 * ly + 1)][1],
            )
        }),
{
    let x = quadrant_left(attachment, quadrant) + lx;
    let y = quadrant_top(attachment, quadrant) + ly;
    assert(in_quadrant(attachment, quadrant, x, y));
    assert(source_block(attachment, quadrant, x, y) == (
        attachment.border_size + 2 * lx,
        attachment.border_size + 2 * ly,
    ));
}

/// The border of a child is never read: two children that agree on their
/// valid regions paint the same, whatever their borders hold.
pub proof fn border_is_never_read(
    filter: Filter,
    node: Pixels,
    first: Pixels,
    second: Pixels,
    attachment: AttachmentConfig,
    quadrant: Quadrant,
)
    requires
        forall|x: int, y: int| attachment.in_center(x, y) ==> #[trigger] first[(x, y)] == second[(x, y)],
    ensures
        patch(filter, first, attachment, quadrant) == patch(filter, second, attachment, quadrant),
        painted(filter, node, first, attachment, quadrant) == painted(
            filter,
            node,
            second,
            attachment,
            quadrant,
        ),
{
    assert forall|p: (int, int)| in_quadrant(attachment, quadrant, p.0, p.1) implies filtered_pixel(
        filter,
        first,
        attachment,
        quadrant,
        p.0,
        p.1,
    ) == filtered_pixel(filter, second, attachment, quadrant, p.0, p.1) by {
        let (sx, sy) = source_block(attachment, quadrant, p.0, p.1);
        assert(first[(sx, sy)] == second[(sx, sy)]);
        assert(first[(sx + 1, sy)] == second[(sx + 1, sy)]);
        assert(first[(sx, sy + 1)] == second[(sx, sy + 1)]);
        assert(first[(sx + 1, sy + 1)] == second[(sx + 1, sy + 1)]);
    }
    assert(patch(filter, first, attachment, quadrant) =~= patch(filter, second, attachment, quadrant));
}

/// Painting is idempotent: painting a quarter a second time from the same
/// child changes nothing.
pub proof fn painting_twice_is_painting_once(
    filter: Filter,
    node: Pixels,
    child: Pixels,
    attachment: AttachmentConfig,
    quadrant: Quadrant,
)
    ensures
        painted(filter, painted(filter, node, child, attachment, quadrant), child, attachment, quadrant)
            == painted(filter, node, child, attachment, quadrant),
{
    assert(painted(
        filter,
        painted(filter, node, child, attachment, quadrant),
        child,
        attachment,
        quadrant,
    ) =~= painted(filter, node, child, attachment, quadrant));
}

/// A quarter lies in the valid region of the parent tile, in the half that its
/// quadrant names: the left half exactly where the horizontal offset is 0, the
/// upper half exactly where the vertical offset is 0.
pub proof fn quadrant_lies_in_its_quarter(attachment: AttachmentConfig, quadrant: Quadrant, x: int, y: int)
    requires
        in_quadrant(attachment, quadrant, x, y),
    ensures
        attachment.in_center(x, y),
        quadrant.dx() == 0 <==> x - attachment.border_size < attachment.half(),
        quadrant.dy() == 0 <==> y - attachment.border_size < attachment.half(),
{
}

/// No pixel lies in two quarters.
pub proof fn quadrants_are_disjoint(
    attachment: AttachmentConfig,
    first: Quadrant,
    second: Quadrant,
    x: int,
    y: int,
)
    requires
        in_quadrant(attachment, first, x, y),
        in_quadrant(attachment, second, x, y),
    ensures
        first == second,
{
}

/// A filter writes into its quarter and nowhere else: every pixel outside the
/// quarter, the border included, is after painting what it was before.
pub proof fn paints_only_its_quadrant(
    filter: Filter,
    node: Pixels,
    child: Pixels,
    attachment: AttachmentConfig,
    quadrant: Quadrant,
    x: int,
    y: int,
)
    requires
        node.dom().contains((x, y)),
        !in_quadrant(attachment, quadrant, x, y),
    ensures
        painted(filter, node, child, attachment, quadrant).dom().contains((x, y)),
        painted(filter, node, child, attachment, quadrant)[(x, y)] == node[(x, y)],
{
}

/// A quarter on the right leaves the left half of the parent tile alone, and
/// one on the left the right half; likewise a lower quarter the upper half,
/// and an upper quarter the lower half.
pub proof fn other_half_is_untouched(
    filter: Filter,
    node: Pixels,
    child: Pixels,
    attachment: AttachmentConfig,
    quadrant: Quadrant,
    x: int,
    y: int,
)
    requires
        node.dom().contains((x, y)),
        (quadrant.dx() == 1) != (x - attachment.border_size >= attachment.half()) || (quadrant.dy()
            == 1) != (y - attachment.border_size >= attachment.half()),
    ensures
        painted(filter, node, child, attachment, quadrant)[(x, y)] == node[(x, y)],
{
}

/// Inside its quarter a filter leaves nothing of what the parent held: each
/// pixel there is the reduction of its block of the child.
pub proof fn paints_all_of_its_quadrant(
    filter: Filter,
    node: Pixels,
    child: Pixels,
    attachment: AttachmentConfig,
    quadrant: Quadrant,
    x: int,
    y: int,
)
    requires
        in_quadrant(attachment, quadrant, x, y),
    ensures
        painted(filter, node, child, attachment, quadrant)[(x, y)] == filtered_pixel(
            filter,
            child,
            attachment,
            quadrant,
            x,
            y,
        ),
        painted(filter, node, child, attachment, quadrant).dom().contains((x, y)),
{
}

} // verus!
