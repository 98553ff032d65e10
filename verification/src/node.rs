//! Down-sampling one parent tile from its four children.
//!
//! A child that is not there is skipped: the quarter it would have painted
//! keeps what the parent held before, be it the fresh tile's default or what
//! an earlier run stored. The parent is left with a gap, on purpose and
//! without an error, so that sparse pyramids can be built.

use vstd::prelude::*;
use image::DynamicImage;
use crate::attachment::AttachmentConfig;
use crate::coords::Quadrant;
use crate::filter::{filtered_pixel, in_quadrant, painted, Filter, Pixels};
use crate::tile::{image_pixels, is_tile, tile_matches};

verus! {

/// Why a tile could not be painted.
#[derive(Clone, Copy, Debug, PartialEq, Eq, Structural)]
pub enum TileError {
    /// The filter cannot be used on tiles of the attachment's format.
    UnsupportedFormat,
    /// The parent image is not a tile of the attachment.
    ParentMismatch,
    /// A child image is not a tile of the attachment.
    ChildMismatch,
}

/// Whether a quarter of `node` can be painted from `child`, and if not, why.
/// A missing child is no error: there is nothing to paint, and nothing is
/// looked at.
pub open spec fn paint_check(
    filter: Filter,
    node: DynamicImage,
    child: Option<DynamicImage>,
    attachment: AttachmentConfig,
) -> Result<(), TileError> {
    match child {
        None => Ok(()),
        Some(child) => if !filter.supports(attachment.format) {
            Err(TileError::UnsupportedFormat)
        } else if !is_tile(node, attachment) {
            Err(TileError::ParentMismatch)
        } else if !is_tile(child, attachment) {
            Err(TileError::ChildMismatch)
        } else {
            Ok(())
        },
    }
}

/// The pixels of a parent tile after one child had its turn: painted where the
/// child is there, untouched where it is missing.
pub open spec fn with_child(
    filter: Filter,
    node: Pixels,
    child: Option<Pixels>,
    attachment: AttachmentConfig,
    quadrant: Quadrant,
) -> Pixels {
    match child {
        Some(child) => painted(filter, node, child, attachment, quadrant),
        None => node,
    }
}

/// The pixels of an image that may be missing.
pub open spec fn pixels_of(img: Option<DynamicImage>) -> Option<Pixels> {
    match img {
        Some(img) => Some(image_pixels(img)),
        None => None,
    }
}

/// Gives one child its turn at the parent tile `node`: paints the quarter
/// `quadrant` from `child`, or leaves the parent as it is where the child is
/// missing. On an error the parent is left as it is, too.
pub fn paint_quadrant(
    filter: Filter,
    node: &mut DynamicImage,
    child: Option<&DynamicImage>,
    attachment: &AttachmentConfig,
    quadrant: Quadrant,
) -> (result: Result<(), TileError>)
    ensures
        result == paint_check(
            filter,
            *old(node),
            match child {
                Some(c) => Some(*c),
                None => None,
            },
            *attachment,
        ),
        result is Err || child is None ==> *final(node) == *old(node),
        is_tile(*old(node), *attachment) ==> is_tile(*final(node), *attachment),
        result is Ok ==> image_pixels(*final(node)) == with_child(
            filter,
            image_pixels(*old(node)),
            match child {
                Some(c) => Some(image_pixels(*c)),
                None => None,
            },
            *attachment,
            quadrant,
        ),
{
    match child {
        None => Ok(()),
        Some(child) => {
            if !filter.accepts(attachment.format) {
                Err(TileError::UnsupportedFormat)
            } else if !tile_matches(node, attachment) {
                Err(TileError::ParentMismatch)
            } else if !tile_matches(child, attachment) {
                Err(TileError::ChildMismatch)
            } else {
                filter.apply(node, child, attachment, quadrant);
                Ok(())
            }
        },
    }
}

/// Whether a parent tile can be down-sampled from `children`, and if not, why:
/// the first complaint met when the children are gone through in the order in
/// which they paint.
pub open spec fn node_check(
    filter: Filter,
    node: DynamicImage,
    children: Seq<Option<DynamicImage>>,
    attachment: AttachmentConfig,
) -> Result<(), TileError> {
    if paint_check(filter, node, children[0], attachment) is Err {
        paint_check(filter, node, children[0], attachment)
    } else if paint_check(filter, node, children[1], attachment) is Err {
        paint_check(filter, node, children[1], attachment)
    } else if paint_check(filter, node, children[2], attachment) is Err {
        paint_check(filter, node, children[2], attachment)
    } else {
        paint_check(filter, node, children[3], attachment)
    }
}

/// The pixels of a parent tile after each of its four children had its turn,
/// top left, top right, bottom left, bottom right.
pub open spec fn down_sampled(
    filter: Filter,
    node: Pixels,
    children: Seq<Option<Pixels>>,
    attachment: AttachmentConfig,
) -> Pixels {
    let first = with_child(filter, node, children[0], attachment, Quadrant::TopLeft);
    let second = with_child(filter, first, children[1], attachment, Quadrant::TopRight);
    let third = with_child(filter, second, children[2], attachment, Quadrant::BottomLeft);
    with_child(filter, third, children[3], attachment, Quadrant::BottomRight)
}

/// The pixels of four images, each of which may be missing.
pub open spec fn children_pixels(children: Seq<Option<DynamicImage>>) -> Seq<Option<Pixels>> {
    Seq::new(4, |i: int| pixels_of(children[i]))
}

/// Down-samples the parent tile `node` from its four children, given in the
/// order top left, top right, bottom left, bottom right. Each child that is
/// there paints its quarter; the quarter of a missing child keeps what the
/// parent held. All images are checked before the first pixel is written, so
/// that on an error the parent is left as it is.
pub fn down_sample_node(
    filter: Filter,
    node: &mut DynamicImage,
    children: &[Option<DynamicImage>; 4],
    attachment: &AttachmentConfig,
) -> (result: Result<(), TileError>)
    ensures
        result == node_check(filter, *old(node), children@, *attachment),
        result is Err ==> *final(node) == *old(node),
        is_tile(*old(node), *attachment) ==> is_tile(*final(node), *attachment),
        result is Ok ==> image_pixels(*final(node)) == down_sampled(
            filter,
            image_pixels(*old(node)),
            children_pixels(children@),
            *attachment,
        ),
{
    let mut i: usize = 0;
    while i < 4
        invariant
            i <= 4,
            *node == *old(node),
            forall|j: int| 0 <= j < i ==> paint_check(filter, *node, children@[j], *attachment) is Ok,
        decreases 4 - i,
    {
        if let Some(child) = &children[i] {
            if !filter.accepts(attachment.format) {
                return Err(TileError::UnsupportedFormat);
            } else if !tile_matches(node, attachment) {
                return Err(TileError::ParentMismatch);
            } else if !tile_matches(child, attachment) {
                return Err(TileError::ChildMismatch);
            }
        }
        i += 1;
    }
    let ghost before = image_pixels(*node);
    let ghost sources = children_pixels(children@);
    let ghost first = with_child(filter, before, sources[0], *attachment, Quadrant::TopLeft);
    let ghost second = with_child(filter, first, sources[1], *attachment, Quadrant::TopRight);
    let ghost third = with_child(filter, second, sources[2], *attachment, Quadrant::BottomLeft);
    if let Some(child) = &children[0] {
        filter.apply(node, child, attachment, Quadrant::TopLeft);
    }
    assert(image_pixels(*node) == first);
    if let Some(child) = &children[1] {
        filter.apply(node, child, attachment, Quadrant::TopRight);
    }
    assert(image_pixels(*node) == second);
    if let Some(child) = &children[2] {
        filter.apply(node, child, attachment, Quadrant::BottomLeft);
    }
    assert(image_pixels(*node) == third);
    if let Some(child) = &children[3] {
        filter.apply(node, child, attachment, Quadrant::BottomRight);
    }
    Ok(())
}

/// Down-sampling is idempotent: a second run over the same children leaves the
/// parent tile exactly as the first run left it.
pub proof fn down_sampling_twice_is_down_sampling_once(
    filter: Filter,
    node: Pixels,
    children: Seq<Option<Pixels>>,
    attachment: AttachmentConfig,
)
    ensures
        down_sampled(filter, down_sampled(filter, node, children, attachment), children, attachment)
            == down_sampled(filter, node, children, attachment),
{
    assert(down_sampled(
        filter,
        down_sampled(filter, node, children, attachment),
        children,
        attachment,
    ) =~= down_sampled(filter, node, children, attachment));
}

/// A missing child leaves a gap: every pixel of its quarter is after
/// down-sampling what the parent held before.
pub proof fn missing_child_leaves_a_gap(
    filter: Filter,
    node: Pixels,
    children: Seq<Option<Pixels>>,
    attachment: AttachmentConfig,
    quadrant: Quadrant,
    x: int,
    y: int,
)
    requires
        children[quadrant.rank()] is None,
        in_quadrant(attachment, quadrant, x, y),
        node.dom().contains((x, y)),
    ensures
        down_sampled(filter, node, children, attachment).dom().contains((x, y)),
        down_sampled(filter, node, children, attachment)[(x, y)] == node[(x, y)],
{
}

/// A child that is there fills its quarter: every pixel of the quarter is
/// after down-sampling the reduction of its block of that child, whatever the
/// other children are.
pub proof fn present_child_fills_its_quarter(
    filter: Filter,
    node: Pixels,
    children: Seq<Option<Pixels>>,
    attachment: AttachmentConfig,
    quadrant: Quadrant,
    x: int,
    y: int,
)
    requires
        children[quadrant.rank()] is Some,
        in_quadrant(attachment, quadrant, x, y),
    ensures
        down_sampled(filter, node, children, attachment).dom().contains((x, y)),
        down_sampled(filter, node, children, attachment)[(x, y)] == filtered_pixel(
            filter,
            children[quadrant.rank()]->Some_0,
            attachment,
            quadrant,
            x,
            y,
        ),
{
}

/// What lies in no quarter is never written: the border of the parent, and,
/// where the valid region has an odd edge, its last row and column.
pub proof fn outside_the_quarters_nothing_changes(
    filter: Filter,
    node: Pixels,
    children: Seq<Option<Pixels>>,
    attachment: AttachmentConfig,
    x: int,
    y: int,
)
    requires
        node.dom().contains((x, y)),
        forall|quadrant: Quadrant| !in_quadrant(attachment, quadrant, x, y),
    ensures
        down_sampled(filter, node, children, attachment).dom().contains((x, y)),
        down_sampled(filter, node, children, attachment)[(x, y)] == node[(x, y)],
{
    assert(!in_quadrant(attachment, Quadrant::TopLeft, x, y));
    assert(!in_quadrant(attachment, Quadrant::TopRight, x, y));
    assert(!in_quadrant(attachment, Quadrant::BottomLeft, x, y));
    assert(!in_quadrant(attachment, Quadrant::BottomRight, x, y));
}

} // verus!
