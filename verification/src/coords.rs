//! Tile coordinates and the quadrants of a parent tile.

use vstd::prelude::*;

verus! {

/// One quarter of a parent tile: the part that one of its four children paints.
#[derive(Clone, Copy, Debug, PartialEq, Eq, Structural)]
pub enum Quadrant {
    /// Offset `(0, 0)`.
    TopLeft,
    /// Offset `(1, 0)`.
    TopRight,
    /// Offset `(0, 1)`.
    BottomLeft,
    /// Offset `(1, 1)`.
    BottomRight,
}

impl Quadrant {
    /// Horizontal offset, 0 or 1.
    pub open spec fn dx(self) -> int {
        match self {
            Quadrant::TopLeft | Quadrant::BottomLeft => 0,
            Quadrant::TopRight | Quadrant::BottomRight => 1,
        }
    }

    /// Vertical offset, 0 or 1.
    pub open spec fn dy(self) -> int {
        match self {
            Quadrant::TopLeft | Quadrant::TopRight => 0,
            Quadrant::BottomLeft | Quadrant::BottomRight => 1,
        }
    }

    /// Position in the order in which the quadrants of a tile are visited.
    pub open spec fn rank(self) -> int {
        self.dx() + 2 * self.dy()
    }

    /// Horizontal offset, 0 or 1.
    pub fn x(self) -> (x: u32)
        ensures
            x == self.dx(),
    {
        match self {
            Quadrant::TopLeft | Quadrant::BottomLeft => 0,
            Quadrant::TopRight | Quadrant::BottomRight => 1,
        }
    }

    /// Vertical offset, 0 or 1.
    pub fn y(self) -> (y: u32)
        ensures
            y == self.dy(),
    {
        match self {
            Quadrant::TopLeft | Quadrant::TopRight => 0,
            Quadrant::BottomLeft | Quadrant::BottomRight => 1,
        }
    }

    /// The quadrant visited after this one: offsets `(0, 0)`, `(1, 0)`, `(0, 1)`,
    /// `(1, 1)`, in this order. `None` after the last.
    pub open spec fn successor(self) -> Option<Quadrant> {
        match self {
            Quadrant::TopLeft => Some(Quadrant::TopRight),
            Quadrant::TopRight => Some(Quadrant::BottomLeft),
            Quadrant::BottomLeft => Some(Quadrant::BottomRight),
            Quadrant::BottomRight => None,
        }
    }

    /// The quadrant visited after this one, `None` after the last.
    pub fn next(self) -> (next: Option<Quadrant>)
        ensures
            next == self.successor(),
            next matches Some(q) ==> q.rank() == self.rank() + 1,
            next is None <==> self.rank() == 3,
    {
        match self {
            Quadrant::TopLeft => Some(Quadrant::TopRight),
            Quadrant::TopRight => Some(Quadrant::BottomLeft),
            Quadrant::BottomLeft => Some(Quadrant::BottomRight),
            Quadrant::BottomRight => None,
        }
    }

    /// The four quadrants in the order in which they are visited.
    pub fn all() -> (quadrants: [Quadrant; 4])
        ensures
            forall|i: int| 0 <= i < 4 ==> (#[trigger] quadrants@[i]).rank() == i,
    {
        [Quadrant::TopLeft, Quadrant::TopRight, Quadrant::BottomLeft, Quadrant::BottomRight]
    }

    /// The quadrant with offset `(x, y)`, if both are 0 or 1.
    pub fn from_offset(x: u32, y: u32) -> (quadrant: Option<Quadrant>)
        ensures
            x <= 1 && y <= 1 ==> (quadrant matches Some(q) && q.dx() == x && q.dy() == y),
            x > 1 || y > 1 ==> quadrant is None,
    {
        if x == 0 && y == 0 {
            Some(Quadrant::TopLeft)
        } else if x == 1 && y == 0 {
            Some(Quadrant::TopRight)
        } else if x == 0 && y == 1 {
            Some(Quadrant::BottomLeft)
        } else if x == 1 && y == 1 {
            Some(Quadrant::BottomRight)
        } else {
            None
        }
    }
}

/// The position of a tile within one layer of the pyramid.
#[derive(Clone, Copy, Debug, PartialEq, Eq, Structural)]
pub struct TileCoord {
    /// Column of the tile.
    pub x: u32,
    /// Row of the tile.
    pub y: u32,
}

/// A tile of the pyramid: its layer and its position in that layer. This is
/// what a store needs to find the tile.
#[derive(Clone, Copy, Debug, PartialEq, Eq, Structural)]
pub struct TileId {
    /// The layer. The children of a tile lie on the layer below it, `lod - 1`.
    pub lod: u32,
    /// Column of the tile in its layer.
    pub x: u32,
    /// Row of the tile in its layer.
    pub y: u32,
}

impl TileId {
    /// The child of this tile that paints the quarter `quadrant`: on the next
    /// finer layer, at twice this tile's position plus the quadrant's offset.
    pub open spec fn child_spec(self, quadrant: Quadrant) -> (int, int, int) {
        (self.lod - 1, 2 * self.x + quadrant.dx(), 2 * self.y + quadrant.dy())
    }

    /// Whether this tile has children that a `TileId` can name.
    pub open spec fn has_children(self) -> bool {
        &&& self.lod >= 1
        &&& 2 * self.x + 1 <= u32::MAX
        &&& 2 * self.y + 1 <= u32::MAX
    }

    /// The child of this tile that paints the quarter `quadrant`. `None` on
    /// layer 0, which has no finer layer, and where the child's position
    /// exceeds `u32`.
    pub fn child(&self, quadrant: Quadrant) -> (child: Option<TileId>)
        ensures
            child is Some <==> self.has_children(),
            child matches Some(c) ==> (c.lod as int, c.x as int, c.y as int) == self.child_spec(
                quadrant,
            ),
    {
        if self.lod == 0 || self.x > (u32::MAX - 1) / 2 || self.y > (u32::MAX - 1) / 2 {
            None
        } else {
            Some(
                TileId {
                    lod: self.lod - 1,
                    x: 2 * self.x + quadrant.x(),
                    y: 2 * self.y + quadrant.y(),
                },
            )
        }
    }
}

} // verus!
