//! Block identifiers and the six axis-aligned face directions.

use vstd::prelude::*;

verus! {

/// The kind of block stored in one voxel. `Air` is the sentinel for an empty
/// cell: it never occludes a neighbour and never produces geometry. Each
/// non-`Air` kind maps to its own tile of the texture atlas.
#[derive(Clone, Copy, Debug, PartialEq, Eq, Structural)]
pub enum BlockType {
    Air,
    Stone,
    Grass,
    Bricks,
}

impl BlockType {
    /// The numeric value of the identifier, used directly as the linear
    /// tile index into the texture atlas.
    pub open spec fn spec_id(self) -> nat {
        match self {
            BlockType::Air => 0,
            BlockType::Stone => 1,
            BlockType::Grass => 2,
            BlockType::Bricks => 3,
        }
    }

    /// Executable counterpart of [`BlockType::spec_id`].
    pub fn id(self) -> (r: u32)
        ensures
            r == self.spec_id(),
            r < 4,
    {
        match self {
            BlockType::Air => 0,
            BlockType::Stone => 1,
            BlockType::Grass => 2,
            BlockType::Bricks => 3,
        }
    }

    /// True for every kind of block except `Air`.
    pub open spec fn spec_is_solid(self) -> bool {
        self != BlockType::Air
    }

    /// Executable counterpart of [`BlockType::spec_is_solid`].
    pub fn is_solid(self) -> (r: bool)
        ensures
            r == self.spec_is_solid(),
    {
        match self {
            BlockType::Air => false,
            _ => true,
        }
    }
}

/// One voxel of the grid: nothing but its block identifier.
#[derive(Clone, Copy, Debug, PartialEq, Eq, Structural)]
pub struct Block {
    pub id: BlockType,
}

/// The six axis-aligned sides of a voxel, named from the fixed camera
/// convention of the renderer: `Top` faces +y, `Bottom` -y, `Front` +z,
/// `Back` -z, `Right` +x and `Left` -x.
#[derive(Clone, Copy, Debug, PartialEq, Eq, Structural)]
pub enum BlockSides {
    Top,
    Bottom,
    Front,
    Back,
    Right,
    Left,
}

impl BlockSides {
    /// The unit offset from a voxel to the neighbour that could occlude
    /// this side.
    pub open spec fn spec_offset(self) -> (int, int, int) {
        match self {
            BlockSides::Top => (0, 1, 0),
            BlockSides::Bottom => (0, -1, 0),
            BlockSides::Front => (0, 0, 1),
            BlockSides::Back => (0, 0, -1),
            BlockSides::Right => (1, 0, 0),
            BlockSides::Left => (-1, 0, 0),
        }
    }

    /// Executable counterpart of [`BlockSides::spec_offset`].
    pub fn offset(self) -> (r: (i32, i32, i32))
        ensures
            (r.0 as int, r.1 as int, r.2 as int) == self.spec_offset(),
    {
        match self {
            BlockSides::Top => (0, 1, 0),
            BlockSides::Bottom => (0, -1, 0),
            BlockSides::Front => (0, 0, 1),
            BlockSides::Back => (0, 0, -1),
            BlockSides::Right => (1, 0, 0),
            BlockSides::Left => (-1, 0, 0),
        }
    }

    /// The static light level of the side, as a percentage. The levels stand
    /// in for a fixed overhead light: the top face is brightest, the bottom
    /// darkest, and every direction gets a distinct value.
    pub open spec fn spec_light(self) -> u32 {
        match self {
            BlockSides::Top => 100,
            BlockSides::Bottom => 75,
            BlockSides::Front => 90,
            BlockSides::Back => 80,
            BlockSides::Right => 95,
            BlockSides::Left => 85,
        }
    }

    /// Executable counterpart of [`BlockSides::spec_light`].
    pub fn light(self) -> (r: u32)
        ensures
            r == self.spec_light(),
    {
        match self {
            BlockSides::Top => 100,
            BlockSides::Bottom => 75,
            BlockSides::Front => 90,
            BlockSides::Back => 80,
            BlockSides::Right => 95,
            BlockSides::Left => 85,
        }
    }
}

/// Which sides of a voxel are exposed and should be rendered; one optional
/// marker per direction.
#[derive(Clone, Copy, Debug, PartialEq, Eq)]
pub struct RenderSides {
    pub top: Option<()>,
    pub bottom: Option<()>,
    pub front: Option<()>,
    pub back: Option<()>,
    pub right: Option<()>,
    pub left: Option<()>,
}

impl RenderSides {
    /// The marker for the given direction.
    pub open spec fn spec_side(self, d: BlockSides) -> Option<()> {
        match d {
            BlockSides::Top => self.top,
            BlockSides::Bottom => self.bottom,
            BlockSides::Front => self.front,
            BlockSides::Back => self.back,
            BlockSides::Right => self.right,
            BlockSides::Left => self.left,
        }
    }

    /// Every side marked for rendering.
    pub fn all() -> (r: RenderSides)
        ensures
            forall|d: BlockSides| r.spec_side(d) == Some(()),
    {
        RenderSides {
            top: Some(()),
            bottom: Some(()),
            front: Some(()),
            back: Some(()),
            right: Some(()),
            left: Some(()),
        }
    }
}

impl Default for RenderSides {
    /// No side marked for rendering.
    fn default() -> (r: Self)
        ensures
            forall|d: BlockSides| r.spec_side(d) == None::<()>,
    {
        RenderSides {
            top: None,
            bottom: None,
            front: None,
            back: None,
            right: None,
            left: None,
        }
    }
}

} // verus!
