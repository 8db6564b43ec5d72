//! The court: its fixed geometry and the four-quadrant region
//! classification that serve legality and rally resolution are judged by.

use vstd::prelude::*;
use crate::fixed::Vec2Fp;
use crate::rng::rand_in_range;

verus! {

/// Which quadrant of the court a position falls in; `OutOfBounds` covers
/// everything beyond the lines.
#[derive(Clone, Copy, Debug, PartialEq, Eq, Structural)]
pub enum CourtRegion {
    OutOfBounds,
    TopLeft,
    TopRight,
    BottomLeft,
    BottomRight,
}

impl Default for CourtRegion {
    fn default() -> (r: Self)
        ensures
            r == CourtRegion::OutOfBounds,
    {
        CourtRegion::OutOfBounds
    }
}

impl CourtRegion {
    pub open spec fn spec_is_left(self) -> bool {
        self == CourtRegion::BottomLeft || self == CourtRegion::TopLeft
    }

    pub open spec fn spec_is_right(self) -> bool {
        self == CourtRegion::BottomRight || self == CourtRegion::TopRight
    }

    pub open spec fn spec_is_top(self) -> bool {
        self == CourtRegion::TopLeft || self == CourtRegion::TopRight
    }

    pub open spec fn spec_is_bottom(self) -> bool {
        self == CourtRegion::BottomLeft || self == CourtRegion::BottomRight
    }

    /// The diagonally opposite quadrant; `OutOfBounds` has none.
    pub open spec fn spec_inverse(self) -> Option<CourtRegion> {
        match self {
            CourtRegion::OutOfBounds => None,
            CourtRegion::TopLeft => Some(CourtRegion::BottomRight),
            CourtRegion::TopRight => Some(CourtRegion::BottomLeft),
            CourtRegion::BottomLeft => Some(CourtRegion::TopRight),
            CourtRegion::BottomRight => Some(CourtRegion::TopLeft),
        }
    }

    /// The player who serves from this region: the left side belongs to
    /// player 1, the right side to player 2.
    pub open spec fn spec_player_id(self) -> usize {
        if self.spec_is_left() {
            1
        } else {
            2
        }
    }

    pub fn is_left(&self) -> (r: bool)
        ensures
            r == self.spec_is_left(),
    {
        *self == CourtRegion::BottomLeft || *self == CourtRegion::TopLeft
    }

    pub fn is_right(&self) -> (r: bool)
        ensures
            r == self.spec_is_right(),
    {
        *self == CourtRegion::BottomRight || *self == CourtRegion::TopRight
    }

    pub fn is_top(&self) -> (r: bool)
        ensures
            r == self.spec_is_top(),
    {
        *self == CourtRegion::TopLeft || *self == CourtRegion::TopRight
    }

    pub fn is_bottom(&self) -> (r: bool)
        ensures
            r == self.spec_is_bottom(),
    {
        *self == CourtRegion::BottomRight || *self == CourtRegion::BottomLeft
    }

    pub fn is_out_of_bounds(&self) -> (r: bool)
        ensures
            r == (*self == CourtRegion::OutOfBounds),
    {
        *self == CourtRegion::OutOfBounds
    }

    pub fn get_inverse(&self) -> (r: Option<CourtRegion>)
        ensures
            r == self.spec_inverse(),
    {
        match self {
            CourtRegion::OutOfBounds => None,
            CourtRegion::TopLeft => Some(CourtRegion::BottomRight),
            CourtRegion::TopRight => Some(CourtRegion::BottomLeft),
            CourtRegion::BottomLeft => Some(CourtRegion::TopRight),
            CourtRegion::BottomRight => Some(CourtRegion::TopLeft),
        }
    }

    pub fn get_player_id(&self) -> (r: usize)
        ensures
            r == self.spec_player_id(),
    {
        if self.is_left() {
            1
        } else {
            2
        }
    }

    /// A uniformly drawn playable region.
    pub fn get_random() -> (r: CourtRegion)
        ensures
            r != CourtRegion::OutOfBounds,
    {
        Self::get_random_from_range(0, 3)
    }

    /// A playable region on the left side of the court.
    pub fn get_random_left() -> (r: CourtRegion)
        ensures
            r.spec_is_left(),
    {
        let r = Self::get_random_from_range(0, 1);
        proof {
            let i = choose|i: int| 0 <= i <= 1 && r == spec_region_from_index(i);
            assert(spec_region_from_index(0).spec_is_left());
            assert(spec_region_from_index(1).spec_is_left());
        }
        r
    }

    /// A playable region on the right side of the court.
    pub fn get_random_right() -> (r: CourtRegion)
        ensures
            r.spec_is_right(),
    {
        let r = Self::get_random_from_range(2, 3);
        proof {
            let i = choose|i: int| 2 <= i <= 3 && r == spec_region_from_index(i);
            assert(spec_region_from_index(2).spec_is_right());
            assert(spec_region_from_index(3).spec_is_right());
        }
        r
    }

    /// A random playable region whose index lies in `lo..=hi`; the index
    /// order is left side first, each side top before bottom.
    pub fn get_random_from_range(lo: usize, hi: usize) -> (r: CourtRegion)
        requires
            lo <= hi <= 3,
        ensures
            exists|i: int| lo <= i <= hi && r == spec_region_from_index(i),
            r != CourtRegion::OutOfBounds,
    {
        let draw = rand_in_range(lo as u64, hi as u64);
        let r = region_from_index(draw as usize);
        proof {
            assert(lo <= draw as int <= hi && r == spec_region_from_index(draw as int));
        }
        r
    }
}

/// The playable region at a given draw index: the left side first, each
/// side top before bottom.
pub open spec fn spec_region_from_index(i: int) -> CourtRegion {
    if i == 0 {
        CourtRegion::TopLeft
    } else if i == 1 {
        CourtRegion::BottomLeft
    } else if i == 2 {
        CourtRegion::TopRight
    } else {
        CourtRegion::BottomRight
    }
}

pub fn region_from_index(i: usize) -> (r: CourtRegion)
    requires
        i <= 3,
    ensures
        r == spec_region_from_index(i as int),
        r != CourtRegion::OutOfBounds,
{
    if i == 0 {
        CourtRegion::TopLeft
    } else if i == 1 {
        CourtRegion::BottomLeft
    } else if i == 2 {
        CourtRegion::TopRight
    } else {
        CourtRegion::BottomRight
    }
}

/// Applying the diagonal mirror twice returns to the starting region for
/// all four playable regions, and `OutOfBounds` has no mirror at all.
pub proof fn lemma_region_inverse_involution(r: CourtRegion)
    ensures
        r == CourtRegion::OutOfBounds ==> r.spec_inverse() is None,
        r != CourtRegion::OutOfBounds ==> r.spec_inverse() is Some
            && r.spec_inverse()->Some_0.spec_inverse() == Some(r),
{
}

/// The court's static geometry, in fixed-point milliunits: the outer lines,
/// the centred quadrant colliders and the net-shift threshold that decides
/// the match.
#[derive(Clone, Copy, Debug, PartialEq, Eq, Structural)]
pub struct CourtSettings {
    pub left: i64,
    pub right: i64,
    pub top: i64,
    pub bottom: i64,
    pub base_region_size: Vec2Fp,
    pub region_x: i64,
    pub region_y: i64,
    pub view: Vec2Fp,
    pub win_treshold: i64,
}

impl CourtSettings {
    /// Whether a position lies on or inside the court's outer lines.
    pub open spec fn spec_contains(self, p: Vec2Fp) -> bool {
        self.left <= p.x <= self.right && self.bottom <= p.y <= self.top
    }

    /// The standard court: a 1920 x 1080 view with 300 milliunit-thousand
    /// margins at the sides and 160 at top and bottom, quadrant colliders
    /// centred in each quarter, and a win threshold at half the court's
    /// half-width.
    pub fn standard() -> (r: CourtSettings)
        ensures
            r.left == -660_000 && r.right == 660_000,
            r.bottom == -380_000 && r.top == 380_000,
            r.base_region_size == (Vec2Fp { x: 333_000, y: 193_000 }),
            r.region_x == 333_000 && r.region_y == 193_000,
            r.win_treshold == 330_000,
            r.spec_wf(),
    {
        CourtSettings {
            left: -660_000,
            right: 660_000,
            top: 380_000,
            bottom: -380_000,
            base_region_size: Vec2Fp { x: 333_000, y: 193_000 },
            region_x: 333_000,
            region_y: 193_000,
            view: Vec2Fp { x: 1_920_000, y: 1_080_000 },
            win_treshold: 330_000,
        }
    }

    /// The geometric sanity the simulation steps lean on: a court of
    /// ordinary size, symmetric about the net's home position.
    pub open spec fn spec_wf(self) -> bool {
        &&& self.left == -self.right
        &&& 0 < self.right <= 10_000_000
        &&& self.bottom == -self.top
        &&& 0 < self.top <= 10_000_000
        &&& 0 < self.win_treshold <= self.right
        &&& 0 < self.region_x <= self.right
        &&& 0 < self.region_y <= self.top
        &&& 0 < self.base_region_size.x <= self.right
        &&& 0 < self.base_region_size.y <= self.top
    }
}

/// The region the first serve of the match is played from.
#[derive(Clone, Copy, Debug, PartialEq, Eq, Structural)]
pub struct InitialRegion(pub CourtRegion);

/// The region the next serve will be played from; flipped to a random
/// region on the other side whenever the serve changes hands.
#[derive(Clone, Copy, Debug, PartialEq, Eq, Structural)]
pub struct ServingRegion(pub CourtRegion);

} // verus!
