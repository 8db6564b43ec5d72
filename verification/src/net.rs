//! The net offset controller: score changes shift the net sideways, the
//! quadrant colliders are re-extended symmetrically around it, and a shift
//! past the win threshold ends the match.

use vstd::prelude::*;
use crate::court::{CourtRegion, CourtSettings};
use crate::fixed::Vec2Fp;
use crate::score::{GameOverEvt, ScoreChangeType, ScoreChangedEvt, NET_OFFSET_GAME, NET_OFFSET_POINT};

verus! {

/// The net's horizontal shift from centre. `current_offset` is the live
/// value the physics and serve logic read; it tracks `target` immediately,
/// while the visual net merely animates after it.
#[derive(Clone, Copy, Debug, PartialEq, Eq, Structural)]
pub struct NetOffset {
    pub target: i64,
    pub current_offset: i64,
    pub reset_queued: bool,
}

impl Default for NetOffset {
    fn default() -> (r: Self)
        ensures
            r.target == 0 && r.current_offset == 0 && !r.reset_queued,
    {
        NetOffset { target: 0, current_offset: 0, reset_queued: false }
    }
}

impl NetOffset {
    /// Offsets accumulate in whole point-steps and stay far inside the
    /// arithmetic range.
    pub open spec fn spec_wf(self) -> bool {
        &&& (self.target as int) % 2 == 0
        &&& -100_000_000 <= self.target <= 100_000_000
        &&& -100_000_000 <= self.current_offset <= 100_000_000
    }

    pub fn reset(&mut self)
        ensures
            final(self).target == 0,
            final(self).current_offset == 0,
            !final(self).reset_queued,
    {
        self.current_offset = 0;
        self.target = 0;
        self.reset_queued = false;
    }
}

/// The signed net shift a single score change causes: a point-sized or
/// game-sized step, toward the side that lost it.
pub open spec fn spec_net_delta(ev: ScoreChangedEvt) -> int {
    let magnitude = match ev.score_type {
        ScoreChangeType::Point => NET_OFFSET_POINT as int,
        ScoreChangeType::Game => NET_OFFSET_GAME as int,
    };
    if ev.left_side_scored {
        magnitude
    } else {
        -magnitude
    }
}

pub fn net_delta(ev: &ScoreChangedEvt) -> (r: i64)
    ensures
        r == spec_net_delta(*ev),
{
    let magnitude: i64 = match ev.score_type {
        ScoreChangeType::Point => NET_OFFSET_POINT,
        ScoreChangeType::Game => NET_OFFSET_GAME,
    };
    if ev.left_side_scored {
        magnitude
    } else {
        -magnitude
    }
}

/// The summed shift of a tick's score changes.
pub open spec fn spec_total_delta(events: Seq<ScoreChangedEvt>) -> int
    decreases events.len(),
{
    if events.len() == 0 {
        0
    } else {
        spec_total_delta(events.drop_last()) + spec_net_delta(events.last())
    }
}

pub proof fn lemma_total_delta_bound(events: Seq<ScoreChangedEvt>)
    ensures
        -(NET_OFFSET_GAME as int) * events.len() <= spec_total_delta(events) <= (
        NET_OFFSET_GAME as int) * events.len(),
    decreases events.len(),
{
    if events.len() > 0 {
        lemma_total_delta_bound(events.drop_last());
    }
}

pub proof fn lemma_total_delta_step(events: Seq<ScoreChangedEvt>)
    ensures
        (spec_total_delta(events)) % 2 == 0,
    decreases events.len(),
{
    if events.len() > 0 {
        lemma_total_delta_step(events.drop_last());
    }
}

pub fn total_delta(events: &Vec<ScoreChangedEvt>) -> (r: i64)
    requires
        events@.len() <= 100,
    ensures
        r == spec_total_delta(events@),
        -9_000_000 <= r <= 9_000_000,
        r % 2 == 0,
{
    let mut sum: i64 = 0;
    let mut i: usize = 0;
    while i < events.len()
        invariant
            0 <= i <= events@.len() <= 100,
            sum == spec_total_delta(events@.subrange(0, i as int)),
            -90_000 * i <= sum <= 90_000 * i,
        decreases events@.len() - i,
    {
        proof {
            assert(events@.subrange(0, i + 1).drop_last() =~= events@.subrange(0, i as int));
            assert(events@.subrange(0, i + 1).last() == events@[i as int]);
        }
        sum = sum + net_delta(&events[i]);
        i = i + 1;
    }
    proof {
        assert(events@.subrange(0, events@.len() as int) =~= events@);
        lemma_total_delta_step(events@);
    }
    sum
}

/// Half of an even offset, exact for either sign.
pub fn half_offset(t: i64) -> (r: i64)
    requires
        t % 2 == 0,
        -1_000_000_000 <= t <= 1_000_000_000,
    ensures
        r == t / 2,
        2 * r == t,
{
    if t >= 0 {
        t / 2
    } else {
        -((-t) / 2)
    }
}

/// A quadrant collider's new placement: centre position and half-extents.
#[derive(Clone, Copy, Debug, PartialEq, Eq, Structural)]
pub struct RegionRect {
    pub region: CourtRegion,
    pub x: i64,
    pub y: i64,
    pub half_size: Vec2Fp,
}

/// Where one quadrant collider stands when the net's target shift is
/// `target`: each side keeps its outer line and meets the shifted net, so
/// the left colliders widen by half the shift while the right ones narrow
/// by it (and the other way round for a negative shift).
pub open spec fn spec_region_rect(region: CourtRegion, target: int, court: CourtSettings) -> RegionRect {
    let half = target / 2;
    RegionRect {
        region,
        x: (if region.spec_is_left() {
            -court.region_x + half
        } else {
            court.region_x + half
        }) as i64,
        y: (if region.spec_is_top() {
            court.region_y as int
        } else {
            -court.region_y
        }) as i64,
        half_size: Vec2Fp {
            x: (if region.spec_is_left() {
                court.base_region_size.x + half
            } else {
                court.base_region_size.x - half
            }) as i64,
            y: court.base_region_size.y,
        },
    }
}

/// What a batch of score changes does to the net.
#[derive(Clone, Debug, PartialEq, Eq)]
pub enum NetShift {
    /// No score change and no queued reset: the net stays.
    Unchanged,
    /// The shift passed the win threshold: the match is over.
    MatchOver(GameOverEvt),
    /// The four quadrant colliders must be respawned at these placements.
    Resize(Vec<RegionRect>),
}

/// Apply a tick's score changes to the net. The logical offset the physics
/// reads moves immediately; only the visual net animates afterwards. A
/// queued reset snaps the net back to centre instead of shifting it.
pub fn handle_net_offset(
    net: &mut NetOffset,
    events: &Vec<ScoreChangedEvt>,
    court: &CourtSettings,
) -> (r: NetShift)
    requires
        old(net).spec_wf(),
        -10_000_000 <= old(net).target <= 10_000_000,
        court.spec_wf(),
        events@.len() <= 100,
    ensures
        final(net).spec_wf(),
        ({
            let delta = spec_total_delta(events@);
            if delta == 0 && !old(net).reset_queued {
                *final(net) == *old(net) && r == NetShift::Unchanged
            } else {
                {
                    let new_target = if old(net).reset_queued {
                        0
                    } else {
                        old(net).target + delta
                    };
                    &&& final(net).target == new_target
                    &&& final(net).current_offset == new_target
                    &&& !final(net).reset_queued
                    &&& (vstd::math::abs(new_target) > court.win_treshold ==> r
                        == NetShift::MatchOver(GameOverEvt { left_has_won: new_target > 0 }))
                    &&& (vstd::math::abs(new_target) <= court.win_treshold ==> (r matches
                        NetShift::Resize(rects) && rects@.len() == 4 && rects@[0]
                        == spec_region_rect(CourtRegion::TopLeft, new_target, *court) && rects@[1]
                        == spec_region_rect(CourtRegion::BottomLeft, new_target, *court)
                        && rects@[2] == spec_region_rect(CourtRegion::TopRight, new_target, *court)
                        && rects@[3] == spec_region_rect(
                        CourtRegion::BottomRight,
                        new_target,
                        *court,
                    )))
                }
            }
        }),
{
    let delta = total_delta(events);

    if delta == 0 && !net.reset_queued {
        return NetShift::Unchanged;
    }

    if net.reset_queued {
        net.reset();
    } else {
        net.target = net.target + delta;
    }
    net.current_offset = net.target;

    let magnitude: i64 = if net.target >= 0 {
        net.target
    } else {
        -net.target
    };
    if magnitude > court.win_treshold {
        NetShift::MatchOver(GameOverEvt { left_has_won: net.target > 0 })
    } else {
        let half = half_offset(net.target);
        let mut rects: Vec<RegionRect> = Vec::new();
        rects.push(RegionRect {
            region: CourtRegion::TopLeft,
            x: -court.region_x + half,
            y: court.region_y,
            half_size: Vec2Fp { x: court.base_region_size.x + half, y: court.base_region_size.y },
        });
        rects.push(RegionRect {
            region: CourtRegion::BottomLeft,
            x: -court.region_x + half,
            y: -court.region_y,
            half_size: Vec2Fp { x: court.base_region_size.x + half, y: court.base_region_size.y },
        });
        rects.push(RegionRect {
            region: CourtRegion::TopRight,
            x: court.region_x + half,
            y: court.region_y,
            half_size: Vec2Fp { x: court.base_region_size.x - half, y: court.base_region_size.y },
        });
        rects.push(RegionRect {
            region: CourtRegion::BottomRight,
            x: court.region_x + half,
            y: -court.region_y,
            half_size: Vec2Fp { x: court.base_region_size.x - half, y: court.base_region_size.y },
        });
        NetShift::Resize(rects)
    }
}

} // verus!
