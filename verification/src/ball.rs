//! The ball: horizontal flight, the vertical bounce sub-simulation, the
//! swing/hit resolver, and region transitions.
//!
//! All quantities are fixed-point milliunits (see `fixed`); time steps are
//! milliseconds. The vertical arc is cosmetic: it never drives horizontal
//! collision, only the bounce events and the apex solved from each hit.

use vstd::prelude::*;
use crate::court::{CourtRegion, CourtSettings};
use crate::fixed::{
    clamp_i64, inverse_lerp, lemma_isqrt_bounds, lerp, max_i64, min_i64, scale_div, spec_clamp,
    spec_inverse_lerp, spec_lerp, spec_scale_div, Vec2Fp, FP_ONE,
};
use crate::player::{spec_aim_clamped, Player, PlayerSwing, AIM_RING_RADIUS};
use crate::player_action::PlayerActionStatus;
use crate::rng::rand_in_range;
use vstd::math::{abs, max, min};

verus! {

/// Slowest horizontal ball speed a hit can produce, in milliunits/second.
pub const BALL_MIN_SPEED: i64 = 350_000;

/// Fastest horizontal ball speed, in milliunits/second.
pub const BALL_MAX_SPEED: i64 = 2_750_000;

/// Vertical acceleration on the bounce arc, in milliunits/second^2.
pub const BALL_GRAVITY: i64 = -750_000;

/// Shortest target distance a hit may solve for, in milliunits.
pub const BALL_MIN_DISTANCE: i64 = 50_000;

/// Lowest apex the hit solver will grant, in milliunits/second of launch.
pub const BALL_MIN_HEIGHT: i64 = 180_000;

/// Highest apex the hit solver will grant.
pub const BALL_MAX_HEIGHT: i64 = 650_000;

/// How far past the net a hit aims its landing point, in milliunits.
pub const TARGET_X_OFFSET: i64 = 80_000;

/// The ball sprite's diameter, in milliunits.
pub const BALL_SIZE: i64 = 30_000;

/// Positions are clamped into this range; it is far outside any court.
pub const POS_LIMIT: i64 = 1_000_000_000;

/// The state of the current point, advanced only by bounces and hits.
#[derive(Clone, Copy, Debug, PartialEq, Eq, Structural)]
pub enum BallStatus {
    /// A serve in flight: the region it was served from, the serving
    /// player's faults so far, and the serving player.
    Serve(CourtRegion, u8, usize),
    /// A serve landed in the wrong region: the fault count including this
    /// fault, and the serving player.
    Fault(u8, usize),
    /// A legal exchange, tagged with the player who hit last.
    Rally(usize),
    /// The point is decided; the ball is waiting to be replaced.
    Used,
}

impl Default for BallStatus {
    fn default() -> (r: Self)
        ensures
            r == BallStatus::Used,
    {
        BallStatus::Used
    }
}

impl BallStatus {
    /// A serve always comes from a playable region, fault counts stay at
    /// most one short of the double-fault line, and player ids name one of
    /// the two players.
    pub open spec fn spec_wf(self) -> bool {
        match self {
            BallStatus::Serve(region, faults, player_id) => {
                &&& region != CourtRegion::OutOfBounds
                &&& faults <= 1
                &&& (player_id == 1 || player_id == 2)
            },
            BallStatus::Fault(faults, player_id) => faults <= 2 && (player_id == 1 || player_id
                == 2),
            BallStatus::Rally(player_id) => player_id == 1 || player_id == 2,
            BallStatus::Used => true,
        }
    }
}

/// The vertical bounce sub-simulation owned by the ball. `height` is the
/// vertical velocity of the arc, `offset` the current visual height above
/// the court, and `count` the bounces since the last net crossing.
#[derive(Clone, Copy, Debug, PartialEq, Eq, Structural)]
pub struct BallBounce {
    pub count: usize,
    pub height: i64,
    pub target_height: i64,
    pub gravity_mult: i64,
    pub offset: i64,
}

impl Default for BallBounce {
    fn default() -> (r: Self)
        ensures
            r == (BallBounce { count: 0, height: 0, target_height: 0, gravity_mult: 0, offset: 0 }),
    {
        BallBounce { count: 0, height: 0, target_height: 0, gravity_mult: 0, offset: 0 }
    }
}

impl BallBounce {
    pub open spec fn spec_wf(self) -> bool {
        &&& self.count <= 1_000_000_000
        &&& -1_000_000_000 <= self.height <= 1_000_000_000
        &&& 0 <= self.target_height <= BALL_MAX_HEIGHT
        &&& 0 <= self.gravity_mult <= 2_000
        &&& 0 <= self.offset <= 1_000_000_000
    }
}

/// The one live ball: horizontal position and heading, its bounce
/// sub-simulation, the quadrant it is over, and the point's status.
#[derive(Clone, Copy, Debug, PartialEq, Eq, Structural)]
pub struct Ball {
    pub pos: Vec2Fp,
    pub prev_pos: Vec2Fp,
    pub dir: Vec2Fp,
    pub speed: i64,
    pub region: CourtRegion,
    pub bounce: BallBounce,
    pub status: BallStatus,
    pub predicted_bounce_pos: Vec2Fp,
    pub predicted_bounce_time_ms: i64,
}

impl Ball {
    pub open spec fn spec_wf(self) -> bool {
        &&& -POS_LIMIT <= self.pos.x <= POS_LIMIT
        &&& -POS_LIMIT <= self.pos.y <= POS_LIMIT
        &&& -POS_LIMIT <= self.prev_pos.x <= POS_LIMIT
        &&& -POS_LIMIT <= self.prev_pos.y <= POS_LIMIT
        &&& -1_000 <= self.dir.x <= 1_000
        &&& -1_000 <= self.dir.y <= 1_000
        &&& 0 <= self.speed <= BALL_MAX_SPEED
        &&& self.bounce.spec_wf()
        &&& self.status.spec_wf()
        &&& -2_000_000_000 <= self.predicted_bounce_pos.x <= 2_000_000_000
        &&& -2_000_000_000 <= self.predicted_bounce_pos.y <= 2_000_000_000
        &&& 0 <= self.predicted_bounce_time_ms <= 10_000_000
    }
}

/// Sent on every touchdown; `side` is the sign of the bounce position
/// relative to the net's live offset.
#[derive(Clone, Copy, Debug, PartialEq, Eq, Structural)]
pub struct BallBouncedEvt {
    pub bounce_count: usize,
    pub side: i64,
}

/// Sent when a swing connects with the ball.
#[derive(Clone, Copy, Debug, PartialEq, Eq, Structural)]
pub struct BallHitEvt {
    pub player_id: usize,
}

/// One coordinate's movement over a tick: direction (thousandths) times
/// speed (milliunits/second) times the delta (milliseconds), the division
/// applied to the magnitude.
pub open spec fn spec_move_delta(dir_c: int, speed: int, dt: int) -> int {
    spec_scale_div(dir_c, speed * dt, 1_000_000)
}

/// A coordinate after one tick, clamped into the representable arena.
pub open spec fn spec_step_coord(pos_c: int, dir_c: int, speed: int, dt: int) -> int {
    spec_clamp(pos_c + spec_move_delta(dir_c, speed, dt), -POS_LIMIT as int, POS_LIMIT as int)
}

/// Whether the x movement from `prev_x` to `x` stepped over the net line.
pub open spec fn spec_crossed_net(prev_x: int, x: int, net_x: int) -> bool {
    (prev_x < net_x && x > net_x) || (prev_x > net_x && x < net_x)
}

/// How much vertical velocity one tick of gravity removes.
pub open spec fn spec_fall_delta(gravity_mult: int, dt: int) -> int {
    ((-(BALL_GRAVITY as int)) * gravity_mult * dt) / 1_000_000
}

/// Vertical velocity after one tick of gravity, saturating far below any
/// reachable value.
pub open spec fn spec_new_height(height: int, gravity_mult: int, dt: int) -> int {
    max(height - spec_fall_delta(gravity_mult, dt), -1_000_000_000)
}

/// Speed decay on touchdown: four fifths of the speed, clamped into the
/// legal speed band.
pub open spec fn spec_decayed_speed(speed: int) -> int {
    spec_clamp((speed * 4) / 5, BALL_MIN_SPEED as int, BALL_MAX_SPEED as int)
}

/// Touchdowns shave the next apex: the faster the ball still is, the less
/// is taken, by up to a quarter unit, never below the minimum apex.
pub open spec fn spec_shrunk_target_height(target_height: int, speed: int) -> int {
    max(
        target_height - (250 * spec_inverse_lerp(
            BALL_MAX_SPEED as int,
            BALL_MIN_SPEED as int,
            speed,
        )) / (FP_ONE as int),
        BALL_MIN_HEIGHT as int,
    )
}

/// A serve is judged on its first touchdown: landing in the serve
/// region's diagonal opposite opens the rally; anywhere else is a fault.
pub open spec fn spec_serve_bounce_status(status: BallStatus, region: CourtRegion) -> BallStatus {
    match status {
        BallStatus::Serve(serve_region, faults, player_id) => {
            if Some(region) == serve_region.spec_inverse() {
                BallStatus::Rally(player_id)
            } else {
                BallStatus::Fault((faults + 1) as u8, player_id)
            }
        },
        _ => status,
    }
}

/// The side of the net a position is on: `-1` left of the live net line,
/// `1` otherwise.
pub open spec fn spec_side_of(x: int, net_x: int) -> int {
    if x < net_x {
        -1
    } else {
        1
    }
}

/// Whether the ball is idle this tick: parked, or drifting so slowly that
/// the step parks it.
pub open spec fn spec_ball_idle(b: Ball) -> bool {
    b.dir.spec_is_zero() || b.dir.x * b.dir.x + b.dir.y * b.dir.y < 625
}

/// One tick of ball flight: the new ball and the touchdown event, if any.
///
/// The step moves the ball along its heading, resets the bounce count on a
/// net crossing, advances the vertical arc (velocity first, then the
/// offset), and on touchdown counts the bounce, shaves the next apex,
/// decays the speed, and judges a serve.
pub open spec fn spec_move_ball(b: Ball, net_x: int, dt: int) -> (Ball, Option<BallBouncedEvt>) {
    if b.dir.spec_is_zero() {
        (b, None)
    } else if b.dir.x * b.dir.x + b.dir.y * b.dir.y < 625 {
        (Ball { dir: Vec2Fp { x: 0, y: 0 }, ..b }, None)
    } else {
        let pos2 = Vec2Fp {
            x: spec_step_coord(b.pos.x as int, b.dir.x as int, b.speed as int, dt) as i64,
            y: spec_step_coord(b.pos.y as int, b.dir.y as int, b.speed as int, dt) as i64,
        };
        let crossed = spec_crossed_net(b.prev_pos.x as int, pos2.x as int, net_x);
        let count1 = if crossed {
            0int
        } else {
            b.bounce.count as int
        };
        let height2 = spec_new_height(b.bounce.height as int, b.bounce.gravity_mult as int, dt);
        let off_raw = b.bounce.offset + spec_scale_div(height2, dt, FP_ONE as int);
        if off_raw <= 0 {
            let count2 = min(count1 + 1, 1_000_000_000);
            let target2 = spec_shrunk_target_height(b.bounce.target_height as int, b.speed as int);
            let b2 = Ball {
                pos: pos2,
                prev_pos: pos2,
                speed: spec_decayed_speed(b.speed as int) as i64,
                bounce: BallBounce {
                    count: count2 as usize,
                    height: target2 as i64,
                    target_height: target2 as i64,
                    gravity_mult: b.bounce.gravity_mult,
                    offset: 0,
                },
                status: spec_serve_bounce_status(b.status, b.region),
                ..b
            };
            let evt = BallBouncedEvt {
                bounce_count: count2 as usize,
                side: spec_side_of(pos2.x as int, net_x) as i64,
            };
            (b2, Some(evt))
        } else {
            let b2 = Ball {
                pos: pos2,
                prev_pos: pos2,
                bounce: BallBounce {
                    count: count1 as usize,
                    height: height2 as i64,
                    offset: min(off_raw, 1_000_000_000) as i64,
                    ..b.bounce
                },
                ..b
            };
            (b2, None)
        }
    }
}

/// One coordinate's movement over a tick.
fn move_delta(dir_c: i64, speed: i64, dt: i64) -> (r: i64)
    requires
        -1_000 <= dir_c <= 1_000,
        0 <= speed <= BALL_MAX_SPEED,
        0 <= dt <= 10_000,
    ensures
        r == spec_move_delta(dir_c as int, speed as int, dt as int),
        -30_000_000 <= r <= 30_000_000,
{
    let m: i64 = if dir_c >= 0 {
        dir_c
    } else {
        -dir_c
    };
    assert(0 <= speed * dt <= 27_500_000_000) by (nonlinear_arith)
        requires
            0 <= speed <= 2_750_000,
            0 <= dt <= 10_000,
    ;
    let sd: i64 = speed * dt;
    assert(0 <= m * sd <= 27_500_000_000_000) by (nonlinear_arith)
        requires
            0 <= m <= 1_000,
            0 <= sd <= 27_500_000_000,
    ;
    let q: i64 = (m * sd) / 1_000_000;
    assert(q <= 27_500_000) by (nonlinear_arith)
        requires
            0 <= m * sd <= 27_500_000_000_000,
            q == (m * sd) / 1_000_000,
    ;
    if dir_c >= 0 {
        q
    } else {
        -q
    }
}

/// Advance the ball by one tick of `dt_ms` milliseconds against the net's
/// live offset `net_x`. Returns the touchdown event when the ball lands.
///
/// A net crossing (the x step passing over `net_x`) forces the bounce
/// count to zero before any touchdown of the same tick is counted, so a
/// crossing tick ends with a count of at most the one bounce it produced.
pub fn move_ball(ball: &mut Ball, net_x: i64, dt_ms: i64) -> (r: Option<BallBouncedEvt>)
    requires
        old(ball).spec_wf(),
        -100_000_000 <= net_x <= 100_000_000,
        0 <= dt_ms <= 10_000,
    ensures
        final(ball).spec_wf(),
        (*final(ball), r) == spec_move_ball(*old(ball), net_x as int, dt_ms as int),
{
    if ball.dir.is_zero() {
        return None;
    }
    proof {
        assert(0 <= ball.dir.x * ball.dir.x <= 1_000_000 && 0 <= ball.dir.y * ball.dir.y
            <= 1_000_000) by (nonlinear_arith)
            requires
                -1_000 <= ball.dir.x <= 1_000,
                -1_000 <= ball.dir.y <= 1_000,
        ;
    }
    let len2: i64 = ball.dir.x * ball.dir.x + ball.dir.y * ball.dir.y;
    if len2 < 625 {
        ball.dir = Vec2Fp::zero();
        return None;
    }

    // Integrate the horizontal position and remember it for the next
    // tick's crossing test.
    let new_x: i64 = clamp_i64(ball.pos.x + move_delta(ball.dir.x, ball.speed, dt_ms), -POS_LIMIT, POS_LIMIT);
    let new_y: i64 = clamp_i64(ball.pos.y + move_delta(ball.dir.y, ball.speed, dt_ms), -POS_LIMIT, POS_LIMIT);
    let prev_x: i64 = ball.prev_pos.x;
    ball.pos = Vec2Fp { x: new_x, y: new_y };
    ball.prev_pos = ball.pos;

    // The positional net-cross guard: it backs up the region-transition
    // reset, which can lag a frame behind a fast skim.
    if (prev_x < net_x && new_x > net_x) || (prev_x > net_x && new_x < net_x) {
        ball.bounce.count = 0;
    }

    // Vertical sub-step: gravity first, then the offset follows the new
    // velocity.
    let gm: i64 = ball.bounce.gravity_mult;
    assert(0 <= 750_000 * gm * dt_ms <= 15_000_000_000_000) by (nonlinear_arith)
        requires
            0 <= gm <= 2_000,
            0 <= dt_ms <= 10_000,
    ;
    let fall: i64 = (750_000 * gm) * dt_ms / 1_000_000;
    proof {
        assert(fall == spec_fall_delta(gm as int, dt_ms as int) && 0 <= fall <= 15_000_000)
            by (nonlinear_arith)
            requires
                fall == (750_000 * gm * dt_ms) / 1_000_000,
                0 <= 750_000 * gm * dt_ms <= 15_000_000_000_000,
                spec_fall_delta(gm as int, dt_ms as int) == (750_000 * gm * dt_ms) / 1_000_000,
        ;
    }
    let new_height: i64 = max_i64(ball.bounce.height - fall, -1_000_000_000);
    ball.bounce.height = new_height;
    let off_delta: i64 = scale_div(new_height, dt_ms, FP_ONE);
    proof {
        assert(-10_000_000_000 <= off_delta <= 10_000_000_000) by (nonlinear_arith)
            requires
                off_delta == spec_scale_div(new_height as int, dt_ms as int, 1000),
                -1_000_000_000 <= new_height <= 1_000_000_000,
                0 <= dt_ms <= 10_000,
                spec_scale_div(new_height as int, dt_ms as int, 1000) == (if new_height >= 0 {
                    (new_height * dt_ms) / 1000int
                } else {
                    -(((-new_height) * dt_ms) / 1000int)
                }),
        ;
    }
    let off_raw: i64 = ball.bounce.offset + off_delta;

    if off_raw <= 0 {
        // Touchdown: land, count the bounce, shave the next apex, decay
        // the speed, and judge a serve on its first landing.
        ball.bounce.offset = 0;
        let count1: usize = ball.bounce.count;
        let count2: usize = if count1 >= 1_000_000_000 {
            1_000_000_000
        } else {
            count1 + 1
        };
        ball.bounce.count = count2;

        let shave: i64 = 250 * inverse_lerp(BALL_MAX_SPEED, BALL_MIN_SPEED, ball.speed) / FP_ONE;
        let target2: i64 = max_i64(ball.bounce.target_height - shave, BALL_MIN_HEIGHT);
        ball.bounce.target_height = target2;
        ball.bounce.height = target2;
        ball.speed = clamp_i64(ball.speed * 4 / 5, BALL_MIN_SPEED, BALL_MAX_SPEED);

        match ball.status {
            BallStatus::Serve(serve_region, faults, player_id) => {
                let inverse = serve_region.get_inverse();
                if let Some(target_region) = inverse {
                    if ball.region == target_region {
                        ball.status = BallStatus::Rally(player_id);
                    } else {
                        ball.status = BallStatus::Fault(faults + 1, player_id);
                    }
                } else {
                    // Unreachable: a serve region is always playable.
                    proof {
                        assert(false);
                    }
                }
            },
            _ => {},
        }

        let side: i64 = if ball.pos.x < net_x {
            -1
        } else {
            1
        };
        Some(BallBouncedEvt { bounce_count: count2, side })
    } else {
        ball.bounce.offset = min_i64(off_raw, 1_000_000_000);
        None
    }
}

/// One collider event seen by the ball this tick: the quadrant involved
/// and whether the ball entered (`started`) or left it.
#[derive(Clone, Copy, Debug, PartialEq, Eq, Structural)]
pub struct RegionCollision {
    pub region: CourtRegion,
    pub started: bool,
}

/// The region the tick's collider events leave the ball in: the last
/// entered quadrant wins; leaving a playable quadrant while outside the
/// court lines, with nothing entered yet, means out of bounds.
pub open spec fn spec_detect_region(
    events: Seq<RegionCollision>,
    pos: Vec2Fp,
    court: CourtSettings,
) -> Option<CourtRegion>
    decreases events.len(),
{
    if events.len() == 0 {
        None
    } else {
        let prior = spec_detect_region(events.drop_last(), pos, court);
        let ev = events.last();
        if ev.started {
            Some(ev.region)
        } else if prior is None && ev.region != CourtRegion::OutOfBounds && !court.spec_contains(
            pos,
        ) {
            Some(CourtRegion::OutOfBounds)
        } else {
            prior
        }
    }
}

/// Fold the tick's collider events into the region the ball now occupies,
/// or `None` when the events say nothing.
pub fn detect_region(
    events: &Vec<RegionCollision>,
    ball_pos: Vec2Fp,
    court: &CourtSettings,
) -> (r: Option<CourtRegion>)
    ensures
        r == spec_detect_region(events@, ball_pos, *court),
{
    let mut region: Option<CourtRegion> = None;
    let mut i: usize = 0;
    while i < events.len()
        invariant
            0 <= i <= events@.len(),
            region == spec_detect_region(events@.subrange(0, i as int), ball_pos, *court),
        decreases events@.len() - i,
    {
        proof {
            assert(events@.subrange(0, i + 1).drop_last() =~= events@.subrange(0, i as int));
            assert(events@.subrange(0, i + 1).last() == events@[i as int]);
        }
        let ev = events[i];
        if ev.started {
            region = Some(ev.region);
        } else if region.is_none() && !ev.region.is_out_of_bounds() && (ball_pos.x < court.left
            || ball_pos.x > court.right || ball_pos.y < court.bottom || ball_pos.y > court.top) {
            region = Some(CourtRegion::OutOfBounds);
        }
        i = i + 1;
    }
    proof {
        assert(events@.subrange(0, events@.len() as int) =~= events@);
    }
    region
}

/// Whether moving the ball's region from `from` to `to` crosses the net:
/// one is on the left half, the other on the right.
pub open spec fn spec_region_flip(from: CourtRegion, to: CourtRegion) -> bool {
    (from.spec_is_left() && to.spec_is_right()) || (from.spec_is_right() && to.spec_is_left())
}

/// Record the region the ball is now over. A left/right flip is the
/// primary net-crossing signal and resets the bounce count.
pub fn apply_region(ball: &mut Ball, new_region: CourtRegion)
    requires
        old(ball).spec_wf(),
    ensures
        final(ball).spec_wf(),
        *final(ball) == (Ball {
            region: new_region,
            bounce: BallBounce {
                count: if spec_region_flip(old(ball).region, new_region) {
                    0
                } else {
                    old(ball).bounce.count
                },
                ..old(ball).bounce
            },
            ..*old(ball)
        }),
        spec_region_flip(old(ball).region, new_region) ==> final(ball).bounce.count == 0,
{
    if (ball.region.is_left() && new_region.is_right()) || (ball.region.is_right()
        && new_region.is_left()) {
        ball.bounce.count = 0;
    }
    ball.region = new_region;
}

/// One tick of the region transition detector: fold the collider events
/// and record the result on the ball.
pub fn handle_regions(ball: &mut Ball, events: &Vec<RegionCollision>, court: &CourtSettings)
    requires
        old(ball).spec_wf(),
    ensures
        final(ball).spec_wf(),
        ({
            let detected = spec_detect_region(events@, old(ball).pos, *court);
            match detected {
                Option::Some(region) => *final(ball) == (Ball {
                    region,
                    bounce: BallBounce {
                        count: if spec_region_flip(old(ball).region, region) {
                            0
                        } else {
                            old(ball).bounce.count
                        },
                        ..old(ball).bounce
                    },
                    ..*old(ball)
                }),
                Option::None => *final(ball) == *old(ball),
            }
        }),
{
    let detected = detect_region(events, ball.pos, court);
    if let Some(region) = detected {
        apply_region(ball, region);
    }
}

/// What a hit does to the ball, given the hitting player's side sign and
/// clamped aim, the swing strength (thousandths), the net's live offset
/// and the court.
///
/// The new heading is the normalized aim. The new speed blends the
/// charged strength with an eighth of the pre-hit speed, capped at the
/// maximum. The landing point is solved on the far side of the net: a
/// target x past the net (nearer when the ball sits high), widened by the
/// hit angle, then stretched toward two-and-a-quarter court widths by the
/// blended strength less penalties for height and for closeness to the
/// net. The apex velocity and gravity multiplier are back-solved so the
/// arc peaks at half the flight time, and the predicted landing point is
/// recomputed for the opponent's planning.
pub open spec fn spec_hit_ball(
    b: Ball,
    player_id: usize,
    sign: int,
    aim: Vec2Fp,
    strength: int,
    net_x: int,
    court: CourtSettings,
) -> Ball {
    let dir = aim.spec_normalized();
    let s_cl = spec_clamp(strength, 0, 1000);
    let speed = min(
        spec_lerp(BALL_MIN_SPEED as int, BALL_MAX_SPEED as int, s_cl) + (b.speed as int) / 8,
        BALL_MAX_SPEED as int,
    );
    let overall = spec_inverse_lerp(BALL_MIN_SPEED as int, BALL_MAX_SPEED as int, speed);
    let height_mult = min(
        spec_inverse_lerp(0, BALL_MAX_HEIGHT as int, b.bounce.height as int),
        1000,
    );
    let net_off = spec_lerp(TARGET_X_OFFSET as int, (TARGET_X_OFFSET as int) / 2, height_mult);
    let min_x = if sign == -1 {
        net_x + net_off
    } else {
        net_x - net_off
    };
    let min_a = abs(min_x - b.pos.x) as int;
    let cos_fp = abs(dir.x as int) as int;
    let min_dist = max((min_a * 1000) / cos_fp, BALL_MIN_DISTANCE as int);
    let net_t = spec_inverse_lerp(court.right as int, 0, abs(b.pos.x - net_x) as int);
    let dist_t = spec_clamp(overall - height_mult / 4 - net_t / 4, 0, 1000);
    let dist = spec_lerp(min_dist, ((court.right as int) * 9) / 4, dist_t);
    let time_apex = ((dist * 1000) / speed) / 2;
    let gravity_mult = overall + 1000;
    let grav_mag = ((-(BALL_GRAVITY as int)) * gravity_mult) / 1000;
    let apex = spec_clamp(
        (grav_mag * time_apex) / 1000,
        BALL_MIN_HEIGHT as int,
        BALL_MAX_HEIGHT as int,
    );
    let final_time = (apex * 1000) / grav_mag;
    let final_dist = (final_time * speed * 2) / 1000;
    let predicted = Vec2Fp {
        x: (b.pos.x + spec_scale_div(dir.x as int, final_dist, 1000)) as i64,
        y: (b.pos.y + spec_scale_div(dir.y as int, final_dist, 1000)) as i64,
    };
    let status = match b.status {
        BallStatus::Serve(_, _, serving_id) => {
            if serving_id != player_id {
                // A volleyed serve opens the rally at once.
                BallStatus::Rally(player_id)
            } else {
                b.status
            }
        },
        BallStatus::Rally(_) => BallStatus::Rally(player_id),
        _ => b.status,
    };
    Ball {
        dir,
        speed: speed as i64,
        bounce: BallBounce {
            height: apex as i64,
            target_height: apex as i64,
            gravity_mult: gravity_mult as i64,
            ..b.bounce
        },
        status,
        predicted_bounce_pos: predicted,
        ..b
    }
}

/// Resolve a swing connecting with the ball. See `spec_hit_ball` for the
/// full kinematics; on top of it, the resulting speed always lands inside
/// the legal band, whatever the strength.
#[verifier::rlimit(50)]
pub fn hit_ball(
    ball: &mut Ball,
    player_id: usize,
    player_sign: i64,
    aim_dir: Vec2Fp,
    strength: i64,
    net_x: i64,
    court: &CourtSettings,
) -> (ev: BallHitEvt)
    requires
        old(ball).spec_wf(),
        player_id == 1 || player_id == 2,
        player_sign == (if player_id == 1 {
            -1int
        } else {
            1int
        }),
        spec_aim_clamped(aim_dir, player_sign as int),
        -100_000_000 <= net_x <= 100_000_000,
        court.spec_wf(),
    ensures
        final(ball).spec_wf(),
        *final(ball) == spec_hit_ball(
            *old(ball),
            player_id,
            player_sign as int,
            aim_dir,
            strength as int,
            net_x as int,
            *court,
        ),
        BALL_MIN_SPEED <= final(ball).speed <= BALL_MAX_SPEED,
        ev == (BallHitEvt { player_id }),
{
    proof {
        assert(aim_dir.x * aim_dir.x == 1_000_000 && 0 <= aim_dir.y * aim_dir.y <= 562_500)
            by (nonlinear_arith)
            requires
                aim_dir.x == 1000 || aim_dir.x == -1000,
                -750 <= aim_dir.y <= 750,
        ;
    }
    let dir = aim_dir.normalized();
    proof {
        let n2 = aim_dir.x * aim_dir.x + aim_dir.y * aim_dir.y;
        let l = aim_dir.spec_len();
        lemma_isqrt_bounds(n2);
        assert(1000 <= l <= 1250) by (nonlinear_arith)
            requires
                l * l <= n2 < (l + 1) * (l + 1),
                1_000_000 <= n2 <= 1_562_500,
                l >= 0,
        ;
        assert(dir.x == (if aim_dir.x >= 0 {
            (aim_dir.x * 1000) / l
        } else {
            -(((-aim_dir.x) * 1000) / l)
        }));
        assert(800 <= (1_000_000int) / l <= 1000) by (nonlinear_arith)
            requires
                1000 <= l <= 1250,
        ;
        assert(aim_dir.x >= 0 ==> (aim_dir.x * 1000) / l == (1_000_000int) / l);
        assert(aim_dir.x < 0 ==> ((-aim_dir.x) * 1000) / l == (1_000_000int) / l);
    }
    let cos_fp: i64 = if dir.x >= 0 {
        dir.x
    } else {
        -dir.x
    };

    let s_cl: i64 = clamp_i64(strength, 0, 1000);
    let lerp_speed: i64 = lerp(BALL_MIN_SPEED, BALL_MAX_SPEED, s_cl);
    let speed2: i64 = min_i64(lerp_speed + ball.speed / 8, BALL_MAX_SPEED);
    let overall: i64 = inverse_lerp(BALL_MIN_SPEED, BALL_MAX_SPEED, speed2);
    let height_mult: i64 = min_i64(inverse_lerp(0, BALL_MAX_HEIGHT, ball.bounce.height), 1000);

    // Target landing x on the far side of the net: nearer to the net the
    // higher the ball sits.
    let net_off: i64 = lerp(TARGET_X_OFFSET, TARGET_X_OFFSET / 2, height_mult);
    let min_x: i64 = if player_sign == -1 {
        net_x + net_off
    } else {
        net_x - net_off
    };
    let min_a: i64 = if min_x - ball.pos.x >= 0 {
        min_x - ball.pos.x
    } else {
        -(min_x - ball.pos.x)
    };
    let base: i64 = (min_a * 1000) / cos_fp;
    proof {
        assert(base <= 1_500_000_000) by (nonlinear_arith)
            requires
                base == (min_a * 1000int) / (cos_fp as int),
                0 <= min_a * 1000 <= 1_200_000_000_000,
                cos_fp >= 800,
        ;
    }
    let min_dist: i64 = max_i64(base, BALL_MIN_DISTANCE);

    let netd: i64 = if ball.pos.x - net_x >= 0 {
        ball.pos.x - net_x
    } else {
        -(ball.pos.x - net_x)
    };
    let net_t: i64 = inverse_lerp(court.right, 0, netd);
    let dist_t: i64 = clamp_i64(overall - height_mult / 4 - net_t / 4, 0, 1000);
    let dist: i64 = lerp(min_dist, court.right * 9 / 4, dist_t);

    let time_ms: i64 = (dist * 1000) / speed2;
    proof {
        assert(0 <= time_ms <= 5_000_000) by (nonlinear_arith)
            requires
                time_ms == (dist * 1000int) / (speed2 as int),
                0 <= dist * 1000 <= 1_500_000_000_000,
                speed2 >= 350_000,
        ;
    }
    let time_apex: i64 = time_ms / 2;

    let gravity_mult: i64 = overall + 1000;
    let grav_mag: i64 = (750_000 * gravity_mult) / 1000;
    proof {
        assert(750_000 <= grav_mag <= 1_500_000) by (nonlinear_arith)
            requires
                grav_mag == (750_000 * (gravity_mult as int)) / 1000,
                1000 <= gravity_mult <= 2000,
        ;
    }
    proof {
        assert(0 <= grav_mag * time_apex <= 3_750_000_000_000) by (nonlinear_arith)
            requires
                0 <= grav_mag <= 1_500_000,
                0 <= time_apex <= 2_500_000,
        ;
    }
    let apex_product: i64 = grav_mag * time_apex;
    let apex: i64 = clamp_i64(apex_product / 1000, BALL_MIN_HEIGHT, BALL_MAX_HEIGHT);

    let final_time: i64 = (apex * 1000) / grav_mag;
    proof {
        assert(0 <= final_time <= 870) by (nonlinear_arith)
            requires
                final_time == ((apex as int) * 1000) / (grav_mag as int),
                180_000 <= apex <= 650_000,
                750_000 <= grav_mag <= 1_500_000,
        ;
    }
    proof {
        assert(0 <= final_time * speed2 <= 2_392_500_000) by (nonlinear_arith)
            requires
                0 <= final_time <= 870,
                0 <= speed2 <= 2_750_000,
        ;
    }
    let spread: i64 = final_time * speed2;
    let final_dist: i64 = (spread * 2) / 1000;
    let pdx: i64 = scale_div(dir.x, final_dist, 1000);
    let pdy: i64 = scale_div(dir.y, final_dist, 1000);
    proof {
        assert(-4_800_000 <= spec_scale_div(dir.x as int, final_dist as int, 1000) <= 4_800_000
            && -4_800_000 <= spec_scale_div(dir.y as int, final_dist as int, 1000) <= 4_800_000)
            by (nonlinear_arith)
            requires
                -1000 <= dir.x <= 1000,
                -1000 <= dir.y <= 1000,
                0 <= final_dist <= 4_785_000,
                spec_scale_div(dir.x as int, final_dist as int, 1000) == (if dir.x >= 0 {
                    ((dir.x as int) * final_dist) / 1000int
                } else {
                    -((-(dir.x as int) * final_dist) / 1000int)
                }),
                spec_scale_div(dir.y as int, final_dist as int, 1000) == (if dir.y >= 0 {
                    ((dir.y as int) * final_dist) / 1000int
                } else {
                    -((-(dir.y as int) * final_dist) / 1000int)
                }),
        ;
    }
    let px: i64 = ball.pos.x + pdx;
    let py: i64 = ball.pos.y + pdy;

    ball.dir = dir;
    ball.speed = speed2;
    ball.bounce.gravity_mult = gravity_mult;
    ball.bounce.height = apex;
    ball.bounce.target_height = apex;
    ball.predicted_bounce_pos = Vec2Fp { x: px, y: py };
    match ball.status {
        BallStatus::Serve(_, _, serving_id) => {
            if serving_id != player_id {
                ball.status = BallStatus::Rally(player_id);
            }
        },
        BallStatus::Rally(_) => {
            ball.status = BallStatus::Rally(player_id);
        },
        _ => {},
    }
    BallHitEvt { player_id }
}

/// Whether the ball is close enough to the player for a swing to
/// connect: the nearer of the ball itself and its raised bounce sprite
/// must lie strictly inside the aim ring. Distances are compared squared.
pub open spec fn spec_hit_in_range(b: Ball, player_pos: Vec2Fp) -> bool {
    let dx = b.pos.x - player_pos.x;
    let dy = b.pos.y - player_pos.y;
    let dyv = b.pos.y + b.bounce.offset - player_pos.y;
    min(dx * dx + dy * dy, dx * dx + dyv * dyv) < (AIM_RING_RADIUS as int) * (
    AIM_RING_RADIUS as int)
}

/// One player's swing against the ball this tick. When the swing is
/// active, the ball (or its bounce sprite) is in reach, and this
/// activation has not already struck, the swing goes on cooldown — one
/// hit per activation — and the ball takes the hit.
pub fn handle_collision(
    ball: &mut Ball,
    player: &Player,
    player_pos: Vec2Fp,
    swing: &mut PlayerSwing,
    aim_dir: Vec2Fp,
    net_x: i64,
    court: &CourtSettings,
) -> (r: Option<BallHitEvt>)
    requires
        old(ball).spec_wf(),
        player.spec_wf(),
        old(swing).spec_wf(),
        spec_aim_clamped(aim_dir, player.side as int),
        -10_000_000 <= player_pos.x <= 10_000_000,
        -10_000_000 <= player_pos.y <= 10_000_000,
        -100_000_000 <= net_x <= 100_000_000,
        court.spec_wf(),
    ensures
        final(ball).spec_wf(),
        final(swing).spec_wf(),
        ({
            let hits = old(swing).status matches PlayerActionStatus::Active(_)
                && spec_hit_in_range(*old(ball), player_pos) && !old(swing).timer.finished;
            if hits {
                {
                    let strength = old(swing).status->Active_0;
                    &&& final(swing).status == PlayerActionStatus::<i64>::Cooldown
                    &&& final(swing).timer.elapsed_ms == 0
                    &&& final(swing).timer.duration_ms == old(swing).cooldown_ms
                    &&& *final(ball) == spec_hit_ball(
                        *old(ball),
                        player.id,
                        player.side as int,
                        aim_dir,
                        strength as int,
                        net_x as int,
                        *court,
                    )
                    &&& r == Some(BallHitEvt { player_id: player.id })
                }
            } else {
                *final(ball) == *old(ball) && *final(swing) == *old(swing) && r is None
            }
        }),
{
    let strength: i64 = match swing.status {
        PlayerActionStatus::Active(s) => s,
        _ => {
            return None;
        },
    };
    let dx: i64 = ball.pos.x - player_pos.x;
    let dy: i64 = ball.pos.y - player_pos.y;
    let dyv: i64 = ball.pos.y + ball.bounce.offset - player_pos.y;
    proof {
        assert(0 <= dx * dx <= 1_030_000_000_000_000_000 && 0 <= dy * dy
            <= 1_030_000_000_000_000_000 && 0 <= dyv * dyv <= 4_100_000_000_000_000_000)
            by (nonlinear_arith)
            requires
                -1_010_000_000 <= dx <= 1_010_000_000,
                -1_010_000_000 <= dy <= 1_010_000_000,
                -2_010_000_000 <= dyv <= 2_010_000_000,
        ;
    }
    let ball_d2: i64 = dx * dx + dy * dy;
    let bounce_d2: i64 = dx * dx + dyv * dyv;
    let nearer: i64 = min_i64(ball_d2, bounce_d2);

    if nearer < AIM_RING_RADIUS * AIM_RING_RADIUS && !swing.timer.is_finished() {
        swing.start_cooldown();
        let ev = hit_ball(ball, player.id, player.side, aim_dir, strength, net_x, court);
        Some(ev)
    } else {
        None
    }
}

/// A fresh serve ball, parked near the serving region's back corner with
/// no heading or speed: the serve itself is the player's first swing. The
/// spawn height within the region's band is drawn at random.
pub fn spawn_ball(
    serve_region: CourtRegion,
    fault_count: u8,
    player_id: usize,
    court: &CourtSettings,
) -> (b: Ball)
    requires
        serve_region != CourtRegion::OutOfBounds,
        fault_count <= 1,
        player_id == 1 || player_id == 2,
        court.spec_wf(),
    ensures
        b.spec_wf(),
        b.status == BallStatus::Serve(serve_region, fault_count, player_id),
        b.region == serve_region,
        b.dir.spec_is_zero(),
        b.speed == 0,
        b.bounce == (BallBounce { count: 0, height: 0, target_height: 0, gravity_mult: 0, offset: 0 }),
        b.pos.x == (if serve_region.spec_is_left() {
            -(court.right - 20_000int)
        } else {
            court.right - 20_000int
        }),
        120_000 <= (if serve_region.spec_is_bottom() {
            -b.pos.y as int
        } else {
            b.pos.y as int
        }) <= 280_000,
        b.prev_pos == b.pos,
{
    let x0: i64 = court.right - 20_000;
    let x: i64 = if serve_region.is_left() {
        -x0
    } else {
        x0
    };
    let draw: u64 = rand_in_range(120, 280);
    let y0: i64 = (draw as i64) * 1000;
    let y: i64 = if serve_region.is_bottom() {
        -y0
    } else {
        y0
    };
    let pos = Vec2Fp { x, y };
    Ball {
        pos,
        prev_pos: pos,
        dir: Vec2Fp::zero(),
        speed: 0,
        region: serve_region,
        bounce: BallBounce { count: 0, height: 0, target_height: 0, gravity_mult: 0, offset: 0 },
        status: BallStatus::Serve(serve_region, fault_count, player_id),
        predicted_bounce_pos: Vec2Fp::zero(),
        predicted_bounce_time_ms: 0,
    }
}

/// Net-cross resets the bounce count: any moving step whose x movement
/// passes over the net line leaves the count at zero, or at exactly the
/// one touchdown that same tick produced.
pub proof fn net_cross_resets_bounce_count(b: Ball, net_x: int, dt: int)
    requires
        b.spec_wf(),
        !spec_ball_idle(b),
        spec_crossed_net(
            b.prev_pos.x as int,
            spec_step_coord(b.pos.x as int, b.dir.x as int, b.speed as int, dt),
            net_x,
        ),
    ensures
        spec_move_ball(b, net_x, dt).1 is None ==> spec_move_ball(b, net_x, dt).0.bounce.count
            == 0,
        spec_move_ball(b, net_x, dt).1 is Some ==> spec_move_ball(b, net_x, dt).0.bounce.count
            == 1,
{
}

/// Serve legality: when a serve touches down, the point opens into a
/// rally exactly when the ball's region is the serve region's diagonal
/// opposite; otherwise the serve is one more fault for the same server.
pub proof fn serve_bounce_legality(b: Ball, net_x: int, dt: int)
    requires
        b.spec_wf(),
        b.status is Serve,
        spec_move_ball(b, net_x, dt).1 is Some,
    ensures
        ({
            let served = b.status->Serve_0;
            let faults = b.status->Serve_1;
            let player_id = b.status->Serve_2;
            let after = spec_move_ball(b, net_x, dt).0.status;
            &&& (after == BallStatus::Rally(player_id) <==> Some(b.region)
                == served.spec_inverse())
            &&& (Some(b.region) != served.spec_inverse() ==> after == BallStatus::Fault(
                (faults + 1) as u8,
                player_id,
            ))
        }),
{
}

} // verus!
