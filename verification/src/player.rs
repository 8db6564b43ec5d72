//! Players: sidedness, the aim direction with its legal-cone clamp, and
//! the swing action with its one-hit-per-activation timer.

use vstd::prelude::*;
use crate::fixed::{clamp_i64, spec_clamp, Vec2Fp, FP_ONE};
use crate::player_action::{PlayerActionStatus, TickTimer};

verus! {

/// A player's body diameter, in milliunits.
pub const PLAYER_SIZE: i64 = 56_000;

/// How close (in milliunits) the ball must be to a swinging player for the
/// swing to connect.
pub const AIM_RING_RADIUS: i64 = 100_000;

/// Swing strength gained per second of charging, in thousandths.
pub const SWING_STRENGTH_MULTIPLIER: i64 = 650;

/// How far the aim may tilt up or down: the clamp on the unit direction's
/// vertical component, in thousandths.
pub const AIM_Y_CLAMP: i64 = 750;

/// Player 1 plays the left side; player 2 the right.
pub fn is_left_player_id(id: usize) -> (r: bool)
    ensures
        r == (id == 1),
{
    id == 1
}

/// One of the two players. `side` is the sign of their court: `-1` for the
/// left player, `1` for the right.
#[derive(Clone, Copy, Debug, PartialEq, Eq, Structural)]
pub struct Player {
    pub id: usize,
    pub side: i64,
}

impl Player {
    pub open spec fn spec_wf(self) -> bool {
        &&& (self.id == 1 || self.id == 2)
        &&& self.side == (if self.id == 1 {
            -1int
        } else {
            1int
        })
    }

    pub fn new(id: usize) -> (r: Player)
        requires
            id == 1 || id == 2,
        ensures
            r.id == id,
            r.spec_wf(),
    {
        Player { id, side: if id == 1 { -1 } else { 1 } }
    }

    pub fn is_left(&self) -> (r: bool)
        ensures
            r == (self.id == 1),
    {
        is_left_player_id(self.id)
    }

    /// The sign of the player's own court: `-1` on the left, `1` on the
    /// right.
    pub fn get_sign(&self) -> (r: i64)
        ensures
            r == (if self.id == 1 {
                -1int
            } else {
                1int
            }),
    {
        if self.is_left() {
            -1
        } else {
            1
        }
    }
}

/// The raw aim input and the clamped direction the swing resolver reads.
#[derive(Clone, Copy, Debug, PartialEq, Eq, Structural)]
pub struct PlayerAim {
    pub raw_dir: Vec2Fp,
    pub dir: Vec2Fp,
}

/// A legal aim direction for a player of the given side: it points across
/// the net at full forward component, with the vertical component inside
/// the legal cone.
pub open spec fn spec_aim_clamped(dir: Vec2Fp, player_sign: int) -> bool {
    &&& dir.x == -player_sign * (FP_ONE as int)
    &&& -AIM_Y_CLAMP <= dir.y <= AIM_Y_CLAMP
}

/// The clamp applied to a normalized aim `n`: the forward component is
/// forced straight across the net (which also turns a backwards aim
/// straight), and the vertical component is clamped into the legal cone.
pub open spec fn spec_clamped_dir(n: Vec2Fp, player_sign: int) -> Vec2Fp {
    Vec2Fp {
        x: (-player_sign * (FP_ONE as int)) as i64,
        y: spec_clamp(n.y as int, -AIM_Y_CLAMP as int, AIM_Y_CLAMP as int) as i64,
    }
}

/// Re-read the aim from the raw input stick: a zero stick keeps the last
/// direction; anything else is normalized and clamped into the legal cone
/// across the net.
pub fn update_aim(aim: &mut PlayerAim, player_sign: i64)
    requires
        player_sign == 1 || player_sign == -1,
        -1_000_000 <= old(aim).raw_dir.x <= 1_000_000,
        -1_000_000 <= old(aim).raw_dir.y <= 1_000_000,
    ensures
        final(aim).raw_dir == old(aim).raw_dir,
        old(aim).raw_dir.spec_is_zero() ==> final(aim).dir == old(aim).dir,
        !old(aim).raw_dir.spec_is_zero() ==> final(aim).dir == spec_clamped_dir(
            old(aim).raw_dir.spec_normalized(),
            player_sign as int,
        ) && spec_aim_clamped(final(aim).dir, player_sign as int),
{
    if aim.raw_dir.is_zero() {
        return ;
    }
    let n = aim.raw_dir.normalized();
    aim.dir = Vec2Fp { x: -player_sign * FP_ONE, y: clamp_i64(n.y, -AIM_Y_CLAMP, AIM_Y_CLAMP) };
}

/// The swing action: its status ladder, how long an activation stays
/// live, its cooldown, and the timer pacing both.
#[derive(Clone, Copy, Debug, PartialEq, Eq, Structural)]
pub struct PlayerSwing {
    pub status: PlayerActionStatus<i64>,
    pub duration_ms: u64,
    pub cooldown_ms: u64,
    pub timer: TickTimer,
}

impl PlayerSwing {
    pub open spec fn spec_wf(self) -> bool {
        &&& self.duration_ms <= 1_000_000_000
        &&& self.cooldown_ms <= 1_000_000_000
        &&& self.timer.spec_wf()
    }

    /// A swing at the standard tuning: a 150 ms active window and a 350 ms
    /// cooldown.
    pub fn standard() -> (r: PlayerSwing)
        ensures
            r.status == PlayerActionStatus::<i64>::Ready,
            r.duration_ms == 150,
            r.cooldown_ms == 350,
            !r.timer.finished,
            r.spec_wf(),
    {
        PlayerSwing {
            status: PlayerActionStatus::Ready,
            duration_ms: 150,
            cooldown_ms: 350,
            timer: TickTimer::from_ms(150),
        }
    }

    /// A connected hit ends the swing: it goes on cooldown at once, so one
    /// activation can never strike the ball twice.
    pub fn start_cooldown(&mut self)
        requires
            old(self).spec_wf(),
        ensures
            final(self).status == PlayerActionStatus::<i64>::Cooldown,
            final(self).timer == (TickTimer {
                duration_ms: old(self).cooldown_ms,
                elapsed_ms: 0,
                finished: false,
                just_finished: false,
            }),
            final(self).duration_ms == old(self).duration_ms,
            final(self).cooldown_ms == old(self).cooldown_ms,
            final(self).spec_wf(),
    {
        self.status = PlayerActionStatus::Cooldown;
        self.timer = TickTimer::from_ms(self.cooldown_ms);
    }

    /// Advance the swing's timer by one tick: a finished cooldown returns
    /// the swing to ready; a finished active window goes on cooldown when
    /// `auto_deactivate` asks for it.
    pub fn handle_action_timer(&mut self, dt_ms: u64, auto_deactivate: bool)
        requires
            old(self).spec_wf(),
        ensures
            final(self).spec_wf(),
            final(self).duration_ms == old(self).duration_ms,
            final(self).cooldown_ms == old(self).cooldown_ms,
            ({
                let is_cooldown = old(self).status is Cooldown;
                let is_active = old(self).status is Active;
                if !(is_cooldown || is_active) {
                    *final(self) == *old(self)
                } else {
                    {
                        let crossed = old(self).timer.elapsed_ms + dt_ms
                            >= old(self).timer.duration_ms && !old(self).timer.finished;
                        &&& (crossed && is_cooldown ==> final(self).status
                            == PlayerActionStatus::<i64>::Ready)
                        &&& (crossed && is_active && auto_deactivate ==> final(self).status
                            == PlayerActionStatus::<i64>::Cooldown && final(self).timer
                            == TickTimer {
                            duration_ms: old(self).cooldown_ms,
                            elapsed_ms: 0,
                            finished: false,
                            just_finished: false,
                        })
                        &&& (crossed && is_active && !auto_deactivate ==> final(self).status
                            == old(self).status)
                        &&& (!crossed ==> final(self).status == old(self).status)
                    }
                }
            }),
    {
        let is_cooldown = matches!(self.status, PlayerActionStatus::Cooldown);
        let is_active = matches!(self.status, PlayerActionStatus::Active(_));
        if is_cooldown || is_active {
            self.timer.tick(dt_ms);
            if self.timer.is_just_finished() {
                if is_cooldown {
                    self.status = PlayerActionStatus::Ready;
                } else if auto_deactivate {
                    self.timer = TickTimer::from_ms(self.cooldown_ms);
                    self.status = PlayerActionStatus::Cooldown;
                }
            }
        }
    }
}

/// What the input device reports about the swing button this tick; held
/// and released states carry how long the button has been down, in
/// milliseconds.
#[derive(Clone, Copy, Debug, PartialEq, Eq, Structural)]
pub enum SwingInput {
    Idle,
    Pressed,
    Held(u64),
    Released(u64),
}

/// The strength a released charge yields, in thousandths: charge time
/// scaled by the strength multiplier, capped at full strength.
pub open spec fn spec_swing_strength(held_ms: int) -> int {
    vstd::math::min((held_ms * (SWING_STRENGTH_MULTIPLIER as int)) / (FP_ONE as int), FP_ONE as int)
}

/// Feed one tick's swing-button state into the swing: pressing or holding
/// charges, and releasing from ready or charging activates the swing with
/// the charged strength and starts its active window.
pub fn handle_swing_input(swing: &mut PlayerSwing, input: SwingInput)
    requires
        old(swing).spec_wf(),
    ensures
        final(swing).spec_wf(),
        final(swing).duration_ms == old(swing).duration_ms,
        final(swing).cooldown_ms == old(swing).cooldown_ms,
        input is Idle ==> *final(swing) == *old(swing),
        input is Pressed ==> *final(swing) == (PlayerSwing {
            status: PlayerActionStatus::Charging(0),
            ..*old(swing)
        }),
        (input matches SwingInput::Held(d) ==> *final(swing) == (PlayerSwing {
            status: PlayerActionStatus::Charging(d),
            ..*old(swing)
        })),
        (input matches SwingInput::Released(d) ==> {
            if old(swing).status is Ready || old(swing).status is Charging {
                &&& final(swing).status == PlayerActionStatus::Active(
                    spec_swing_strength(vstd::math::min(d as int, 1_000_000_000) as int) as i64,
                )
                &&& final(swing).timer == (TickTimer {
                    duration_ms: old(swing).duration_ms,
                    elapsed_ms: 0,
                    finished: false,
                    just_finished: false,
                })
            } else {
                *final(swing) == *old(swing)
            }
        }),
{
    match input {
        SwingInput::Idle => {},
        SwingInput::Pressed => {
            swing.status = PlayerActionStatus::Charging(0);
        },
        SwingInput::Held(d) => {
            swing.status = PlayerActionStatus::Charging(d);
        },
        SwingInput::Released(d) => {
            match swing.status {
                PlayerActionStatus::Ready | PlayerActionStatus::Charging(_) => {
                    let held: u64 = if d > 1_000_000_000 {
                        1_000_000_000
                    } else {
                        d
                    };
                    proof {
                        assert(held * (SWING_STRENGTH_MULTIPLIER as u64) <= 650_000_000_000)
                            by (nonlinear_arith)
                            requires
                                held <= 1_000_000_000,
                        ;
                    }
                    let scaled: u64 = held * (SWING_STRENGTH_MULTIPLIER as u64) / (FP_ONE as u64);
                    let strength: i64 = if scaled > 1000 {
                        1000
                    } else {
                        scaled as i64
                    };
                    swing.status = PlayerActionStatus::Active(strength);
                    swing.timer = TickTimer::from_ms(swing.duration_ms);
                },
                _ => {},
            }
        },
    }
}

} // verus!
