//! The rally/serve state machine's reaction to bounce events: faults,
//! double faults, out-of-bounds and bounce-limit violations are resolved
//! into score changes, a serve swap when a game changes hands, and a
//! fresh serve ball.

use vstd::prelude::*;
use crate::ball::{spawn_ball, Ball, BallBouncedEvt, BallStatus};
use crate::court::{CourtRegion, CourtSettings, ServingRegion};
use crate::net::{handle_net_offset, spec_net_delta, spec_total_delta, NetOffset, NetShift};
use crate::score::{
    add_point_to_score, apply_game_over, spec_add_point, GameOverEvt, Score, ScoreChangedEvt,
};

verus! {

/// A rally may let the ball bounce once on a side; a second bounce
/// before the return loses the point.
pub const BOUNCE_LIMIT: usize = 1;

/// A server may fault once; the second consecutive fault loses the point.
pub const FAULT_LIMIT: u8 = 1;

/// The player standing on a given side of the net: the left player for a
/// negative side sign, the right player otherwise.
pub open spec fn spec_player_on_side(side: int) -> usize {
    if side == -1 {
        1
    } else {
        2
    }
}

/// How a touchdown resolves the point: `None` when play simply goes on,
/// otherwise the losing player — if the point is now decided — and the
/// fault count the next serve carries.
///
/// A fault beyond the limit is a double fault against the server, and
/// the carried count clears. A rally ball out of bounds on its first
/// bounce falls on the last hitter; one that bounced more than the limit
/// on one side falls on the player of that side, taken from the bounce's
/// own side sign.
pub open spec fn spec_resolve_bounce(
    status: BallStatus,
    region: CourtRegion,
    bounce_count: int,
    side: int,
) -> Option<(Option<usize>, u8)> {
    match status {
        BallStatus::Fault(count, player_id) => {
            if count > FAULT_LIMIT {
                Some((Some(player_id), 0))
            } else {
                Some((None, count))
            }
        },
        BallStatus::Rally(player_id) => {
            if region == CourtRegion::OutOfBounds && bounce_count == 1 {
                Some((Some(player_id), 0))
            } else if bounce_count > BOUNCE_LIMIT {
                Some((Some(spec_player_on_side(side)), 0))
            } else {
                None
            }
        },
        _ => None,
    }
}

/// Resolve one bounce event against the point's status; see
/// `spec_resolve_bounce`.
pub fn resolve_bounce(
    status: &BallStatus,
    region: CourtRegion,
    bounce_count: usize,
    side: i64,
) -> (r: Option<(Option<usize>, u8)>)
    ensures
        r == spec_resolve_bounce(*status, region, bounce_count as int, side as int),
{
    match *status {
        BallStatus::Fault(count, player_id) => {
            if count > FAULT_LIMIT {
                Some((Some(player_id), 0))
            } else {
                Some((None, count))
            }
        },
        BallStatus::Rally(player_id) => {
            if region.is_out_of_bounds() && bounce_count == 1 {
                Some((Some(player_id), 0))
            } else if bounce_count > BOUNCE_LIMIT {
                let loser: usize = if side == -1 {
                    1
                } else {
                    2
                };
                Some((Some(loser), 0))
            } else {
                None
            }
        },
        _ => None,
    }
}

/// Double fault termination: a fault past the limit decides the point
/// against the serving player and clears the carried fault count, while
/// a fault within the limit keeps the point alive and carries its count
/// to the re-serve.
pub proof fn double_fault_terminates(
    faults: u8,
    player_id: usize,
    region: CourtRegion,
    bounce_count: int,
    side: int,
)
    ensures
        faults > FAULT_LIMIT ==> spec_resolve_bounce(
            BallStatus::Fault(faults, player_id),
            region,
            bounce_count,
            side,
        ) == Some((Some(player_id), 0u8)),
        faults <= FAULT_LIMIT ==> spec_resolve_bounce(
            BallStatus::Fault(faults, player_id),
            region,
            bounce_count,
            side,
        ) == Some((Option::<usize>::None, faults)),
{
}

/// Bounce-limit violation: a rally ball that has bounced more than the
/// limit loses the point for the player on the side it bounced on — the
/// side recorded at the bounce itself, not wherever the last hit was.
pub proof fn bounce_limit_violation(
    last_hitter: usize,
    region: CourtRegion,
    bounce_count: int,
    side: int,
)
    requires
        bounce_count > BOUNCE_LIMIT,
        !(region == CourtRegion::OutOfBounds && bounce_count == 1),
    ensures
        spec_resolve_bounce(BallStatus::Rally(last_hitter), region, bounce_count, side) == Some(
            (Some(spec_player_on_side(side)), 0u8),
        ),
{
}

/// Everything one match carries between ticks: the ledger, the net's
/// shift, whose region the next serve comes from, the court, and the one
/// live ball.
#[derive(Clone, Copy, Debug, PartialEq, Eq, Structural)]
pub struct MatchState {
    pub score: Score,
    pub net: NetOffset,
    pub serving_region: ServingRegion,
    pub court: CourtSettings,
    pub ball: Ball,
}

impl MatchState {
    pub open spec fn spec_wf(self) -> bool {
        &&& self.score.spec_wf()
        &&& self.net.spec_wf()
        &&& (self.score.left_has_won is None ==> vstd::math::abs(self.net.target as int)
            <= self.court.win_treshold)
        &&& self.serving_region.0 != CourtRegion::OutOfBounds
        &&& self.court.spec_wf()
        &&& self.ball.spec_wf()
    }

    /// A fresh match: empty ledger, centred net, and a serve ball waiting
    /// in the opening region.
    pub fn new(initial_region: CourtRegion, court: CourtSettings) -> (r: MatchState)
        requires
            initial_region != CourtRegion::OutOfBounds,
            court.spec_wf(),
        ensures
            r.spec_wf(),
            r.score == (Score {
                left_player: crate::score::PlayerScore { points: 0, games: 0 },
                right_player: crate::score::PlayerScore { points: 0, games: 0 },
                left_has_won: None,
            }),
            r.net == (NetOffset { target: 0, current_offset: 0, reset_queued: false }),
            r.serving_region.0 == initial_region,
            r.court == court,
            r.ball.status == BallStatus::Serve(
                initial_region,
                0,
                initial_region.spec_player_id(),
            ),
            r.score.spec_in_play(),
    {
        let player_id = initial_region.get_player_id();
        let ball = spawn_ball(initial_region, 0, player_id, &court);
        MatchState {
            score: Score {
                left_player: crate::score::PlayerScore { points: 0, games: 0 },
                right_player: crate::score::PlayerScore { points: 0, games: 0 },
                left_has_won: None,
            },
            net: NetOffset { target: 0, current_offset: 0, reset_queued: false },
            serving_region: ServingRegion(initial_region),
            court,
            ball,
        }
    }

    /// React to one bounce event: resolve the point, award a score change
    /// to the loser's opponent, swap the serve side when a game changed
    /// hands, and put up a fresh serve ball. Returns the tick's score
    /// changes and the game-over event if the ledger decided the match.
    pub fn on_ball_bounced(&mut self, ev: &BallBouncedEvt) -> (r: (
        Vec<ScoreChangedEvt>,
        Option<GameOverEvt>,
    ))
        requires
            old(self).spec_wf(),
            old(self).score.spec_in_play(),
        ensures
            final(self).spec_wf(),
            final(self).court == old(self).court,
            final(self).net == old(self).net,
            ({
                let res = spec_resolve_bounce(
                    old(self).ball.status,
                    old(self).ball.region,
                    ev.bounce_count as int,
                    ev.side as int,
                );
                match res {
                    Option::None => *final(self) == *old(self) && r.0@.len() == 0 && r.1 is None,
                    Option::Some((loser_opt, fault_count)) => {
                        let swapped = match loser_opt {
                            Option::Some(loser) => spec_add_point(old(self).score, loser != 1).1,
                            Option::None => false,
                        };
                        &&& (match loser_opt {
                            Option::Some(loser) => {
                                let outcome = spec_add_point(old(self).score, loser != 1);
                                &&& final(self).score == outcome.0
                                &&& r.0@.len() == 1 && r.0@[0] == outcome.2
                                &&& r.1 == outcome.3
                            },
                            Option::None => final(self).score == old(self).score && r.0@.len()
                                == 0 && r.1 is None,
                        })
                        &&& (swapped && old(self).serving_region.0.spec_is_left()
                            ==> final(self).serving_region.0.spec_is_right())
                        &&& (swapped && old(self).serving_region.0.spec_is_right()
                            ==> final(self).serving_region.0.spec_is_left())
                        &&& (!swapped ==> final(self).serving_region == old(self).serving_region)
                        &&& final(self).ball.status == BallStatus::Serve(
                            final(self).serving_region.0,
                            fault_count,
                            final(self).serving_region.0.spec_player_id(),
                        )
                        &&& final(self).ball.region == final(self).serving_region.0
                        &&& final(self).ball.dir.spec_is_zero()
                        &&& final(self).ball.speed == 0
                        &&& final(self).ball.bounce.count == 0
                    },
                }
            }),
    {
        let res = resolve_bounce(&self.ball.status, self.ball.region, ev.bounce_count, ev.side);
        let mut events: Vec<ScoreChangedEvt> = Vec::new();
        let mut game_over: Option<GameOverEvt> = None;

        if let Some((loser_opt, fault_count)) = res {
            let mut swap_serve = false;
            if let Some(loser) = loser_opt {
                let (swap, evt, go) = add_point_to_score(&mut self.score, loser != 1);
                swap_serve = swap;
                events.push(evt);
                game_over = go;
            }

            // The decided ball is retired; a new serve replaces it below.
            self.ball.status = BallStatus::Used;

            if swap_serve {
                self.serving_region = ServingRegion(
                    if self.serving_region.0.is_left() {
                        CourtRegion::get_random_right()
                    } else {
                        CourtRegion::get_random_left()
                    },
                );
            }

            let player_id = self.serving_region.0.get_player_id();
            self.ball = spawn_ball(self.serving_region.0, fault_count, player_id, &self.court);
        }

        (events, game_over)
    }

    /// One whole reaction to a bounce event, in the tick's order: resolve
    /// and score the point, shift the net by the score changes, and
    /// record a match win — whether the ledger or the net shift decided
    /// it — on the ledger.
    pub fn handle_bounce(&mut self, ev: &BallBouncedEvt) -> (r: NetShift)
        requires
            old(self).spec_wf(),
            old(self).score.spec_in_play(),
        ensures
            final(self).spec_wf(),
            final(self).court == old(self).court,
            spec_resolve_bounce(
                old(self).ball.status,
                old(self).ball.region,
                ev.bounce_count as int,
                ev.side as int,
            ) is None && !old(self).net.reset_queued ==> *final(self) == *old(self) && r
                == NetShift::Unchanged,
            ({
                let res = spec_resolve_bounce(
                    old(self).ball.status,
                    old(self).ball.region,
                    ev.bounce_count as int,
                    ev.side as int,
                );
                res matches Some((loser_opt, fault_count)) ==> {
                    &&& final(self).ball.status == BallStatus::Serve(
                        final(self).serving_region.0,
                        fault_count,
                        final(self).serving_region.0.spec_player_id(),
                    )
                    &&& final(self).ball.dir.spec_is_zero()
                    &&& final(self).ball.bounce.count == 0
                    &&& (loser_opt is None ==> final(self).score == old(self).score && final(self).serving_region == old(self).serving_region)
                    &&& (match loser_opt {
                        Option::Some(loser) => {
                            let outcome = spec_add_point(old(self).score, loser != 1);
                            let new_target = if old(self).net.reset_queued {
                                0int
                            } else {
                                old(self).net.target + spec_net_delta(outcome.2)
                            };
                            let over_line = vstd::math::abs(new_target)
                                > old(self).court.win_treshold;
                            &&& final(self).net.target == new_target
                            &&& final(self).net.current_offset == new_target
                            &&& final(self).score.left_player == outcome.0.left_player
                            &&& final(self).score.right_player == outcome.0.right_player
                            &&& (over_line ==> final(self).score.left_has_won == Some(
                                new_target > 0,
                            ) && r == NetShift::MatchOver(
                                GameOverEvt { left_has_won: new_target > 0 },
                            ))
                            &&& (!over_line && outcome.3 is Some ==> final(self).score.left_has_won == Some(outcome.3->Some_0.left_has_won))
                            &&& (!over_line && outcome.3 is None ==> final(self).score.left_has_won == old(self).score.left_has_won)
                            &&& (outcome.1 && old(self).serving_region.0.spec_is_left() ==> final(self).serving_region.0.spec_is_right())
                            &&& (outcome.1 && old(self).serving_region.0.spec_is_right() ==> final(self).serving_region.0.spec_is_left())
                            &&& (!outcome.1 ==> final(self).serving_region == old(self).serving_region)
                        },
                        Option::None => true,
                    })
                }
            }),
    {
        let (events, game_over_from_score) = self.on_ball_bounced(ev);
        proof {
            if events@.len() == 1 {
                assert(events@.drop_last() =~= Seq::<ScoreChangedEvt>::empty());
                assert(spec_total_delta(Seq::<ScoreChangedEvt>::empty()) == 0);
                assert(events@.last() == events@[0]);
                assert(spec_total_delta(events@) == spec_total_delta(events@.drop_last())
                    + spec_net_delta(events@.last()));
            }
        }
        let shift = handle_net_offset(&mut self.net, &events, &self.court);

        let decided: Option<GameOverEvt> = match &shift {
            NetShift::MatchOver(g) => Some(*g),
            _ => game_over_from_score,
        };
        if let Some(g) = decided {
            apply_game_over(&mut self.score, &g);
        }
        shift
    }
}

} // verus!
