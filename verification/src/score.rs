//! The score ledger: tennis-style points per side, games, the deuce
//! clamp, and the events a point win sends to the rest of the match.

use vstd::prelude::*;
use crate::net::NetOffset;

verus! {

/// Games needed to win the match.
pub const GAME_SCORE_TARGET: u8 = 5;

/// How far the net shifts toward the scorer's opponent on a point win,
/// in milliunits.
pub const NET_OFFSET_POINT: i64 = 30_000;

/// How far the net shifts on a game win, in milliunits.
pub const NET_OFFSET_GAME: i64 = 90_000;

/// One side's tally: rally points inside the current game, and games won.
#[derive(Clone, Copy, Debug, PartialEq, Eq, Structural)]
pub struct PlayerScore {
    pub points: u8,
    pub games: u8,
}

impl Default for PlayerScore {
    fn default() -> (r: Self)
        ensures
            r.points == 0 && r.games == 0,
    {
        PlayerScore { points: 0, games: 0 }
    }
}

impl PlayerScore {
    /// Points are displayed on the 0/15/30/40/AD ladder, so they never
    /// pass 4; games never pass the match target.
    pub open spec fn spec_wf(self) -> bool {
        self.points <= 4 && self.games <= GAME_SCORE_TARGET
    }
}

/// The whole ledger, plus the terminal record of who won the match.
#[derive(Clone, Copy, Debug, PartialEq, Eq, Structural)]
pub struct Score {
    pub left_player: PlayerScore,
    pub right_player: PlayerScore,
    pub left_has_won: Option<bool>,
}

impl Default for Score {
    fn default() -> (r: Self)
        ensures
            r.left_player.points == 0 && r.left_player.games == 0,
            r.right_player.points == 0 && r.right_player.games == 0,
            r.left_has_won is None,
    {
        Score {
            left_player: PlayerScore { points: 0, games: 0 },
            right_player: PlayerScore { points: 0, games: 0 },
            left_has_won: None,
        }
    }
}

impl Score {
    pub open spec fn spec_wf(self) -> bool {
        &&& self.left_player.spec_wf()
        &&& self.right_player.spec_wf()
        &&& !(self.left_player.points == 4 && self.right_player.points == 4)
    }

    /// The match is still being played: nobody has won and neither side
    /// has reached the game target.
    pub open spec fn spec_in_play(self) -> bool {
        &&& self.spec_wf()
        &&& self.left_has_won is None
        &&& self.left_player.games < GAME_SCORE_TARGET
        &&& self.right_player.games < GAME_SCORE_TARGET
    }
}

/// Whether a score change was a single point or a whole game.
#[derive(Clone, Copy, Debug, PartialEq, Eq, Structural)]
pub enum ScoreChangeType {
    Point,
    Game,
}

/// Announces a score change; consumed by the net offset controller and
/// the UI.
#[derive(Clone, Copy, Debug, PartialEq, Eq, Structural)]
pub struct ScoreChangedEvt {
    pub left_side_scored: bool,
    pub score_type: ScoreChangeType,
}

/// Announces the end of the match.
#[derive(Clone, Copy, Debug, PartialEq, Eq, Structural)]
pub struct GameOverEvt {
    pub left_has_won: bool,
}

/// The points the scoring side must reach to take the game: two clear of
/// the opponent, and at least four.
pub open spec fn spec_required_points(other_points: int) -> int {
    vstd::math::max(other_points + 2, 4)
}

/// The ledger with the scoring side's and the other side's new tallies
/// written back.
pub open spec fn spec_set_sides(
    score: Score,
    left: bool,
    scoring: PlayerScore,
    other: PlayerScore,
) -> Score {
    if left {
        Score { left_player: scoring, right_player: other, ..score }
    } else {
        Score { left_player: other, right_player: scoring, ..score }
    }
}

/// One point awarded: the new ledger, whether the serve side must swap (a
/// game was won and the match goes on), the score-change event, and the
/// game-over event if the match is decided.
///
/// Reaching the required points takes the game: both sides' points reset
/// and the winner's games advance. At 40-40 a point win shows as
/// advantage (4); losing the next point clamps both sides back to 40, so
/// points never leave the display ladder.
pub open spec fn spec_add_point(score: Score, left: bool) -> (Score, bool, ScoreChangedEvt, Option<
    GameOverEvt,
>) {
    let scoring = if left {
        score.left_player
    } else {
        score.right_player
    };
    let other = if left {
        score.right_player
    } else {
        score.left_player
    };
    let new_points = scoring.points + 1;
    if new_points >= spec_required_points(other.points as int) {
        let won = Score {
            left_has_won: score.left_has_won,
            ..spec_set_sides(
                score,
                left,
                PlayerScore { points: 0, games: (scoring.games + 1) as u8 },
                PlayerScore { points: 0, games: other.games },
            )
        };
        let evt = ScoreChangedEvt { left_side_scored: left, score_type: ScoreChangeType::Game };
        if scoring.games + 1 >= GAME_SCORE_TARGET {
            (won, false, evt, Some(GameOverEvt { left_has_won: left }))
        } else {
            (won, true, evt, None)
        }
    } else {
        let evt = ScoreChangedEvt { left_side_scored: left, score_type: ScoreChangeType::Point };
        if new_points == other.points && new_points > 3 {
            let clamped = spec_set_sides(
                score,
                left,
                PlayerScore { points: 3, games: scoring.games },
                PlayerScore { points: 3, games: other.games },
            );
            (clamped, false, evt, None)
        } else {
            let stepped = spec_set_sides(
                score,
                left,
                PlayerScore { points: new_points as u8, games: scoring.games },
                other,
            );
            (stepped, false, evt, None)
        }
    }
}

/// Award one point; see `spec_add_point` for the whole transition.
pub fn add_point_to_score(score: &mut Score, add_to_left_player: bool) -> (r: (
    bool,
    ScoreChangedEvt,
    Option<GameOverEvt>,
))
    requires
        old(score).spec_in_play(),
    ensures
        (*final(score), r.0, r.1, r.2) == spec_add_point(*old(score), add_to_left_player),
        final(score).left_has_won == old(score).left_has_won,
        final(score).spec_wf(),
{
    let scoring_points: u8 = if add_to_left_player {
        score.left_player.points
    } else {
        score.right_player.points
    };
    let other_points: u8 = if add_to_left_player {
        score.right_player.points
    } else {
        score.left_player.points
    };
    let new_points: u8 = scoring_points + 1;

    let mut required_points: u8 = other_points + 2;
    if required_points < 4 {
        required_points = 4;
    }

    if new_points >= required_points {
        // Game won: both sides' points reset, the winner's games advance.
        let new_games: u8 = if add_to_left_player {
            score.left_player.games + 1
        } else {
            score.right_player.games + 1
        };
        if add_to_left_player {
            score.left_player.games = new_games;
            score.left_player.points = 0;
            score.right_player.points = 0;
        } else {
            score.right_player.games = new_games;
            score.right_player.points = 0;
            score.left_player.points = 0;
        }
        let evt = ScoreChangedEvt {
            left_side_scored: add_to_left_player,
            score_type: ScoreChangeType::Game,
        };
        if new_games >= GAME_SCORE_TARGET {
            (false, evt, Some(GameOverEvt { left_has_won: add_to_left_player }))
        } else {
            (true, evt, None)
        }
    } else if new_points == other_points && new_points > 3 {
        // Advantage lost: clamp both sides back to 40.
        score.left_player.points = 3;
        score.right_player.points = 3;
        let evt = ScoreChangedEvt {
            left_side_scored: add_to_left_player,
            score_type: ScoreChangeType::Point,
        };
        (false, evt, None)
    } else {
        if add_to_left_player {
            score.left_player.points = new_points;
        } else {
            score.right_player.points = new_points;
        }
        let evt = ScoreChangedEvt {
            left_side_scored: add_to_left_player,
            score_type: ScoreChangeType::Point,
        };
        (false, evt, None)
    }
}

/// Record the end of the match on the ledger.
pub fn apply_game_over(score: &mut Score, ev: &GameOverEvt)
    ensures
        *final(score) == (Score { left_has_won: Some(ev.left_has_won), ..*old(score) }),
{
    score.left_has_won = Some(ev.left_has_won);
}

/// Clear the ledger for a fresh match and queue the net back to centre.
pub fn reset_score(score: &mut Score, net: &mut NetOffset)
    ensures
        final(score).left_player.points == 0 && final(score).left_player.games == 0,
        final(score).right_player.points == 0 && final(score).right_player.games == 0,
        final(score).left_has_won is None,
        *final(net) == (NetOffset { reset_queued: true, ..*old(net) }),
{
    score.left_player = PlayerScore { points: 0, games: 0 };
    score.right_player = PlayerScore { points: 0, games: 0 };
    score.left_has_won = None;
    net.reset_queued = true;
}

/// The scoreboard label for a point tally on the 0/15/30/40/AD ladder.
pub fn points_to_str(points: u8) -> (r: String)
    requires
        points <= 4,
    ensures
        points == 0 ==> r@ == "00"@,
        points == 1 ==> r@ == "15"@,
        points == 2 ==> r@ == "30"@,
        points == 3 ==> r@ == "40"@,
        points == 4 ==> r@ == "AD"@,
{
    match points {
        0 => "00".to_string(),
        1 => "15".to_string(),
        2 => "30".to_string(),
        3 => "40".to_string(),
        _ => "AD".to_string(),
    }
}

} // verus!
