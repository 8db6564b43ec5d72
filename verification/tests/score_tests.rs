use tag_of_ball::net::NetOffset;
use tag_of_ball::score::{
    add_point_to_score, apply_game_over, points_to_str, reset_score, GameOverEvt, PlayerScore,
    Score, ScoreChangeType, ScoreChangedEvt, GAME_SCORE_TARGET,
};

fn fresh() -> Score {
    Score {
        left_player: PlayerScore { points: 0, games: 0 },
        right_player: PlayerScore { points: 0, games: 0 },
        left_has_won: None,
    }
}

#[test]
fn single_point_steps_the_ladder() {
    let mut score = fresh();
    let (swap, evt, over) = add_point_to_score(&mut score, true);
    assert!(!swap);
    assert!(over.is_none());
    assert_eq!(
        evt,
        ScoreChangedEvt {
            left_side_scored: true,
            score_type: ScoreChangeType::Point
        }
    );
    assert_eq!(score.left_player.points, 1);
    assert_eq!(score.right_player.points, 0);
}

#[test]
fn four_clean_points_win_a_game() {
    let mut score = fresh();
    for _ in 0..3 {
        let (swap, _, _) = add_point_to_score(&mut score, false);
        assert!(!swap);
    }
    let (swap, evt, over) = add_point_to_score(&mut score, false);
    assert!(swap, "a won game swaps the serve side");
    assert!(over.is_none());
    assert_eq!(evt.score_type, ScoreChangeType::Game);
    assert!(!evt.left_side_scored);
    assert_eq!(score.right_player.games, 1);
    assert_eq!(score.right_player.points, 0);
    assert_eq!(score.left_player.points, 0);
}

#[test]
fn deuce_advantage_clamps_back_to_forty() {
    // Both sides reach 40-40.
    let mut score = fresh();
    for _ in 0..3 {
        add_point_to_score(&mut score, true);
        add_point_to_score(&mut score, false);
    }
    assert_eq!(score.left_player.points, 3);
    assert_eq!(score.right_player.points, 3);

    // The next point is advantage for its winner...
    let (swap, _, _) = add_point_to_score(&mut score, true);
    assert!(!swap);
    assert_eq!(score.left_player.points, 4);
    assert_eq!(score.right_player.points, 3);

    // ...and losing the following point clamps both back to 40.
    let (swap, evt, over) = add_point_to_score(&mut score, false);
    assert!(!swap);
    assert!(over.is_none());
    assert_eq!(evt.score_type, ScoreChangeType::Point);
    assert_eq!(score.left_player.points, 3);
    assert_eq!(score.right_player.points, 3);
}

#[test]
fn advantage_converts_with_two_clear_points() {
    let mut score = fresh();
    for _ in 0..3 {
        add_point_to_score(&mut score, true);
        add_point_to_score(&mut score, false);
    }
    add_point_to_score(&mut score, true); // advantage left
    let (swap, evt, _) = add_point_to_score(&mut score, true); // game left
    assert!(swap);
    assert_eq!(evt.score_type, ScoreChangeType::Game);
    assert_eq!(score.left_player.games, 1);
    assert_eq!(score.left_player.points, 0);
    assert_eq!(score.right_player.points, 0);
}

#[test]
fn reaching_the_game_target_ends_the_match() {
    let mut score = fresh();
    score.left_player.games = GAME_SCORE_TARGET - 1;
    for _ in 0..3 {
        add_point_to_score(&mut score, true);
    }
    let (swap, evt, over) = add_point_to_score(&mut score, true);
    assert!(!swap, "the match is over; no further serve swap");
    assert_eq!(evt.score_type, ScoreChangeType::Game);
    assert_eq!(
        over,
        Some(GameOverEvt {
            left_has_won: true
        })
    );
    assert_eq!(score.left_player.games, GAME_SCORE_TARGET);
}

#[test]
fn game_over_is_recorded_on_the_ledger() {
    let mut score = fresh();
    apply_game_over(&mut score, &GameOverEvt { left_has_won: false });
    assert_eq!(score.left_has_won, Some(false));
}

#[test]
fn reset_clears_ledger_and_queues_net_reset() {
    let mut score = fresh();
    score.left_player = PlayerScore { points: 2, games: 3 };
    score.left_has_won = Some(true);
    let mut net = NetOffset {
        target: 60_000,
        current_offset: 60_000,
        reset_queued: false,
    };
    reset_score(&mut score, &mut net);
    assert_eq!(score.left_player, PlayerScore { points: 0, games: 0 });
    assert_eq!(score.right_player, PlayerScore { points: 0, games: 0 });
    assert_eq!(score.left_has_won, None);
    assert!(net.reset_queued);
    assert_eq!(net.target, 60_000, "the reset itself waits for the net tick");
}

#[test]
fn points_ladder_labels() {
    assert_eq!(points_to_str(0), "00");
    assert_eq!(points_to_str(1), "15");
    assert_eq!(points_to_str(2), "30");
    assert_eq!(points_to_str(3), "40");
    assert_eq!(points_to_str(4), "AD");
}
