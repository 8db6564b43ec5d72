use tag_of_ball::ball::{hit_ball, move_ball, Ball, BallBouncedEvt, BallStatus};
use tag_of_ball::court::{CourtRegion, CourtSettings};
use tag_of_ball::fixed::Vec2Fp;
use tag_of_ball::rally::{resolve_bounce, MatchState};
use tag_of_ball::score::NET_OFFSET_POINT;

#[test]
fn resolve_double_fault_awards_the_opponent() {
    // A second fault for the same server decides the point and clears the
    // carried count.
    assert_eq!(
        resolve_bounce(&BallStatus::Fault(2, 1), CourtRegion::BottomRight, 1, 1),
        Some((Some(1), 0))
    );
}

#[test]
fn resolve_single_fault_carries_its_count() {
    assert_eq!(
        resolve_bounce(&BallStatus::Fault(1, 1), CourtRegion::BottomRight, 1, 1),
        Some((None, 1))
    );
}

#[test]
fn resolve_out_of_bounds_first_bounce_blames_the_hitter() {
    assert_eq!(
        resolve_bounce(&BallStatus::Rally(2), CourtRegion::OutOfBounds, 1, -1),
        Some((Some(2), 0))
    );
}

#[test]
fn resolve_bounce_limit_blames_the_side_of_the_bounce() {
    // Two bounces on the left side: the left player (1) loses, whoever hit
    // last.
    assert_eq!(
        resolve_bounce(&BallStatus::Rally(2), CourtRegion::BottomLeft, 2, -1),
        Some((Some(1), 0))
    );
    // Two bounces on the right side: the right player (2) loses.
    assert_eq!(
        resolve_bounce(&BallStatus::Rally(1), CourtRegion::TopRight, 2, 1),
        Some((Some(2), 0))
    );
}

#[test]
fn resolve_quiet_bounces_change_nothing() {
    assert_eq!(
        resolve_bounce(&BallStatus::Rally(1), CourtRegion::TopRight, 1, 1),
        None
    );
    assert_eq!(
        resolve_bounce(&BallStatus::Used, CourtRegion::OutOfBounds, 5, 1),
        None
    );
    assert_eq!(
        resolve_bounce(
            &BallStatus::Serve(CourtRegion::TopLeft, 0, 1),
            CourtRegion::TopLeft,
            0,
            -1
        ),
        None
    );
}

fn step_until_bounce(ball: &mut Ball, net_x: i64) -> BallBouncedEvt {
    for _ in 0..100_000 {
        if let Some(evt) = move_ball(ball, net_x, 16) {
            return evt;
        }
    }
    panic!("the ball never landed");
}

#[test]
fn scenario_clean_winning_rally() {
    let court = CourtSettings::standard();
    let mut ms = MatchState::new(CourtRegion::BottomLeft, court);
    assert_eq!(ms.ball.status, BallStatus::Serve(CourtRegion::BottomLeft, 0, 1));

    // Player 1 serves from the bottom-left; the legal landing quadrant is
    // the diagonal opposite, top-right.
    hit_ball(&mut ms.ball, 1, -1, Vec2Fp { x: 1000, y: 0 }, 600, ms.net.current_offset, &court);
    ms.ball.region = CourtRegion::TopRight;
    let evt = step_until_bounce(&mut ms.ball, ms.net.current_offset);
    assert_eq!(evt.bounce_count, 1);
    assert_eq!(ms.ball.status, BallStatus::Rally(1), "a legal serve opens the rally");
    ms.handle_bounce(&evt);
    assert_eq!(ms.score.left_player.points, 0);

    // Player 2 returns; the ball bounces once in the bottom-left: one
    // bounce is within the limit, so no score.
    hit_ball(&mut ms.ball, 2, 1, Vec2Fp { x: -1000, y: 0 }, 600, ms.net.current_offset, &court);
    assert_eq!(ms.ball.status, BallStatus::Rally(2));
    ms.ball.region = CourtRegion::BottomLeft;
    let evt = step_until_bounce(&mut ms.ball, ms.net.current_offset);
    assert_eq!(evt.bounce_count, 1, "crossing the net reset the count first");
    ms.handle_bounce(&evt);
    assert_eq!(ms.score.left_player.points, 0);
    assert_eq!(ms.score.right_player.points, 0);

    // Player 1 returns; player 2 never reaches it, and the ball bounces
    // twice on the right side.
    hit_ball(&mut ms.ball, 1, -1, Vec2Fp { x: 1000, y: 0 }, 600, ms.net.current_offset, &court);
    ms.ball.region = CourtRegion::TopRight;
    let first = step_until_bounce(&mut ms.ball, ms.net.current_offset);
    assert_eq!(first.bounce_count, 1);
    ms.handle_bounce(&first);
    let second = step_until_bounce(&mut ms.ball, ms.net.current_offset);
    assert_eq!(second.bounce_count, 2);
    assert_eq!(second.side, 1, "the second bounce is on the right side");
    ms.handle_bounce(&second);

    // The point goes to player 1: 15-0, and the net shifts one point-step
    // toward the winner's stake.
    assert_eq!(ms.score.left_player.points, 1);
    assert_eq!(ms.score.right_player.points, 0);
    assert_eq!(ms.net.target, NET_OFFSET_POINT);
    assert_eq!(ms.net.current_offset, NET_OFFSET_POINT);
    // A fresh serve ball is already up, same serving region, no faults.
    assert_eq!(ms.ball.status, BallStatus::Serve(CourtRegion::BottomLeft, 0, 1));
}

#[test]
fn scenario_double_fault() {
    let court = CourtSettings::standard();
    let mut ms = MatchState::new(CourtRegion::BottomLeft, court);

    // First serve lands in the wrong quadrant: fault one.
    hit_ball(&mut ms.ball, 1, -1, Vec2Fp { x: 1000, y: 0 }, 600, ms.net.current_offset, &court);
    ms.ball.region = CourtRegion::BottomRight;
    let evt = step_until_bounce(&mut ms.ball, ms.net.current_offset);
    assert_eq!(ms.ball.status, BallStatus::Fault(1, 1));
    ms.handle_bounce(&evt);

    // No point changed hands; the re-serve carries the fault count.
    assert_eq!(ms.score.left_player.points, 0);
    assert_eq!(ms.score.right_player.points, 0);
    assert_eq!(ms.ball.status, BallStatus::Serve(CourtRegion::BottomLeft, 1, 1));

    // Second serve also lands wrong: fault two, past the limit.
    hit_ball(&mut ms.ball, 1, -1, Vec2Fp { x: 1000, y: 0 }, 600, ms.net.current_offset, &court);
    ms.ball.region = CourtRegion::BottomRight;
    let evt = step_until_bounce(&mut ms.ball, ms.net.current_offset);
    assert_eq!(ms.ball.status, BallStatus::Fault(2, 1));
    ms.handle_bounce(&evt);

    // The double fault hands the point to player 2, and the next serve
    // starts with a clean fault count.
    assert_eq!(ms.score.right_player.points, 1);
    assert_eq!(ms.score.left_player.points, 0);
    assert_eq!(ms.net.target, -NET_OFFSET_POINT);
    assert_eq!(ms.ball.status, BallStatus::Serve(CourtRegion::BottomLeft, 0, 1));
}

#[test]
fn game_win_swaps_the_serving_side() {
    let court = CourtSettings::standard();
    let mut ms = MatchState::new(CourtRegion::BottomLeft, court);
    // Hand player 2 three points, then let player 1 double-fault the game
    // away... rather, give player 2 the game by four double faults.
    for _ in 0..4 {
        hit_ball(&mut ms.ball, 1, -1, Vec2Fp { x: 1000, y: 0 }, 600, ms.net.current_offset, &court);
        ms.ball.region = CourtRegion::BottomRight;
        let evt = step_until_bounce(&mut ms.ball, ms.net.current_offset);
        ms.handle_bounce(&evt);
        hit_ball(&mut ms.ball, 1, -1, Vec2Fp { x: 1000, y: 0 }, 600, ms.net.current_offset, &court);
        ms.ball.region = CourtRegion::BottomRight;
        let evt = step_until_bounce(&mut ms.ball, ms.net.current_offset);
        ms.handle_bounce(&evt);
    }
    assert_eq!(ms.score.right_player.games, 1);
    assert_eq!(ms.score.right_player.points, 0);
    assert!(
        ms.serving_region.0.is_right(),
        "the serve moves to a region on the other side after a game win"
    );
    match ms.ball.status {
        BallStatus::Serve(region, 0, 2) => assert!(region.is_right()),
        other => panic!("expected a fresh right-side serve, got {:?}", other),
    }
}
