use tag_of_ball::ball::{
    handle_collision, hit_ball, move_ball, spawn_ball, Ball, BallBounce, BallStatus,
    RegionCollision, BALL_MAX_SPEED, BALL_MIN_SPEED,
};
use tag_of_ball::ball::{detect_region, handle_regions};
use tag_of_ball::court::{CourtRegion, CourtSettings};
use tag_of_ball::fixed::Vec2Fp;
use tag_of_ball::player::{Player, PlayerSwing};
use tag_of_ball::player_action::PlayerActionStatus;

fn flying_ball() -> Ball {
    Ball {
        pos: Vec2Fp { x: -10_000, y: 0 },
        prev_pos: Vec2Fp { x: -10_000, y: 0 },
        dir: Vec2Fp { x: 1000, y: 0 },
        speed: 2_750_000,
        region: CourtRegion::TopLeft,
        bounce: BallBounce {
            count: 1,
            height: 100_000,
            target_height: 500_000,
            gravity_mult: 1000,
            offset: 50_000,
        },
        status: BallStatus::Rally(1),
        predicted_bounce_pos: Vec2Fp { x: 0, y: 0 },
        predicted_bounce_time_ms: 0,
    }
}

#[test]
fn idle_ball_does_not_move() {
    let mut ball = flying_ball();
    ball.dir = Vec2Fp { x: 0, y: 0 };
    let before = ball;
    assert!(move_ball(&mut ball, 0, 16).is_none());
    assert_eq!(ball, before);
}

#[test]
fn crawling_ball_parks() {
    let mut ball = flying_ball();
    ball.dir = Vec2Fp { x: 10, y: 10 };
    assert!(move_ball(&mut ball, 0, 16).is_none());
    assert_eq!(ball.dir, Vec2Fp { x: 0, y: 0 });
}

#[test]
fn net_cross_resets_bounce_count() {
    let mut ball = flying_ball();
    // One 16 ms step at full speed moves 44 units: from -10 past the net at 0.
    let evt = move_ball(&mut ball, 0, 16);
    assert!(evt.is_none());
    assert_eq!(ball.pos.x, 34_000);
    assert_eq!(ball.bounce.count, 0, "crossing the net line clears the count");
}

#[test]
fn no_cross_keeps_bounce_count() {
    let mut ball = flying_ball();
    let evt = move_ball(&mut ball, 200_000, 16);
    assert!(evt.is_none());
    assert_eq!(ball.bounce.count, 1);
}

fn landing_serve(region_over: CourtRegion) -> Ball {
    Ball {
        pos: Vec2Fp { x: 500_000, y: 0 },
        prev_pos: Vec2Fp { x: 500_000, y: 0 },
        dir: Vec2Fp { x: 1000, y: 0 },
        speed: 1_000_000,
        region: region_over,
        bounce: BallBounce {
            count: 0,
            height: -100_000,
            target_height: 500_000,
            gravity_mult: 1000,
            offset: 0,
        },
        status: BallStatus::Serve(CourtRegion::BottomLeft, 0, 1),
        predicted_bounce_pos: Vec2Fp { x: 0, y: 0 },
        predicted_bounce_time_ms: 0,
    }
}

#[test]
fn legal_serve_bounce_opens_the_rally() {
    // BottomLeft's diagonal opposite is TopRight: landing there is legal.
    let mut ball = landing_serve(CourtRegion::TopRight);
    let evt = move_ball(&mut ball, 0, 16).expect("the falling ball lands");
    assert_eq!(evt.bounce_count, 1);
    assert_eq!(evt.side, 1);
    assert_eq!(ball.status, BallStatus::Rally(1));
}

#[test]
fn illegal_serve_bounce_is_a_fault() {
    let mut ball = landing_serve(CourtRegion::BottomRight);
    let evt = move_ball(&mut ball, 0, 16).expect("the falling ball lands");
    assert_eq!(evt.bounce_count, 1);
    assert_eq!(ball.status, BallStatus::Fault(1, 1));
}

#[test]
fn touchdown_decays_speed_and_shaves_the_apex() {
    let mut ball = landing_serve(CourtRegion::TopRight);
    move_ball(&mut ball, 0, 16).expect("lands");
    // Four fifths of 1_000_000, still inside the legal band.
    assert_eq!(ball.speed, 800_000);
    // The shave uses the pre-decay speed: 250 * 729 / 1000 = 182.
    assert_eq!(ball.bounce.target_height, 499_818);
    assert_eq!(ball.bounce.height, 499_818);
    assert_eq!(ball.bounce.offset, 0);
}

#[test]
fn slow_touchdown_keeps_speed_at_the_minimum() {
    let mut ball = landing_serve(CourtRegion::TopRight);
    ball.speed = 400_000;
    move_ball(&mut ball, 0, 16).expect("lands");
    // 400_000 * 4 / 5 = 320_000 would fall below the band; it clamps.
    assert_eq!(ball.speed, BALL_MIN_SPEED);
}

#[test]
fn hit_speed_stays_inside_the_band() {
    let court = CourtSettings::standard();
    let mut ball = spawn_ball(CourtRegion::BottomLeft, 0, 1, &court);
    hit_ball(&mut ball, 1, -1, Vec2Fp { x: 1000, y: 0 }, 0, 0, &court);
    assert_eq!(ball.speed, BALL_MIN_SPEED);

    let mut ball = spawn_ball(CourtRegion::BottomLeft, 0, 1, &court);
    hit_ball(&mut ball, 1, -1, Vec2Fp { x: 1000, y: 0 }, 1_000_000, 0, &court);
    assert_eq!(ball.speed, BALL_MAX_SPEED, "overlong charges clamp to full");

    let mut ball = spawn_ball(CourtRegion::BottomLeft, 0, 1, &court);
    hit_ball(&mut ball, 1, -1, Vec2Fp { x: 1000, y: 0 }, 500, 0, &court);
    assert_eq!(ball.speed, 1_550_000);
}

#[test]
fn hit_carries_an_eighth_of_the_old_speed() {
    let court = CourtSettings::standard();
    let mut ball = spawn_ball(CourtRegion::BottomLeft, 0, 1, &court);
    ball.speed = 800_000;
    hit_ball(&mut ball, 1, -1, Vec2Fp { x: 1000, y: 0 }, 500, 0, &court);
    assert_eq!(ball.speed, 1_550_000 + 100_000);
    assert_eq!(ball.bounce.gravity_mult, 1541);
    assert!(ball.bounce.height >= 180_000 && ball.bounce.height <= 650_000);
    assert_eq!(ball.bounce.height, ball.bounce.target_height);
    assert_eq!(ball.dir, Vec2Fp { x: 1000, y: 0 });
}

#[test]
fn volleyed_serve_converts_to_a_rally() {
    let court = CourtSettings::standard();
    let mut ball = spawn_ball(CourtRegion::BottomLeft, 0, 1, &court);
    // The receiver strikes the serve before it ever bounces.
    hit_ball(&mut ball, 2, 1, Vec2Fp { x: -1000, y: 0 }, 500, 0, &court);
    assert_eq!(ball.status, BallStatus::Rally(2));
}

#[test]
fn serving_player_own_stroke_keeps_serve_status() {
    let court = CourtSettings::standard();
    let mut ball = spawn_ball(CourtRegion::BottomLeft, 0, 1, &court);
    hit_ball(&mut ball, 1, -1, Vec2Fp { x: 1000, y: 0 }, 500, 0, &court);
    assert_eq!(ball.status, BallStatus::Serve(CourtRegion::BottomLeft, 0, 1));
}

#[test]
fn rally_hit_tags_the_new_hitter() {
    let court = CourtSettings::standard();
    let mut ball = spawn_ball(CourtRegion::BottomLeft, 0, 1, &court);
    ball.status = BallStatus::Rally(1);
    hit_ball(&mut ball, 2, 1, Vec2Fp { x: -1000, y: 0 }, 500, 0, &court);
    assert_eq!(ball.status, BallStatus::Rally(2));
}

#[test]
fn swing_connects_once_per_activation() {
    let court = CourtSettings::standard();
    let player = Player::new(2);
    let mut swing = PlayerSwing::standard();
    swing.status = PlayerActionStatus::Active(500);
    let player_pos = Vec2Fp { x: 640_000, y: -200_000 };

    let mut ball = spawn_ball(CourtRegion::BottomRight, 0, 2, &court);
    ball.pos = Vec2Fp { x: 660_000, y: -210_000 };
    let hit = handle_collision(
        &mut ball,
        &player,
        player_pos,
        &mut swing,
        Vec2Fp { x: -1000, y: 0 },
        0,
        &court,
    );
    assert!(hit.is_some());
    assert_eq!(hit.unwrap().player_id, 2);
    assert!(matches!(swing.status, PlayerActionStatus::Cooldown));

    // The same activation cannot strike again: it is already cooling down.
    let again = handle_collision(
        &mut ball,
        &player,
        player_pos,
        &mut swing,
        Vec2Fp { x: -1000, y: 0 },
        0,
        &court,
    );
    assert!(again.is_none());
}

#[test]
fn swing_out_of_reach_misses() {
    let court = CourtSettings::standard();
    let player = Player::new(1);
    let mut swing = PlayerSwing::standard();
    swing.status = PlayerActionStatus::Active(500);

    let mut ball = spawn_ball(CourtRegion::BottomLeft, 0, 1, &court);
    ball.pos = Vec2Fp { x: 0, y: 0 };
    let hit = handle_collision(
        &mut ball,
        &player,
        Vec2Fp { x: -500_000, y: 0 },
        &mut swing,
        Vec2Fp { x: 1000, y: 0 },
        0,
        &court,
    );
    assert!(hit.is_none());
    assert!(
        matches!(swing.status, PlayerActionStatus::Active(_)),
        "a missed swing keeps its active window"
    );
}

#[test]
fn detect_region_takes_the_last_entry() {
    let court = CourtSettings::standard();
    let events = vec![
        RegionCollision { region: CourtRegion::TopLeft, started: true },
        RegionCollision { region: CourtRegion::BottomLeft, started: true },
    ];
    let inside = Vec2Fp { x: -100_000, y: -100_000 };
    assert_eq!(
        detect_region(&events, inside, &court),
        Some(CourtRegion::BottomLeft)
    );
}

#[test]
fn leaving_all_regions_outside_the_lines_is_out_of_bounds() {
    let court = CourtSettings::standard();
    let events = vec![RegionCollision { region: CourtRegion::TopRight, started: false }];
    let outside = Vec2Fp { x: 800_000, y: 0 };
    assert_eq!(
        detect_region(&events, outside, &court),
        Some(CourtRegion::OutOfBounds)
    );
    let inside = Vec2Fp { x: 100_000, y: 0 };
    assert_eq!(detect_region(&events, inside, &court), None);
}

#[test]
fn region_flip_resets_bounce_count() {
    let court = CourtSettings::standard();
    let mut ball = flying_ball();
    assert_eq!(ball.bounce.count, 1);
    let events = vec![RegionCollision { region: CourtRegion::TopRight, started: true }];
    handle_regions(&mut ball, &events, &court);
    assert_eq!(ball.region, CourtRegion::TopRight);
    assert_eq!(ball.bounce.count, 0, "left-to-right flip crosses the net");
}

#[test]
fn same_side_region_change_keeps_bounce_count() {
    let court = CourtSettings::standard();
    let mut ball = flying_ball();
    let events = vec![RegionCollision { region: CourtRegion::BottomLeft, started: true }];
    handle_regions(&mut ball, &events, &court);
    assert_eq!(ball.region, CourtRegion::BottomLeft);
    assert_eq!(ball.bounce.count, 1);
}

#[test]
fn spawned_serve_ball_waits_in_its_corner() {
    let court = CourtSettings::standard();
    let ball = spawn_ball(CourtRegion::BottomLeft, 1, 1, &court);
    assert_eq!(ball.status, BallStatus::Serve(CourtRegion::BottomLeft, 1, 1));
    assert_eq!(ball.region, CourtRegion::BottomLeft);
    assert_eq!(ball.pos.x, -640_000);
    assert!(ball.pos.y <= -120_000 && ball.pos.y >= -280_000);
    assert_eq!(ball.dir, Vec2Fp { x: 0, y: 0 });
    assert_eq!(ball.speed, 0);
    assert_eq!(ball.bounce.count, 0);

    let ball = spawn_ball(CourtRegion::TopRight, 0, 2, &court);
    assert_eq!(ball.pos.x, 640_000);
    assert!(ball.pos.y >= 120_000 && ball.pos.y <= 280_000);
}
