use tag_of_ball::court::{region_from_index, CourtRegion, CourtSettings};

#[test]
fn region_side_predicates() {
    assert!(CourtRegion::TopLeft.is_left());
    assert!(CourtRegion::BottomLeft.is_left());
    assert!(!CourtRegion::TopRight.is_left());
    assert!(CourtRegion::TopRight.is_right());
    assert!(CourtRegion::BottomRight.is_right());
    assert!(CourtRegion::TopLeft.is_top());
    assert!(CourtRegion::TopRight.is_top());
    assert!(CourtRegion::BottomLeft.is_bottom());
    assert!(CourtRegion::BottomRight.is_bottom());
    assert!(CourtRegion::OutOfBounds.is_out_of_bounds());
    assert!(!CourtRegion::OutOfBounds.is_left());
    assert!(!CourtRegion::OutOfBounds.is_right());
}

#[test]
fn region_inverse_pairs() {
    assert_eq!(
        CourtRegion::TopLeft.get_inverse(),
        Some(CourtRegion::BottomRight)
    );
    assert_eq!(
        CourtRegion::TopRight.get_inverse(),
        Some(CourtRegion::BottomLeft)
    );
    assert_eq!(
        CourtRegion::BottomLeft.get_inverse(),
        Some(CourtRegion::TopRight)
    );
    assert_eq!(
        CourtRegion::BottomRight.get_inverse(),
        Some(CourtRegion::TopLeft)
    );
    assert_eq!(CourtRegion::OutOfBounds.get_inverse(), None);
}

#[test]
fn region_inverse_involution() {
    for region in [
        CourtRegion::TopLeft,
        CourtRegion::TopRight,
        CourtRegion::BottomLeft,
        CourtRegion::BottomRight,
    ] {
        let there = region.get_inverse().unwrap();
        assert_eq!(there.get_inverse(), Some(region));
    }
}

#[test]
fn region_player_ids() {
    assert_eq!(CourtRegion::TopLeft.get_player_id(), 1);
    assert_eq!(CourtRegion::BottomLeft.get_player_id(), 1);
    assert_eq!(CourtRegion::TopRight.get_player_id(), 2);
    assert_eq!(CourtRegion::BottomRight.get_player_id(), 2);
}

#[test]
fn region_from_index_order() {
    assert_eq!(region_from_index(0), CourtRegion::TopLeft);
    assert_eq!(region_from_index(1), CourtRegion::BottomLeft);
    assert_eq!(region_from_index(2), CourtRegion::TopRight);
    assert_eq!(region_from_index(3), CourtRegion::BottomRight);
}

#[test]
fn random_region_single_point_range_is_exact() {
    // A one-element range leaves the draw no freedom at all.
    for _ in 0..8 {
        assert_eq!(
            CourtRegion::get_random_from_range(1, 1),
            CourtRegion::BottomLeft
        );
        assert_eq!(
            CourtRegion::get_random_from_range(2, 2),
            CourtRegion::TopRight
        );
    }
}

#[test]
fn random_regions_respect_their_side() {
    for _ in 0..32 {
        assert!(CourtRegion::get_random_left().is_left());
        assert!(CourtRegion::get_random_right().is_right());
        assert!(!CourtRegion::get_random().is_out_of_bounds());
    }
}

#[test]
fn standard_court_geometry() {
    let court = CourtSettings::standard();
    assert_eq!(court.left, -660_000);
    assert_eq!(court.right, 660_000);
    assert_eq!(court.top, 380_000);
    assert_eq!(court.bottom, -380_000);
    assert_eq!(court.region_x, 333_000);
    assert_eq!(court.region_y, 193_000);
    assert_eq!(court.base_region_size.x, 333_000);
    assert_eq!(court.base_region_size.y, 193_000);
    assert_eq!(court.win_treshold, 330_000);
}
