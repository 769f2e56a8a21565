use lyra::framework::Breadcrumbs;
use lyra::framework::LyraError;
use lyra::framework::Point;
use lyra::framework::MAX_BREADCRUMBS;

fn point(slot: u64, tag: u8) -> Point {
    Point::Specific(slot, vec![tag; 4])
}

#[test]
fn new_cursor_is_empty() {
    let cursor = Breadcrumbs::new();
    assert!(cursor.is_empty());
    assert_eq!(cursor.to_points(), vec![]);
    assert_eq!(cursor.latest_known_point(), None);
    assert_eq!(cursor.to_data(), vec![]);
}

#[test]
fn rollback_drops_later_points() {
    let mut cursor = Breadcrumbs::new();
    cursor.track(point(10, 0xA));
    cursor.track(point(12, 0xB));
    cursor.track(point(15, 0xC));
    cursor.track(point(11, 0xD));
    assert_eq!(cursor.to_points(), vec![point(11, 0xD), point(10, 0xA)]);
}

#[test]
fn cap_drops_the_oldest() {
    let mut cursor = Breadcrumbs::new();
    for slot in 1..=25u64 {
        cursor.track(point(slot, 1));
    }
    let points = cursor.to_points();
    assert_eq!(points.len(), 20);
    assert_eq!(points.len(), MAX_BREADCRUMBS);
    assert_eq!(points[0].slot_or_default(), 25);
    assert_eq!(points[19].slot_or_default(), 6);
    for w in points.windows(2) {
        assert!(w[0].slot_or_default() > w[1].slot_or_default());
    }
}

#[test]
fn track_puts_the_point_first_and_nothing_later_behind_it() {
    let mut cursor = Breadcrumbs::new();
    for slot in [3u64, 9, 27, 81] {
        cursor.track(point(slot, 7));
    }
    cursor.track(point(27, 8));
    let points = cursor.to_points();
    assert_eq!(points[0], point(27, 8));
    assert_eq!(cursor.latest_known_point(), Some(point(27, 8)));
    assert!(points.iter().all(|p| p.slot_or_default() <= 27));
    assert_eq!(points, vec![point(27, 8), point(9, 7), point(3, 7)]);
}

#[test]
fn tracking_the_same_slot_replaces_it() {
    let mut cursor = Breadcrumbs::new();
    cursor.track(point(5, 1));
    cursor.track(point(5, 2));
    assert_eq!(cursor.to_points(), vec![point(5, 2)]);
}

#[test]
fn tracking_the_origin_clears_the_cursor() {
    let mut cursor = Breadcrumbs::new();
    cursor.track(point(5, 1));
    cursor.track(Point::Origin);
    assert_eq!(cursor.to_points(), vec![Point::Origin]);
    assert_eq!(cursor.to_data(), vec![]);
}

#[test]
fn persisted_form_is_slot_and_lower_case_hex() {
    let mut cursor = Breadcrumbs::new();
    cursor.track(Point::Specific(1, vec![0x00, 0x0f, 0xa5]));
    cursor.track(Point::Specific(2, vec![0xde, 0xad, 0xbe, 0xef]));
    assert_eq!(
        cursor.to_data(),
        vec![(2, "deadbeef".to_string()), (1, "000fa5".to_string())]
    );
}

#[test]
fn persisted_form_reads_back() {
    let mut cursor = Breadcrumbs::new();
    for slot in 1..=7u64 {
        cursor.track(Point::Specific(slot, vec![slot as u8, 0xff, 0x10]));
    }
    let restored = Breadcrumbs::from_data(cursor.to_data()).unwrap();
    assert_eq!(restored.to_points(), cursor.to_points());
}

#[test]
fn from_data_accepts_either_case() {
    let cursor = Breadcrumbs::from_data(vec![(9, "DeadBEEF".to_string())]).unwrap();
    assert_eq!(
        cursor.to_points(),
        vec![Point::Specific(9, vec![0xde, 0xad, 0xbe, 0xef])]
    );
}

#[test]
fn from_data_refuses_bad_hex() {
    let odd = Breadcrumbs::from_data(vec![(1, "abc".to_string())]);
    assert!(matches!(odd, Err(LyraError::Config(_))));
    let letter = Breadcrumbs::from_data(vec![(1, "00".to_string()), (2, "zz".to_string())]);
    assert!(matches!(letter, Err(LyraError::Config(_))));
    let wide = Breadcrumbs::from_data(vec![(1, "\u{e9}".to_string())]);
    assert!(matches!(wide, Err(LyraError::Config(_))));
}

#[test]
fn from_points_keeps_the_order() {
    let cursor = Breadcrumbs::from_points(vec![point(9, 1), point(4, 2), Point::Origin]);
    assert!(!cursor.is_empty());
    assert_eq!(
        cursor.to_points(),
        vec![point(9, 1), point(4, 2), Point::Origin]
    );
    assert_eq!(cursor.latest_known_point(), Some(point(9, 1)));
    assert_eq!(cursor.clone().to_points(), cursor.to_points());
}

#[test]
fn point_slot_defaults_to_zero() {
    assert_eq!(Point::Origin.slot_or_default(), 0);
    assert_eq!(Point::new(77, vec![1]).slot_or_default(), 77);
    assert_eq!(Point::new(77, vec![1]), Point::Specific(77, vec![1]));
    assert_ne!(Point::new(77, vec![1]), Point::Specific(77, vec![2]));
    assert_ne!(Point::new(77, vec![1]), Point::Origin);
}

#[test]
fn tracking_the_front_again_changes_nothing() {
    let mut cursor = Breadcrumbs::new();
    for slot in 1..=22u64 {
        cursor.track(point(slot, slot as u8));
    }
    let before = cursor.to_points();
    cursor.track(point(22, 22));
    assert_eq!(cursor.to_points(), before);
    assert_eq!(before.len(), 20);
}
