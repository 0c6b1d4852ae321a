use angler::components::{Land, Ocean};
use angler::zones::{check_zones, in_any_land, in_any_ocean, in_range, overlap, ZoneCrossing, ZoneDetector};

#[test]
fn a_zone_is_an_open_interval() {
    assert!(in_range(0, 0, 1));
    assert!(!in_range(0, 0, 0));
    assert!(in_range(49, 0, 50));
    assert!(in_range(-49, 0, 50));
    assert!(!in_range(50, 0, 50));
    assert!(!in_range(-50, 0, 50));
    assert!(in_range(1_049, 1_000, 50));
    assert!(!in_range(950, 1_000, 50));
}

#[test]
fn a_zone_can_span_all_coordinates() {
    assert!(!in_range(i64::MIN, i64::MAX, u64::MAX));
    assert!(in_range(i64::MIN + 1, i64::MAX, u64::MAX));
    assert!(!in_range(i64::MIN + 1, i64::MAX, u64::MAX - 1));
    assert!(in_range(i64::MAX, 0, u64::MAX));
    assert!(in_range(i64::MIN, 0, 1 << 63 | 1));
    assert!(!in_range(i64::MIN, 0, 1 << 63));
}

#[test]
fn zones_are_made_from_their_width() {
    assert_eq!(Ocean::new(5, 100), Ocean { x: 5, half_width: 50 });
    assert_eq!(Land::new(-5, 101), Land { x: -5, half_width: 50 });
    assert!(Ocean::new(5, 100).contains(54));
    assert!(!Ocean::new(5, 100).contains(55));
    assert!(Land::new(-5, 100).contains(-54));
    assert!(!Land::new(-5, 100).contains(-55));
}

#[test]
fn any_zone_of_the_list_counts() {
    let oceans = vec![Ocean { x: 0, half_width: 10 }, Ocean { x: 100, half_width: 10 }];
    assert!(in_any_ocean(5, &oceans));
    assert!(in_any_ocean(95, &oceans));
    assert!(!in_any_ocean(50, &oceans));
    assert!(!in_any_ocean(5, &vec![]));
    let lands = vec![Land { x: 0, half_width: 10 }, Land { x: 100, half_width: 10 }];
    assert!(in_any_land(-9, &lands));
    assert!(in_any_land(109, &lands));
    assert!(!in_any_land(110, &lands));
    assert!(!in_any_land(0, &vec![]));
}

#[test]
fn the_detector_reports_entries_only() {
    let oceans = vec![Ocean { x: 100, half_width: 50 }];
    let lands = vec![Land { x: 0, half_width: 50 }];
    let mut detector = ZoneDetector::new();
    assert_eq!(detector, ZoneDetector { in_ocean: false, in_land: false });
    let nothing = ZoneCrossing { entered_ocean: false, entered_land: false };

    assert_eq!(detector.observe(0, &oceans, &lands), ZoneCrossing { entered_ocean: false, entered_land: true });
    assert_eq!(detector.observe(10, &oceans, &lands), nothing);
    assert_eq!(detector.observe(50, &oceans, &lands), nothing);
    assert_eq!(detector, ZoneDetector { in_ocean: false, in_land: false });
    assert_eq!(detector.observe(51, &oceans, &lands), ZoneCrossing { entered_ocean: true, entered_land: false });
    assert_eq!(detector.observe(149, &oceans, &lands), nothing);
    assert_eq!(detector.observe(150, &oceans, &lands), nothing);
    assert_eq!(detector.observe(149, &oceans, &lands), ZoneCrossing { entered_ocean: true, entered_land: false });
    assert_eq!(detector.observe(0, &oceans, &lands), ZoneCrossing { entered_ocean: false, entered_land: true });
    assert_eq!(detector, ZoneDetector { in_ocean: false, in_land: true });
}

#[test]
fn zones_that_touch_do_not_overlap() {
    let land = Land { x: 0, half_width: 50 };
    assert!(!overlap(&land, &Ocean { x: 100, half_width: 50 }));
    assert!(!overlap(&land, &Ocean { x: 99, half_width: 50 }));
    assert!(overlap(&land, &Ocean { x: 98, half_width: 50 }));
    assert!(overlap(&land, &Ocean { x: 0, half_width: 1 }));
    assert!(!overlap(&land, &Ocean { x: 0, half_width: 0 }));
    assert!(!overlap(&Land { x: 0, half_width: 0 }, &Ocean { x: 0, half_width: 50 }));
    assert!(overlap(&land, &Ocean { x: -1_000, half_width: 952 }));
    assert!(!overlap(&land, &Ocean { x: -1_000, half_width: 951 }));
    assert!(overlap(
        &Land { x: i64::MIN, half_width: u64::MAX },
        &Ocean { x: i64::MAX, half_width: u64::MAX }
    ));
}

#[test]
fn every_land_is_held_against_every_ocean() {
    let lands = vec![Land { x: 0, half_width: 50 }, Land { x: 1_000, half_width: 50 }];
    let apart = vec![Ocean { x: 500, half_width: 400 }, Ocean { x: -500, half_width: 400 }];
    assert!(check_zones(&lands, &apart));
    let last_pair = vec![Ocean { x: 500, half_width: 400 }, Ocean { x: 1_049, half_width: 2 }];
    assert!(!check_zones(&lands, &last_pair));
    assert!(check_zones(&vec![], &apart));
    assert!(check_zones(&lands, &vec![]));
}
