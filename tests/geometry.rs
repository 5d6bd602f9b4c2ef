use strangeway::geometry::{place, plan_placements, FaceRegion, Placement, Scale, MICROS_PER_UNIT};
use strangeway::request::DEFAULT_SCALE_MICROS;

fn region(x: i32, y: i32, width: u32, height: u32) -> FaceRegion {
    FaceRegion { x, y, width, height }
}

#[test]
fn half_scale_face_at_hundred() {
    let p = place(&region(100, 100, 40, 40), Scale { micros: 500_000 }, false).unwrap();
    assert_eq!((p.width, p.height), (60, 60));
    assert_eq!((p.x, p.y), (90, 90));
    assert!(!p.second);
}

#[test]
fn default_scale_truncates_growth() {
    let scale = Scale { micros: DEFAULT_SCALE_MICROS };
    let p = place(&region(10, 20, 40, 30), scale, true).unwrap();
    // 40 * 0.55 = 22, 30 * 0.55 = 16.5 -> 16
    assert_eq!((p.width, p.height), (62, 46));
    assert_eq!((p.x, p.y), (-1, 12));
    assert!(p.second);
}

#[test]
fn footprint_never_smaller_than_region() {
    for micros in [0u64, 1, 333_333, 550_000, MICROS_PER_UNIT, 3_000_000] {
        for (w, h) in [(1u32, 1u32), (7, 13), (40, 40), (1000, 3)] {
            let p = place(&region(5, 5, w, h), Scale { micros }, false).unwrap();
            assert!(p.width >= w && p.height >= h);
            assert!(p.x <= 5 && p.y <= 5);
        }
    }
}

#[test]
fn zero_scale_keeps_region() {
    let p = place(&region(3, 4, 17, 9), Scale { micros: 0 }, false).unwrap();
    assert_eq!(p, Placement { second: false, x: 3, y: 4, width: 17, height: 9 });
}

#[test]
fn empty_region_is_not_drawn() {
    assert_eq!(place(&region(0, 0, 0, 10), Scale { micros: 500_000 }, false), None);
    assert_eq!(place(&region(0, 0, 10, 0), Scale { micros: 500_000 }, false), None);
}

#[test]
fn oversized_footprint_is_not_drawn() {
    let scale = Scale { micros: MICROS_PER_UNIT };
    assert_eq!(place(&region(0, 0, u32::MAX, 10), scale, false), None);
    assert_eq!(place(&region(0, 0, 10, u32::MAX / 2 + 1), scale, false), None);
    let p = place(&region(0, 0, 10, u32::MAX / 2), scale, false).unwrap();
    assert_eq!(p.height, u32::MAX - 1);
}

#[test]
fn negative_corner_is_kept() {
    let p = place(&region(-5, -7, 20, 20), Scale { micros: MICROS_PER_UNIT }, false).unwrap();
    assert_eq!((p.x, p.y, p.width, p.height), (-15, -17, 40, 40));
}

#[test]
fn one_placement_per_region_in_order() {
    let faces = vec![region(100, 100, 40, 40), region(0, 0, 10, 20), region(50, 60, 4, 4)];
    let picks = vec![true, false, true];
    let scale = Scale { micros: 500_000 };
    let ps = plan_placements(&faces, scale, &picks);
    assert_eq!(ps.len(), 3);
    for i in 0..3 {
        assert_eq!(ps[i], place(&faces[i], scale, picks[i]).unwrap());
    }
    assert_eq!(ps[0], Placement { second: true, x: 90, y: 90, width: 60, height: 60 });
}

#[test]
fn undrawable_regions_are_skipped() {
    let faces = vec![region(1, 1, 0, 5), region(10, 10, 8, 8)];
    let ps = plan_placements(&faces, Scale { micros: 250_000 }, &vec![true, false]);
    assert_eq!(ps, vec![Placement { second: false, x: 9, y: 9, width: 10, height: 10 }]);
}

#[test]
fn no_regions_no_placements() {
    let ps = plan_placements(&vec![], Scale { micros: DEFAULT_SCALE_MICROS }, &vec![]);
    assert!(ps.is_empty());
}
