use portal_sync::portal::{
    portal_rotation_case, Point, Portal, PortalController, RotationCase, CLOSED_COORD_BITS,
};

/// The aim angle in degrees, as the wand computes it: a two-quadrant
/// arctangent of the slope from the anchor to the target.
fn aim_degrees(anchor_x: f32, anchor_y: f32, target_x: f32, target_y: f32) -> f32 {
    if target_x > anchor_x {
        ((target_y - anchor_y) / (target_x - anchor_x)).atan() * 57.29
    } else {
        180.0 + ((target_y - anchor_y) / (target_x - anchor_x)).atan() * 57.29
    }
}

#[test]
fn new_portal_is_closed_at_sentinel() {
    let p = Portal::new(3);
    assert_eq!(p.color(), 3);
    assert_eq!(f32::from_bits(p.x()), -100.0);
    assert_eq!(f32::from_bits(p.y()), -100.0);
    assert_eq!(f32::from_bits(p.rotation()), 0.0);
    assert_eq!(CLOSED_COORD_BITS, (-100.0f32).to_bits());
}

#[test]
fn open_then_close_restores_sentinel() {
    let mut p = Portal::new(0);
    p.open(12.5f32.to_bits(), 640.0f32.to_bits(), 90.0f32.to_bits());
    assert_eq!(f32::from_bits(p.x()), 12.5);
    assert_eq!(f32::from_bits(p.y()), 640.0);
    assert_eq!(f32::from_bits(p.rotation()), 90.0);
    p.close();
    assert_eq!(f32::from_bits(p.x()), -100.0);
    assert_eq!(f32::from_bits(p.y()), -100.0);
    assert_eq!(f32::from_bits(p.rotation()), 0.0);
}

#[test]
fn setters_store_bit_patterns() {
    let mut p = Portal::new(0);
    p.set_x(1.5f32.to_bits());
    p.set_y(2.5f32.to_bits());
    p.set_rotation(33.0f32.to_bits());
    assert_eq!(f32::from_bits(p.x()), 1.5);
    assert_eq!(f32::from_bits(p.y()), 2.5);
    assert_eq!(f32::from_bits(p.rotation()), 33.0);
}

fn fresh_controller(now_ms: u64) -> PortalController {
    PortalController::new(10, -6, vec![Portal::new(0), Portal::new(1)], now_ms)
}

#[test]
fn cooldown_blocks_second_open() {
    let mut c = fresh_controller(0);
    let pose1 = Some((1.0f32.to_bits(), 2.0f32.to_bits(), 0.0f32.to_bits()));
    let pose2 = Some((3.0f32.to_bits(), 4.0f32.to_bits(), 90.0f32.to_bits()));

    c.open_portal(0, 150, pose1);
    assert_eq!(f32::from_bits(c.portals[0].x()), 1.0);
    assert_eq!(c.last_portal(), 0);

    // 99ms later: under the cooldown, nothing changes, not even the index.
    c.open_portal(1, 249, pose2);
    assert_eq!(f32::from_bits(c.portals[0].x()), 1.0);
    assert_eq!(f32::from_bits(c.portals[1].x()), -100.0);
    assert_eq!(c.last_portal(), 0);

    // More than 100ms later: the open succeeds.
    c.open_portal(1, 251, pose2);
    assert_eq!(f32::from_bits(c.portals[1].x()), 3.0);
    assert_eq!(c.last_portal(), 1);
}

#[test]
fn cooldown_boundary_is_strict() {
    let mut c = fresh_controller(0);
    let pose = Some((1.0f32.to_bits(), 2.0f32.to_bits(), 0.0f32.to_bits()));
    // Exactly 100ms since the reference time: still blocked.
    c.open_portal(0, 100, pose);
    assert_eq!(f32::from_bits(c.portals[0].x()), -100.0);
    // Strictly more than 100ms: allowed.
    c.open_portal(0, 101, pose);
    assert_eq!(f32::from_bits(c.portals[0].x()), 1.0);
}

#[test]
fn missed_rays_still_consume_cooldown() {
    let mut c = fresh_controller(0);
    c.open_portal(1, 150, None);
    // The portal stays closed, but the index and timestamp were recorded.
    assert_eq!(f32::from_bits(c.portals[1].x()), -100.0);
    assert_eq!(c.last_portal(), 1);
    // A hit right after the miss is blocked by the consumed cooldown.
    c.open_portal(1, 200, Some((5.0f32.to_bits(), 6.0f32.to_bits(), 0)));
    assert_eq!(f32::from_bits(c.portals[1].x()), -100.0);
}

#[test]
fn frozen_controller_opens_nothing() {
    let mut c = fresh_controller(0);
    c.freeze();
    c.open_portal(0, 500, Some((1.0f32.to_bits(), 2.0f32.to_bits(), 0)));
    assert_eq!(f32::from_bits(c.portals[0].x()), -100.0);
    assert_eq!(c.last_portal(), 0);
}

#[test]
fn next_rotation_adopts_candidate_until_frozen() {
    let mut c = fresh_controller(0);
    let first = aim_degrees(0.0, 0.0, 10.0, 10.0);
    let r = c.next_rotation(first.to_bits());
    assert_eq!(f32::from_bits(r), first);
    c.freeze();
    let r = c.next_rotation(aim_degrees(0.0, 0.0, -10.0, 10.0).to_bits());
    assert_eq!(f32::from_bits(r), first); // frozen: the last angle persists
}

#[test]
fn quadrant_switch_left_vs_right() {
    // A target directly to the left of the anchor aims 180 degrees away
    // from the same target reflected to the right.
    let (ax, ay) = (610.0f32, 300.0f32);
    for d in [1.0f32, 5.0, 123.25] {
        let right = aim_degrees(ax, ay, ax + d, ay);
        let left = aim_degrees(ax, ay, ax - d, ay);
        assert_eq!(right, 0.0);
        assert_eq!(left, 180.0);
        assert_eq!(left - right, 180.0);
    }
}

#[test]
fn rotation_case_zero_when_x_agrees() {
    let pp = Point::new(5, 5);
    let rp = Point::new(5, 9);
    assert_eq!(portal_rotation_case(pp, rp), RotationCase::Zero);
}

#[test]
fn rotation_case_ninety_when_y_agrees() {
    let pp = Point::new(5, 5);
    let rp = Point::new(9, 5);
    assert_eq!(portal_rotation_case(pp, rp), RotationCase::Ninety);
}

#[test]
fn rotation_case_slope_truncates_toward_zero() {
    assert_eq!(
        portal_rotation_case(Point::new(0, 0), Point::new(10, 25)),
        RotationCase::Slope(2)
    );
    // Same quotient the executable `/` operator computes on i32.
    assert_eq!(
        portal_rotation_case(Point::new(0, 0), Point::new(-10, 25)),
        RotationCase::Slope(25 / -10)
    );
    assert_eq!(
        portal_rotation_case(Point::new(0, 0), Point::new(-10, -25)),
        RotationCase::Slope(2)
    );
    assert_eq!(
        portal_rotation_case(Point::new(3, 4), Point::new(4, 3)),
        RotationCase::Slope(-1)
    );
}

#[test]
fn rotation_case_extreme_coordinates() {
    // The widest possible coordinate differences still divide exactly.
    assert_eq!(
        portal_rotation_case(Point::new(i32::MAX, i32::MIN), Point::new(i32::MIN, i32::MAX)),
        RotationCase::Slope(-1)
    );
    assert_eq!(
        portal_rotation_case(Point::new(1, i32::MIN), Point::new(0, i32::MAX)),
        RotationCase::Slope(-(i32::MAX as i64 - i32::MIN as i64))
    );
}
