//! Portals and the controller that aims and places them.
//!
//! Portal poses are single-precision world coordinates; this module carries
//! them as their 32-bit bit patterns, which is also how they travel in the
//! state packet.  A portal is closed exactly when it sits at the sentinel
//! coordinate (-100.0, -100.0), i.e. when both coordinate bit patterns are
//! [`CLOSED_COORD_BITS`].

use vstd::prelude::*;

verus! {

/// Bit pattern of the single-precision value -100.0, the sentinel
/// coordinate of a closed portal.
pub const CLOSED_COORD_BITS: u32 = 0xC2C8_0000;

/// Bit pattern of the single-precision value 0.0, the rotation a portal
/// carries while closed.
pub const ZERO_ROTATION_BITS: u32 = 0;

/// A positionable, open/closed portal.  `x`, `y` and `rotation` hold the
/// bit patterns of the single-precision pose; `rotation` is in degrees.
#[derive(Copy, Clone, PartialEq, Eq, Structural, Debug)]
pub struct Portal {
    pub color_num: i32,
    pub x: u32,
    pub y: u32,
    pub rotation: u32,
}

impl Portal {
    /// A portal is closed exactly when it sits at the sentinel coordinate.
    pub open spec fn is_closed(self) -> bool {
        self.x == CLOSED_COORD_BITS && self.y == CLOSED_COORD_BITS
    }

    /// A closed portal carries zero rotation.  Creation and closing
    /// establish this; opening preserves it for every pose away from the
    /// sentinel coordinate.
    pub open spec fn wf(self) -> bool {
        self.is_closed() ==> self.rotation == ZERO_ROTATION_BITS
    }

    /// Creates a portal in the closed state: sentinel coordinate, zero
    /// rotation.
    pub fn new(color_num: i32) -> (r: Portal)
        ensures
            r.color_num == color_num,
            r.is_closed(),
            r.rotation == ZERO_ROTATION_BITS,
            r.wf(),
    {
        Portal { color_num, x: CLOSED_COORD_BITS, y: CLOSED_COORD_BITS, rotation: 0 }
    }

    pub fn color(&self) -> (r: i32)
        ensures
            r == self.color_num,
    {
        self.color_num
    }

    pub fn x(&self) -> (r: u32)
        ensures
            r == self.x,
    {
        self.x
    }

    pub fn y(&self) -> (r: u32)
        ensures
            r == self.y,
    {
        self.y
    }

    pub fn rotation(&self) -> (r: u32)
        ensures
            r == self.rotation,
    {
        self.rotation
    }

    pub fn set_x(&mut self, x: u32)
        ensures
            *final(self) == (Portal { x, ..*old(self) }),
    {
        self.x = x;
    }

    pub fn set_y(&mut self, y: u32)
        ensures
            *final(self) == (Portal { y, ..*old(self) }),
    {
        self.y = y;
    }

    pub fn set_rotation(&mut self, rotation: u32)
        ensures
            *final(self) == (Portal { rotation, ..*old(self) }),
    {
        self.rotation = rotation;
    }

    /// Opens the portal at the given pose (coordinate and rotation bit
    /// patterns).
    pub fn open(&mut self, new_x: u32, new_y: u32, new_rot: u32)
        ensures
            *final(self) == (Portal {
                color_num: old(self).color_num,
                x: new_x,
                y: new_y,
                rotation: new_rot,
            }),
    {
        self.x = new_x;
        self.y = new_y;
        self.rotation = new_rot;
    }

    /// Closes the portal: moves it to the sentinel coordinate and resets
    /// the rotation.
    pub fn close(&mut self)
        ensures
            final(self).color_num == old(self).color_num,
            final(self).is_closed(),
            final(self).rotation == ZERO_ROTATION_BITS,
            final(self).wf(),
    {
        self.x = CLOSED_COORD_BITS;
        self.y = CLOSED_COORD_BITS;
        self.rotation = 0;
    }
}

/// A point where a ray left the world rectangle, in whole world
/// coordinates.
#[derive(Copy, Clone, PartialEq, Eq, Structural, Debug)]
pub struct Point {
    pub x: i32,
    pub y: i32,
}

impl Point {
    pub fn new(x: i32, y: i32) -> (r: Point)
        ensures
            r == (Point { x, y }),
    {
        Point { x, y }
    }
}

/// The rotation a freshly opened portal receives, derived from the two ray
/// hit points: upright when they share an x coordinate, sideways when they
/// share a y coordinate, and otherwise a slope given as the truncating
/// integer quotient of the coordinate differences (the aim code turns the
/// quotient into degrees).
#[derive(Copy, Clone, PartialEq, Eq, Structural, Debug)]
pub enum RotationCase {
    Zero,
    Ninety,
    Slope(i64),
}

/// Integer division truncating toward zero, as the `/` operator of the
/// executable code computes it on signed operands.
pub open spec fn trunc_div(a: int, b: int) -> int
    recommends
        b != 0,
{
    let q = (vstd::math::abs(a) / vstd::math::abs(b)) as int;
    if (a < 0) == (b < 0) {
        q
    } else {
        -q
    }
}

/// The rotation case selected by the two hit points `pp` (placement) and
/// `rp` (reference): zero degrees when the x coordinates agree, ninety when
/// only the y coordinates agree, otherwise the slope quotient
/// `(rp.y - pp.y) / (rp.x - pp.x)`, truncated toward zero.
pub open spec fn rotation_case_of(pp: Point, rp: Point) -> RotationCase {
    if rp.x == pp.x {
        RotationCase::Zero
    } else if rp.y == pp.y {
        RotationCase::Ninety
    } else {
        RotationCase::Slope(trunc_div(rp.y - pp.y, rp.x - pp.x) as i64)
    }
}

/// Selects the rotation case for a freshly opened portal from the placement
/// hit point and the reference hit point.
pub fn portal_rotation_case(pp: Point, rp: Point) -> (r: RotationCase)
    ensures
        r == rotation_case_of(pp, rp),
{
    if rp.x == pp.x {
        RotationCase::Zero
    } else if rp.y == pp.y {
        RotationCase::Ninety
    } else {
        let dy: i64 = rp.y as i64 - pp.y as i64;
        let dx: i64 = rp.x as i64 - pp.x as i64;
        let mag_y: u64 = if dy < 0 {
            (-dy) as u64
        } else {
            dy as u64
        };
        let mag_x: u64 = if dx < 0 {
            (-dx) as u64
        } else {
            dx as u64
        };
        proof {
            assert(mag_y == vstd::math::abs(rp.y - pp.y));
            assert(mag_x == vstd::math::abs(rp.x - pp.x));
            assert(mag_y / mag_x <= mag_y) by (nonlinear_arith)
                requires
                    mag_x >= 1,
            ;
        }
        let q: u64 = mag_y / mag_x;
        let q_signed: i64 = if (dy < 0) != (dx < 0) {
            -(q as i64)
        } else {
            q as i64
        };
        RotationCase::Slope(q_signed)
    }
}

/// The full state of a portal controller, as the contracts speak of it.
#[verifier::ext_equal]
pub struct ControllerState {
    pub wand_x: i32,
    pub wand_y: i32,
    pub wand_rotation: u32,
    pub portals: Seq<Portal>,
    pub should_rotate: bool,
    pub last_portal_used: i8,
    pub last_portal_time: u64,
}

/// Owns the two portals, aims toward a target, and opens a portal subject
/// to a cooldown.  The aim rotation is carried as the bit pattern of the
/// single-precision angle in degrees; timestamps are milliseconds supplied
/// by the caller, so that every decision of the controller is a function of
/// its state and its arguments.
pub struct PortalController {
    pub wand_x: i32,
    pub wand_y: i32,
    pub wand_rotation: u32,
    pub portals: Vec<Portal>,
    pub should_rotate: bool,
    pub last_portal_used: i8,
    pub last_portal_time: u64,
}

impl View for PortalController {
    type V = ControllerState;

    open spec fn view(&self) -> ControllerState {
        ControllerState {
            wand_x: self.wand_x,
            wand_y: self.wand_y,
            wand_rotation: self.wand_rotation,
            portals: self.portals@,
            should_rotate: self.should_rotate,
            last_portal_used: self.last_portal_used,
            last_portal_time: self.last_portal_time,
        }
    }
}

/// A portal may be opened only while rotation is enabled and strictly more
/// than 100ms after the previous open attempt consumed the cooldown.
pub open spec fn open_eligible(c: ControllerState, now_ms: u64) -> bool {
    c.should_rotate && c.last_portal_time + 100 < now_ms
}

/// The pose a portal takes when it opens: the given coordinate and rotation
/// bit patterns; the color is kept.
pub open spec fn opened_pose(p: Portal, x: u32, y: u32, rot: u32) -> Portal {
    Portal { color_num: p.color_num, x, y, rotation: rot }
}

/// The state transition of an open attempt.  An ineligible attempt changes
/// nothing.  An eligible one always consumes the cooldown and records the
/// index — even when the rays produced no pose — and places the portal at
/// the pose when there is one.
pub open spec fn apply_open(
    c: ControllerState,
    index: int,
    now_ms: u64,
    pose: Option<(u32, u32, u32)>,
) -> ControllerState
    recommends
        0 <= index < c.portals.len(),
{
    if open_eligible(c, now_ms) {
        let portals = match pose {
            Some((x, y, rot)) => c.portals.update(index, opened_pose(c.portals[index], x, y, rot)),
            None => c.portals,
        };
        ControllerState {
            portals,
            last_portal_used: index as i8,
            last_portal_time: now_ms,
            ..c
        }
    } else {
        c
    }
}

impl PortalController {
    /// Creates a controller with the given anchor offset and portals,
    /// aiming at zero degrees, rotation enabled, with the cooldown
    /// reference set to the given time.
    pub fn new(x: i32, y: i32, portals: Vec<Portal>, now_ms: u64) -> (r: PortalController)
        ensures
            r@ == (ControllerState {
                wand_x: x,
                wand_y: y,
                wand_rotation: 0,
                portals: portals@,
                should_rotate: true,
                last_portal_used: 0,
                last_portal_time: now_ms,
            }),
    {
        PortalController {
            wand_x: x,
            wand_y: y,
            wand_rotation: 0,
            portals,
            should_rotate: true,
            last_portal_used: 0,
            last_portal_time: now_ms,
        }
    }

    pub fn wand_x(&self) -> (r: i32)
        ensures
            r == self.wand_x,
    {
        self.wand_x
    }

    pub fn wand_y(&self) -> (r: i32)
        ensures
            r == self.wand_y,
    {
        self.wand_y
    }

    pub fn last_portal(&self) -> (r: i8)
        ensures
            r == self.last_portal_used,
    {
        self.last_portal_used
    }

    /// Disables rotation: the aim freezes at its last value and no further
    /// opens succeed.
    pub fn freeze(&mut self)
        ensures
            final(self)@ == (ControllerState { should_rotate: false, ..old(self)@ }),
    {
        self.should_rotate = false;
    }

    /// Stores the aim angle of the next frame.  The caller computes the
    /// candidate angle (in degrees, as its bit pattern) from the anchor
    /// point and the target; while rotation is enabled the candidate is
    /// adopted, otherwise the last angle persists.  Returns the angle now
    /// in effect.
    pub fn next_rotation(&mut self, candidate: u32) -> (r: u32)
        ensures
            final(self)@ == if old(self)@.should_rotate {
                ControllerState { wand_rotation: candidate, ..old(self)@ }
            } else {
                old(self)@
            },
            r == final(self).wand_rotation,
    {
        if self.should_rotate {
            self.wand_rotation = candidate;
        }
        self.wand_rotation
    }

    /// An open attempt at the given time with the pose the two rays
    /// produced (if they did).  Follows [`apply_open`]: ineligible attempts
    /// change nothing; eligible ones consume the cooldown and record the
    /// index even on a miss, and open the portal at `index` on a hit.
    pub fn open_portal(&mut self, index: usize, now_ms: u64, pose: Option<(u32, u32, u32)>)
        requires
            index < old(self)@.portals.len(),
        ensures
            final(self)@ == apply_open(old(self)@, index as int, now_ms, pose),
    {
        if self.should_rotate && now_ms > 100 && self.last_portal_time < now_ms - 100 {
            match pose {
                Some((x, y, rot)) => {
                    self.portals[index].open(x, y, rot);
                },
                None => {},
            }
            self.last_portal_used = #[verifier::truncate] (index as i8);
            self.last_portal_time = now_ms;
        }
        proof {
            assert(self@ =~= apply_open(old(self)@, index as int, now_ms, pose));
        }
    }
}

/// Cooldown law: after an eligible open attempt at `now1`, any open attempt
/// less than 100ms later changes nothing — whatever its index and whether
/// or not its rays hit.
pub proof fn lemma_cooldown(
    c: ControllerState,
    index1: int,
    now1: u64,
    pose1: Option<(u32, u32, u32)>,
    index2: int,
    now2: u64,
    pose2: Option<(u32, u32, u32)>,
)
    requires
        0 <= index1 < c.portals.len(),
        open_eligible(c, now1),
        now2 < now1 + 100,
    ensures
        ({
            let c1 = apply_open(c, index1, now1, pose1);
            apply_open(c1, index2, now2, pose2) == c1
        }),
{
    let c1 = apply_open(c, index1, now1, pose1);
    assert(c1.last_portal_time == now1);
    assert(!open_eligible(c1, now2));
}

/// Index law: as long as open attempts name a portal the controller owns,
/// the recorded last-used index stays a valid index of the portal
/// collection (for the usual two-portal controller: 0 or 1).
pub proof fn lemma_last_portal_in_range(
    c: ControllerState,
    index: int,
    now_ms: u64,
    pose: Option<(u32, u32, u32)>,
)
    requires
        0 <= c.last_portal_used < c.portals.len() <= i8::MAX,
        0 <= index < c.portals.len(),
    ensures
        ({
            let c1 = apply_open(c, index, now_ms, pose);
            0 <= c1.last_portal_used < c1.portals.len()
        }),
{
}

/// Elapsed-cooldown law: once strictly more than 100ms have passed since an
/// eligible open attempt, and rotation is still enabled, a second attempt
/// is eligible again.
pub proof fn lemma_cooldown_elapsed(
    c: ControllerState,
    index1: int,
    now1: u64,
    pose1: Option<(u32, u32, u32)>,
    now2: u64,
)
    requires
        0 <= index1 < c.portals.len(),
        open_eligible(c, now1),
        now1 + 100 < now2,
    ensures
        open_eligible(apply_open(c, index1, now1, pose1), now2),
{
}

} // verus!
