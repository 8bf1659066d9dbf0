//! World-space geometry: fixed-point vectors, axis-aligned hitboxes, and the
//! collision resolver with its minimum-translation-vector tie-breaking.

use vstd::prelude::*;

verus! {

/// Coordinates, velocities and extents stay within this magnitude so that the
/// products taken while resolving collisions and interpolating positions fit
/// in an `i64`.
pub const COORD_LIMIT: i64 = 1_000_000_000_000;

/// The collision resolver accepts positions a little beyond `COORD_LIMIT`:
/// resolving a long row of colliders may push a position outward step by
/// step, and each step stays exact as long as it remains within this bound.
pub const RESOLVE_LIMIT: i64 = 4_000_000_000_000;

/// A 2D world vector with a draw-order layer, in thousandths of a world unit.
/// The `z` component orders sprites for rendering and plays no part in
/// collision or motion.
#[derive(Clone, Copy, Debug, PartialEq, Eq, Structural)]
pub struct WorldVec {
    pub x: i64,
    pub y: i64,
    pub z: i64,
}

impl WorldVec {
    /// All three components within the range that keeps arithmetic exact.
    pub open spec fn in_range(self) -> bool {
        &&& -COORD_LIMIT <= self.x <= COORD_LIMIT
        &&& -COORD_LIMIT <= self.y <= COORD_LIMIT
        &&& -COORD_LIMIT <= self.z <= COORD_LIMIT
    }

    /// The looser bound accepted by the collision resolver.
    pub open spec fn in_resolve_range(self) -> bool {
        &&& -RESOLVE_LIMIT <= self.x <= RESOLVE_LIMIT
        &&& -RESOLVE_LIMIT <= self.y <= RESOLVE_LIMIT
        &&& -RESOLVE_LIMIT <= self.z <= RESOLVE_LIMIT
    }

}

/// A width and height in thousandths of a world unit.
#[derive(Clone, Copy, Debug, PartialEq, Eq, Structural)]
pub struct Size2 {
    pub x: i64,
    pub y: i64,
}

impl Size2 {
    pub open spec fn wf(self) -> bool {
        &&& 0 <= self.x <= COORD_LIMIT
        &&& 0 <= self.y <= COORD_LIMIT
    }
}

/// An axis-aligned box attached to an entity: an offset from the entity's
/// transform plus a full width and height. Purely data; collision testing is
/// the only behavior.
#[derive(Clone, Copy, Debug, PartialEq, Eq, Structural)]
pub struct Hitbox {
    pub relative_position: WorldVec,
    pub size: Size2,
}

impl Hitbox {
    pub open spec fn wf(self) -> bool {
        &&& self.relative_position.in_range()
        &&& self.size.wf()
    }

    /// Center of the box on the x axis when the owning entity stands at `pos`.
    pub open spec fn center_x(self, pos: WorldVec) -> int {
        pos.x + self.relative_position.x
    }

    /// Center of the box on the y axis when the owning entity stands at `pos`.
    pub open spec fn center_y(self, pos: WorldVec) -> int {
        pos.y + self.relative_position.y
    }
}

/// The side of the first box through which it penetrates the second box:
/// `Bottom` means the first box stands above the second and its underside
/// overlaps it, so resolving pushes the first box upward.
#[derive(Clone, Copy, Debug, PartialEq, Eq, Structural)]
pub enum CollisionType {
    Top,
    Bottom,
    Left,
    Right,
}

/// The outcome of an overlap test: the penetrated side of the first box and
/// the translation along that axis that exactly separates the boxes.
#[derive(Clone, Copy, Debug, PartialEq, Eq, Structural)]
pub struct Collision {
    pub collision_type: CollisionType,
    pub overlap: i64,
}

/// How deeply two boxes interpenetrate on the x axis; positive only when the
/// projections on that axis properly overlap.
pub open spec fn overlap_x(a: Hitbox, pa: WorldVec, b: Hitbox, pb: WorldVec) -> int {
    a.size.x / 2 + b.size.x / 2 - abs_int(a.center_x(pa) - b.center_x(pb))
}

/// How deeply two boxes interpenetrate on the y axis.
pub open spec fn overlap_y(a: Hitbox, pa: WorldVec, b: Hitbox, pb: WorldVec) -> int {
    a.size.y / 2 + b.size.y / 2 - abs_int(a.center_y(pa) - b.center_y(pb))
}

pub open spec fn abs_int(v: int) -> int {
    if v < 0 {
        -v
    } else {
        v
    }
}

/// What `Hitbox::collide` returns: no contact unless both axes properly
/// overlap; otherwise the axis of least penetration carries the collision,
/// with ties going to the vertical axis, and the side is picked by where the
/// first box's center sits relative to the second's (ties count as the first
/// box being above, respectively to the right).
pub open spec fn spec_collide(a: Hitbox, pa: WorldVec, b: Hitbox, pb: WorldVec) -> Option<
    Collision,
> {
    let ox = overlap_x(a, pa, b, pb);
    let oy = overlap_y(a, pa, b, pb);
    if ox <= 0 || oy <= 0 {
        None
    } else if oy <= ox {
        if a.center_y(pa) >= b.center_y(pb) {
            Some(Collision { collision_type: CollisionType::Bottom, overlap: oy as i64 })
        } else {
            Some(Collision { collision_type: CollisionType::Top, overlap: oy as i64 })
        }
    } else {
        if a.center_x(pa) >= b.center_x(pb) {
            Some(Collision { collision_type: CollisionType::Left, overlap: ox as i64 })
        } else {
            Some(Collision { collision_type: CollisionType::Right, overlap: ox as i64 })
        }
    }
}

impl Hitbox {
    /// Axis-aligned overlap test with directional classification. Computes the
    /// penetration depth on both axes; with no proper overlap on either axis
    /// there is no collision, and otherwise the axis of smaller penetration is
    /// reported together with the side of this box that penetrated the other.
    pub fn collide(&self, own_position: &WorldVec, other: &Hitbox, other_position: &WorldVec) -> (r:
        Option<Collision>)
        requires
            self.wf(),
            other.wf(),
            own_position.in_resolve_range(),
            other_position.in_resolve_range(),
        ensures
            r == spec_collide(*self, *own_position, *other, *other_position),
    {
        let cax: i64 = own_position.x + self.relative_position.x;
        let cay: i64 = own_position.y + self.relative_position.y;
        let cbx: i64 = other_position.x + other.relative_position.x;
        let cby: i64 = other_position.y + other.relative_position.y;
        let dx: i64 = if cax >= cbx {
            cax - cbx
        } else {
            cbx - cax
        };
        let dy: i64 = if cay >= cby {
            cay - cby
        } else {
            cby - cay
        };
        let ox: i64 = self.size.x / 2 + other.size.x / 2 - dx;
        let oy: i64 = self.size.y / 2 + other.size.y / 2 - dy;
        if ox <= 0 || oy <= 0 {
            None
        } else if oy <= ox {
            if cay >= cby {
                Some(Collision { collision_type: CollisionType::Bottom, overlap: oy })
            } else {
                Some(Collision { collision_type: CollisionType::Top, overlap: oy })
            }
        } else {
            if cax >= cbx {
                Some(Collision { collision_type: CollisionType::Left, overlap: ox })
            } else {
                Some(Collision { collision_type: CollisionType::Right, overlap: ox })
            }
        }
    }
}

/// When the boxes interpenetrate least on the vertical axis, the collision is
/// classified vertically — `Top` or `Bottom`, never `Left` or `Right` — and
/// carries exactly the vertical penetration depth; moving the first box up or
/// down by that amount brings the vertical overlap to zero, so the reported
/// amount exactly closes the penetration.
pub proof fn lemma_vertical_collision_resolves(a: Hitbox, pa: WorldVec, b: Hitbox, pb: WorldVec)
    requires
        0 < overlap_y(a, pa, b, pb) <= overlap_x(a, pa, b, pb),
    ensures
        spec_collide(a, pa, b, pb) is Some,
        spec_collide(a, pa, b, pb)->Some_0.collision_type == CollisionType::Bottom
            || spec_collide(a, pa, b, pb)->Some_0.collision_type == CollisionType::Top,
        spec_collide(a, pa, b, pb)->Some_0.overlap == overlap_y(a, pa, b, pb),
        spec_collide(a, pa, b, pb)->Some_0.collision_type == CollisionType::Bottom ==> forall|
            pa2: WorldVec,
        |
            pa2.x == pa.x && pa2.y == pa.y + spec_collide(a, pa, b, pb)->Some_0.overlap
                ==> #[trigger] overlap_y(a, pa2, b, pb) == 0,
        spec_collide(a, pa, b, pb)->Some_0.collision_type == CollisionType::Top ==> forall|
            pa2: WorldVec,
        |
            pa2.x == pa.x && pa2.y == pa.y - spec_collide(a, pa, b, pb)->Some_0.overlap
                ==> #[trigger] overlap_y(a, pa2, b, pb) == 0,
{
}

} // verus!
