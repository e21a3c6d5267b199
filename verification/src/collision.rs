//! The collision detection pipeline: static terrain boxes against one
//! dynamic, velocity-carrying box.
//!
//! The world registers one axis-aligned box per terrain block and a single
//! dynamic collider for the player.  Its one query asks which static boxes
//! the dynamic box overlaps now, or would overlap after moving with its
//! velocity for one more tick.  Detection only: no push-out, landing or
//! blocking policy is decided here.

use vstd::prelude::*;

use crate::block::Aabb;

verus! {

/// Per-collider bookkeeping: what the collider stands for, and its
/// velocity in velocity steps, if it moves at all.  Static terrain
/// carries no velocity.
pub struct CollisionObjectData<T> {
    pub entity_type: T,
    pub velocity: Option<(i64, i64)>,
}

impl<T> CollisionObjectData<T> {
    pub fn new(entity_type: T, velocity: Option<(i64, i64)>) -> (r: CollisionObjectData<T>)
        ensures
            r.entity_type == entity_type,
            r.velocity == velocity,
    {
        let init_velocity: Option<(i64, i64)>;
        if let Some(velocity) = velocity {
            init_velocity = Some(velocity);
        } else {
            init_velocity = None;
        }
        CollisionObjectData {
            entity_type,
            velocity: init_velocity,
        }
    }
}

/// A product of two values in `i64` range stays far inside `i128` range.
proof fn lemma_i64_product_in_i128(a: int, b: int)
    by (nonlinear_arith)
    requires
        i64::MIN <= a <= i64::MAX,
        i64::MIN <= b <= i64::MAX,
    ensures
        a * b <= i64::MIN * i64::MIN,
        i64::MIN * i64::MAX <= a * b,
{
}

/// Whether two closed boxes overlap: on each axis the minimum of either
/// box does not pass the maximum of the other.  Touching edges count as
/// overlapping.
pub open spec fn aabb_overlaps(a: Aabb, b: Aabb) -> bool {
    &&& a.min_x <= b.min_x + b.size_x
    &&& b.min_x <= a.min_x + a.size_x
    &&& a.min_y <= b.min_y + b.size_y
    &&& b.min_y <= a.min_y + a.size_y
}

/// Whether box `a`, translated by `(dx, dy)`, overlaps box `b`.
pub open spec fn moved_overlaps(a: Aabb, dx: int, dy: int, b: Aabb) -> bool {
    &&& a.min_x + dx <= b.min_x + b.size_x
    &&& b.min_x <= a.min_x + dx + a.size_x
    &&& a.min_y + dy <= b.min_y + b.size_y
    &&& b.min_y <= a.min_y + dy + a.size_y
}

/// Whether the dynamic collider `d` overlaps the static box `b` now, or
/// will after moving with its velocity for `dt` more ticks.  A collider
/// without a velocity can only overlap where it stands.
pub open spec fn hits_within_tick(d: CollisionObjectData<Aabb>, b: Aabb, dt: int) -> bool {
    ||| aabb_overlaps(d.entity_type, b)
    ||| (match d.velocity {
        Some(v) => moved_overlaps(d.entity_type, v.0 * dt, v.1 * dt, b),
        None => false,
    })
}

/// The collision world: every registered static box, in registration
/// order, and the one dynamic collider once it is set.
pub struct Collision {
    pub statics: Vec<Aabb>,
    pub dynamic: Option<CollisionObjectData<Aabb>>,
}

impl Collision {
    /// Whether the static box at index `i` is hit within the next `dt`
    /// ticks by the dynamic collider.  False everywhere while no dynamic
    /// collider is set.
    pub open spec fn spec_hit(self, i: int, dt: int) -> bool {
        match self.dynamic {
            Some(d) => hits_within_tick(d, self.statics[i], dt),
            None => false,
        }
    }

    /// An empty world: no static boxes, no dynamic collider.
    pub fn new() -> (c: Collision)
        ensures
            c.statics@.len() == 0,
            c.dynamic is None,
    {
        Collision {
            statics: Vec::new(),
            dynamic: None,
        }
    }

    /// Register one non-moving terrain box; earlier registrations keep
    /// their order and indices.
    pub fn add_static(&mut self, bounds: Aabb)
        ensures
            final(self).statics@ == old(self).statics@.push(bounds),
            final(self).dynamic == old(self).dynamic,
    {
        self.statics.push(bounds);
    }

    /// Set (or replace) the dynamic collider: the player's current box and
    /// its velocity, if it moves.
    pub fn set_dynamic(&mut self, bounds: Aabb, velocity: Option<(i64, i64)>)
        ensures
            final(self).statics@ == old(self).statics@,
            final(self).dynamic matches Some(d) && d.entity_type == bounds && d.velocity
                == velocity,
    {
        self.dynamic = Some(CollisionObjectData::new(bounds, velocity));
    }

    /// Whether two boxes overlap, computed without overflow whatever the
    /// coordinates.
    fn boxes_overlap(a: &Aabb, b: &Aabb) -> (r: bool)
        ensures
            r == aabb_overlaps(*a, *b),
    {
        a.min_x as i128 <= b.min_x as i128 + b.size_x as i128
            && b.min_x as i128 <= a.min_x as i128 + a.size_x as i128
            && a.min_y as i128 <= b.min_y as i128 + b.size_y as i128
            && b.min_y as i128 <= a.min_y as i128 + a.size_y as i128
    }

    /// Whether box `a` moved by its velocity over `dt` ticks overlaps `b`,
    /// computed without overflow whatever the coordinates.
    fn moved_box_overlaps(a: &Aabb, vel: (i64, i64), dt: i64, b: &Aabb) -> (r: bool)
        ensures
            r == moved_overlaps(*a, vel.0 as int * dt as int, vel.1 as int * dt as int, *b),
    {
        proof {
            lemma_i64_product_in_i128(vel.0 as int, dt as int);
            lemma_i64_product_in_i128(vel.1 as int, dt as int);
        }
        let dx: i128 = vel.0 as i128 * dt as i128;
        let dy: i128 = vel.1 as i128 * dt as i128;
        a.min_x as i128 + dx <= b.min_x as i128 + b.size_x as i128
            && b.min_x as i128 <= a.min_x as i128 + dx + a.size_x as i128
            && a.min_y as i128 + dy <= b.min_y as i128 + b.size_y as i128
            && b.min_y as i128 <= a.min_y as i128 + dy + a.size_y as i128
    }

    /// The indices of every static box the dynamic collider overlaps now
    /// or will overlap within the next `dt` ticks, in increasing order.
    /// Empty while no dynamic collider is set.
    pub fn query(&self, dt: i64) -> (hits: Vec<usize>)
        requires
            0 <= dt,
        ensures
            forall|j: int| 0 <= j < hits@.len() ==> #[trigger] hits@[j] < self.statics@.len(),
            forall|j: int|
                0 <= j < hits@.len() ==> self.spec_hit(#[trigger] hits@[j] as int, dt as int),
            forall|i: int|
                0 <= i < self.statics@.len() && self.spec_hit(i, dt as int) ==> hits@.contains(
                    i as usize,
                ),
            forall|j1: int, j2: int|
                0 <= j1 < j2 < hits@.len() ==> #[trigger] hits@[j1] < #[trigger] hits@[j2],
    {
        let mut hits: Vec<usize> = Vec::new();
        let d = match &self.dynamic {
            Some(d) => d,
            None => {
                return hits;
            },
        };
        let mut i: usize = 0;
        while i < self.statics.len()
            invariant
                0 <= i <= self.statics@.len(),
                self.dynamic matches Some(dd) && dd == *d,
                forall|j: int| 0 <= j < hits@.len() ==> #[trigger] hits@[j] < i,
                forall|j: int|
                    0 <= j < hits@.len() ==> self.spec_hit(#[trigger] hits@[j] as int, dt as int),
                forall|k: int|
                    0 <= k < i && self.spec_hit(k, dt as int) ==> hits@.contains(k as usize),
                forall|j1: int, j2: int|
                    0 <= j1 < j2 < hits@.len() ==> #[trigger] hits@[j1] < #[trigger] hits@[j2],
            decreases self.statics@.len() - i,
        {
            let b = &self.statics[i];
            let mut hit = Self::boxes_overlap(&d.entity_type, b);
            if !hit {
                if let Some(v) = d.velocity {
                    hit = Self::moved_box_overlaps(&d.entity_type, v, dt, b);
                }
            }
            let ghost prior = hits@;
            if hit {
                hits.push(i);
            }
            proof {
                if hit {
                    assert(hits@ == prior.push(i));
                    assert(hits@.contains(i)) by {
                        assert(hits@[hits@.len() - 1] == i);
                    }
                    assert forall|k: int|
                        0 <= k < i + 1 && self.spec_hit(k, dt as int) implies hits@.contains(
                        k as usize,
                    ) by {
                        if k < i {
                            assert(prior.contains(k as usize));
                            let j = choose|j: int|
                                0 <= j < prior.len() && prior[j] == k as usize;
                            assert(hits@[j] == k as usize);
                        }
                    }
                } else {
                    assert(!self.spec_hit(i as int, dt as int));
                }
            }
            i = i + 1;
        }
        hits
    }
}

} // verus!
