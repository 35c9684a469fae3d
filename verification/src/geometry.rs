//! Vectors and axis-aligned bounding boxes, with their mathematical models.
//!
//! Executable values hold `i64` coordinates in sub-units. Contracts are
//! stated over models with unbounded integer coordinates, so that a rule can
//! be written down without regard to what an intermediate box can hold.

use vstd::prelude::*;
use crate::units::fits;

verus! {

/// A displacement, or the position of a point, in sub-units.
#[derive(Clone, Copy, Debug, PartialEq, Eq, Structural)]
pub struct Vector2 {
    pub x: i64,
    pub y: i64,
}

/// A position; it shares its representation with a displacement.
pub type Point2 = Vector2;

/// The mathematical model of a `Vector2`.
pub struct VectorModel {
    pub x: int,
    pub y: int,
}

/// An axis-aligned bounding box, given by its minimum and maximum corners.
#[derive(Clone, Copy, Debug, PartialEq, Eq, Structural)]
pub struct Aabb {
    pub mins: Point2,
    pub maxs: Point2,
}

/// The mathematical model of an `Aabb`.
pub struct BoxModel {
    pub mins: VectorModel,
    pub maxs: VectorModel,
}

impl VectorModel {
    /// Componentwise sum.
    pub open spec fn plus(self, other: VectorModel) -> VectorModel {
        VectorModel { x: self.x + other.x, y: self.y + other.y }
    }

    /// Componentwise difference.
    pub open spec fn minus(self, other: VectorModel) -> VectorModel {
        VectorModel { x: self.x - other.x, y: self.y - other.y }
    }

    /// Whether both components can be held in a coordinate.
    pub open spec fn representable(self) -> bool {
        fits(self.x) && fits(self.y)
    }
}

impl BoxModel {
    /// Neither axis is inverted: the minimum corner does not lie beyond the
    /// maximum corner.
    pub open spec fn is_valid(self) -> bool {
        self.mins.x <= self.maxs.x && self.mins.y <= self.maxs.y
    }

    /// Extent along the x axis.
    pub open spec fn width(self) -> int {
        self.maxs.x - self.mins.x
    }

    /// Extent along the y axis.
    pub open spec fn height(self) -> int {
        self.maxs.y - self.mins.y
    }

    /// Both extents, as a vector.
    pub open spec fn extents(self) -> VectorModel {
        self.maxs.minus(self.mins)
    }

    /// Whether all four coordinates can be held in an `Aabb`.
    pub open spec fn representable(self) -> bool {
        self.mins.representable() && self.maxs.representable()
    }

    /// The box shifted by `offset`.
    pub open spec fn translated(self, offset: VectorModel) -> BoxModel {
        BoxModel { mins: self.mins.plus(offset), maxs: self.maxs.plus(offset) }
    }

    /// The smallest box that covers both `self` and `lower`.
    pub open spec fn widened_to(self, lower: BoxModel) -> BoxModel {
        BoxModel {
            mins: VectorModel {
                x: if self.mins.x <= lower.mins.x { self.mins.x } else { lower.mins.x },
                y: if self.mins.y <= lower.mins.y { self.mins.y } else { lower.mins.y },
            },
            maxs: VectorModel {
                x: if self.maxs.x >= lower.maxs.x { self.maxs.x } else { lower.maxs.x },
                y: if self.maxs.y >= lower.maxs.y { self.maxs.y } else { lower.maxs.y },
            },
        }
    }

    /// The box with every edge that lies outside `upper` pulled back onto the
    /// corresponding edge of `upper`.
    pub open spec fn narrowed_to(self, upper: BoxModel) -> BoxModel {
        BoxModel {
            mins: VectorModel {
                x: if self.mins.x >= upper.mins.x { self.mins.x } else { upper.mins.x },
                y: if self.mins.y >= upper.mins.y { self.mins.y } else { upper.mins.y },
            },
            maxs: VectorModel {
                x: if self.maxs.x <= upper.maxs.x { self.maxs.x } else { upper.maxs.x },
                y: if self.maxs.y <= upper.maxs.y { self.maxs.y } else { upper.maxs.y },
            },
        }
    }

    /// The box constrained to be no smaller than `min_bound` and no larger
    /// than `max_bound`, where each is given. The lower bound is applied
    /// first; an edge that already satisfies a bound is left where it is.
    pub open spec fn clamped(self, min_bound: Option<BoxModel>, max_bound: Option<BoxModel>) -> BoxModel {
        let widened = match min_bound {
            Some(lower) => self.widened_to(lower),
            None => self,
        };
        match max_bound {
            Some(upper) => widened.narrowed_to(upper),
            None => widened,
        }
    }
}

impl View for Vector2 {
    type V = VectorModel;

    open spec fn view(&self) -> VectorModel {
        VectorModel { x: self.x as int, y: self.y as int }
    }
}

impl View for Aabb {
    type V = BoxModel;

    open spec fn view(&self) -> BoxModel {
        BoxModel { mins: self.mins@, maxs: self.maxs@ }
    }
}

/// The model of an optional box.
pub open spec fn box_model(bounds: Option<Aabb>) -> Option<BoxModel> {
    match bounds {
        Some(b) => Some(b@),
        None => None,
    }
}

/// The model of an optional vector.
pub open spec fn vector_model(vector: Option<Vector2>) -> Option<VectorModel> {
    match vector {
        Some(v) => Some(v@),
        None => None,
    }
}

/// Translation is a rigid shift: the minimum corner moves by exactly the
/// offset, and both extents stay as they were.
pub proof fn lemma_translate_is_rigid(a: BoxModel, offset: VectorModel)
    ensures
        a.translated(offset).mins.minus(a.mins) == offset,
        a.translated(offset).maxs.minus(a.maxs) == offset,
        a.translated(offset).extents() == a.extents(),
        a.translated(offset).is_valid() == a.is_valid(),
{
}

/// A box clamped from below covers its lower bound, so it is at least as
/// wide and as high, and it is valid whenever the lower bound is.
pub proof fn lemma_clamp_covers_min_bound(a: BoxModel, min_bound: BoxModel)
    ensures
        a.clamped(Some(min_bound), None).mins.x <= min_bound.mins.x,
        a.clamped(Some(min_bound), None).mins.y <= min_bound.mins.y,
        a.clamped(Some(min_bound), None).maxs.x >= min_bound.maxs.x,
        a.clamped(Some(min_bound), None).maxs.y >= min_bound.maxs.y,
        a.clamped(Some(min_bound), None).width() >= min_bound.width(),
        a.clamped(Some(min_bound), None).height() >= min_bound.height(),
        min_bound.is_valid() ==> a.clamped(Some(min_bound), None).is_valid(),
{
}

/// A box clamped from above lies within its upper bound wherever the two
/// overlap, so it is at most as wide and as high.
pub proof fn lemma_clamp_within_max_bound(a: BoxModel, min_bound: Option<BoxModel>, max_bound: BoxModel)
    requires
        a.clamped(min_bound, Some(max_bound)).is_valid(),
    ensures
        a.clamped(min_bound, Some(max_bound)).mins.x >= max_bound.mins.x,
        a.clamped(min_bound, Some(max_bound)).mins.y >= max_bound.mins.y,
        a.clamped(min_bound, Some(max_bound)).maxs.x <= max_bound.maxs.x,
        a.clamped(min_bound, Some(max_bound)).maxs.y <= max_bound.maxs.y,
        a.clamped(min_bound, Some(max_bound)).width() <= max_bound.width(),
        a.clamped(min_bound, Some(max_bound)).height() <= max_bound.height(),
{
}

/// Clamping is idempotent: clamping a clamped box again, with the same
/// bounds, changes nothing.
pub proof fn lemma_clamp_is_idempotent(a: BoxModel, min_bound: Option<BoxModel>, max_bound: Option<BoxModel>)
    ensures
        a.clamped(min_bound, max_bound).clamped(min_bound, max_bound) == a.clamped(min_bound, max_bound),
{
}

/// Clamping never produces a coordinate that was not already one of the
/// box's or of its bounds', so it cannot leave the representable range.
pub proof fn lemma_clamp_is_representable(a: BoxModel, min_bound: Option<BoxModel>, max_bound: Option<BoxModel>)
    requires
        a.representable(),
        min_bound matches Some(lower) ==> lower.representable(),
        max_bound matches Some(upper) ==> upper.representable(),
    ensures
        a.clamped(min_bound, max_bound).representable(),
{
}

impl Vector2 {
    /// The vector with the given components.
    pub fn new(x: i64, y: i64) -> (r: Self)
        ensures
            r.x == x,
            r.y == y,
    {
        Vector2 { x, y }
    }
}

impl Aabb {
    /// The box with the given corners. Nothing is checked: a caller that
    /// needs a valid box asks `is_valid`.
    pub fn new(mins: Point2, maxs: Point2) -> (r: Self)
        ensures
            r.mins == mins,
            r.maxs == maxs,
    {
        Aabb { mins, maxs }
    }

    /// Whether neither axis of the box is inverted.
    pub fn is_valid(&self) -> (r: bool)
        ensures
            r == self@.is_valid(),
    {
        self.mins.x <= self.maxs.x && self.mins.y <= self.maxs.y
    }

    /// Whether the box shifted by `offset` can be held in an `Aabb`.
    pub fn can_translate(&self, offset: Vector2) -> (r: bool)
        ensures
            r == self@.translated(offset@).representable(),
    {
        self.mins.x.checked_add(offset.x).is_some() && self.mins.y.checked_add(offset.y).is_some()
            && self.maxs.x.checked_add(offset.x).is_some() && self.maxs.y.checked_add(
            offset.y,
        ).is_some()
    }

    /// The box shifted by `offset`: both corners move by it, so the extents
    /// are unchanged.
    pub fn translate(&self, offset: Vector2) -> (r: Self)
        requires
            self@.translated(offset@).representable(),
        ensures
            r@ == self@.translated(offset@),
            r@.mins.minus(self@.mins) == offset@,
            r@.extents() == self@.extents(),
            r@.is_valid() == self@.is_valid(),
    {
        Aabb {
            mins: Vector2 { x: self.mins.x + offset.x, y: self.mins.y + offset.y },
            maxs: Vector2 { x: self.maxs.x + offset.x, y: self.maxs.y + offset.y },
        }
    }

    /// The box constrained to be no smaller than `min_bound` and no larger
    /// than `max_bound`, where each is given.
    pub fn clamp(&self, min_bound: Option<Aabb>, max_bound: Option<Aabb>) -> (r: Self)
        ensures
            r@ == self@.clamped(box_model(min_bound), box_model(max_bound)),
            r@.clamped(box_model(min_bound), box_model(max_bound)) == r@,
            min_bound matches Some(lower) ==> (max_bound is None && lower@.is_valid() ==> r@.is_valid()),
            min_bound matches Some(lower) ==> (max_bound is None ==> r@.width() >= lower@.width()
                && r@.height() >= lower@.height()),
    {
        let mut mins_x: i64 = self.mins.x;
        let mut mins_y: i64 = self.mins.y;
        let mut maxs_x: i64 = self.maxs.x;
        let mut maxs_y: i64 = self.maxs.y;
        if let Some(lower) = min_bound {
            if lower.mins.x < mins_x {
                mins_x = lower.mins.x;
            }
            if lower.mins.y < mins_y {
                mins_y = lower.mins.y;
            }
            if lower.maxs.x > maxs_x {
                maxs_x = lower.maxs.x;
            }
            if lower.maxs.y > maxs_y {
                maxs_y = lower.maxs.y;
            }
        }
        if let Some(upper) = max_bound {
            if upper.mins.x > mins_x {
                mins_x = upper.mins.x;
            }
            if upper.mins.y > mins_y {
                mins_y = upper.mins.y;
            }
            if upper.maxs.x < maxs_x {
                maxs_x = upper.maxs.x;
            }
            if upper.maxs.y < maxs_y {
                maxs_y = upper.maxs.y;
            }
        }
        Aabb { mins: Vector2 { x: mins_x, y: mins_y }, maxs: Vector2 { x: maxs_x, y: maxs_y } }
    }
}

} // verus!
