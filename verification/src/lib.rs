//! Tag calculus for 4-component geometric tuples.
//!
//! A geometric tuple `(x, y, z, w)` classifies itself as a point (homogeneous
//! coordinate `w` equal to `1.0`) or a vector (any other `w`) at construction
//! time, and each arithmetic operator carries that classification forward by
//! a fixed rule rather than recomputing it from the resulting `w`. The scalar
//! components are floating-point values, which lie outside the verifier's
//! reach, so they live in a thin unverified shell around this crate; every
//! decision about the `TupleType` tag is made here, with a proved contract.

use vstd::prelude::*;

verus! {

/// The classification of a tuple: a point (a location in space) or a vector
/// (a displacement or direction).
#[derive(Clone, Copy, PartialEq, Eq, Structural, Debug)]
pub enum TupleType {
    Point,
    Vector,
}

impl TupleType {
    /// The tag a constructor assigns, given whether the tuple's `w` component
    /// compares exactly equal to `1.0`: `Point` when it does, `Vector` for
    /// every other `w`.
    pub open spec fn constructed(w_is_one: bool) -> TupleType {
        if w_is_one {
            TupleType::Point
        } else {
            TupleType::Vector
        }
    }

    /// The tag of a freshly constructed tuple. `w_is_one` is the result of
    /// comparing the tuple's `w` component exactly to `1.0` (no tolerance).
    pub fn of_construction(w_is_one: bool) -> (t: TupleType)
        ensures
            t == TupleType::constructed(w_is_one),
            t == TupleType::Point <==> w_is_one,
            t == TupleType::Vector <==> !w_is_one,
    {
        if w_is_one {
            TupleType::Point
        } else {
            TupleType::Vector
        }
    }

    /// The tag of a component-wise sum: copied unconditionally from the left
    /// operand. The right operand's tag has no effect, and the tag is never
    /// recomputed from the summed `w`.
    pub fn of_sum(self, _other: TupleType) -> (t: TupleType)
        ensures
            t == self,
    {
        self
    }

    /// The tag of a component-wise difference, by the combination table:
    /// like tags give `Vector`, differing tags give `Point`. In particular
    /// point − point = vector, point − vector = point, vector − vector =
    /// vector, and vector − point = point.
    pub open spec fn difference(self, other: TupleType) -> TupleType {
        match (self, other) {
            (TupleType::Point, TupleType::Point) => TupleType::Vector,
            (TupleType::Point, TupleType::Vector) => TupleType::Point,
            (TupleType::Vector, TupleType::Point) => TupleType::Point,
            (TupleType::Vector, TupleType::Vector) => TupleType::Vector,
        }
    }

    /// The tag of a difference, looked up in the combination table; never
    /// recomputed from the resulting `w`.
    pub fn of_difference(self, other: TupleType) -> (t: TupleType)
        ensures
            t == self.difference(other),
    {
        match self {
            TupleType::Point => match other {
                TupleType::Vector => TupleType::Point,
                _ => TupleType::Vector,
            },
            TupleType::Vector => match other {
                TupleType::Vector => TupleType::Vector,
                _ => TupleType::Point,
            },
        }
    }

    /// The tag of a negated tuple: copied unchanged from the operand, even
    /// though negation changes `w` (a point keeps its `Point` tag although
    /// its `w` becomes `-1.0`).
    pub fn of_negation(self) -> (t: TupleType)
        ensures
            t == self,
    {
        self
    }

    /// The tag of a tuple scaled by a scalar: copied unchanged from the
    /// operand, regardless of the scaled `w`.
    pub fn of_scaling(self) -> (t: TupleType)
        ensures
            t == self,
    {
        self
    }
}

/// The difference table collapses to agreement on the tags: subtracting
/// tuples with equal tags yields a vector, and subtracting tuples with
/// differing tags yields a point.
pub proof fn lemma_difference_by_agreement(a: TupleType, b: TupleType)
    ensures
        a.difference(b) == (if a == b {
            TupleType::Vector
        } else {
            TupleType::Point
        }),
{
}

/// A constructor that fixes `w` to `1.0` always tags its result `Point`, and
/// one that fixes `w` to `0.0` always tags its result `Vector`, whatever the
/// other three components are.
pub proof fn lemma_fixed_w_constructors()
    ensures
        TupleType::constructed(true) == TupleType::Point,
        TupleType::constructed(false) == TupleType::Vector,
{
}

/// The two tags are distinct values, so tuples with identical scalar
/// components but different tags compare unequal.
pub proof fn lemma_tags_distinct()
    ensures
        TupleType::Point != TupleType::Vector,
{
}

} // verus!
