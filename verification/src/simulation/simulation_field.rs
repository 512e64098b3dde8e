//! One simulation parameter: a value with its valid range and a mark that
//! says who may change it.

use vstd::prelude::*;
use crate::scalar::Scalar;
use crate::scalar::ONE_BITS;
use crate::scalar::lemma_clamp_within;

verus! {

/// Who changes a field.
#[derive(Clone, Copy, Debug, PartialEq, Eq, Structural)]
pub enum SimulationFieldKind {
    /// This field is editable from outside, through a slider.
    Slider,
    /// This field is read-only: only the simulation changes it.
    ReadOnly,
}

impl Default for SimulationFieldKind {
    fn default() -> (kind: Self)
        ensures
            kind == SimulationFieldKind::ReadOnly,
    {
        SimulationFieldKind::ReadOnly
    }
}

/// A value with an inclusive range `[min, max]`.
///
/// Construction and [`SimulationField::assign`] clamp into the range, and
/// [`SimulationField::set_max`] lowers the value with the bound where the
/// bound shrinks below it. The simulation's own stages store their results
/// with [`SimulationField::set_value`], as they are.
#[derive(Clone, Copy, Debug, PartialEq, Eq, Structural)]
pub struct SimulationField {
    pub kind: SimulationFieldKind,
    pub max: Scalar,
    pub min: Scalar,
    pub value: Scalar,
}

impl SimulationField {
    /// The bounds are numbers and `min <= max`.
    pub open spec fn well_formed(self) -> bool {
        self.min.le(self.max)
    }

    /// The value is a number within the bounds.
    pub open spec fn in_range(self) -> bool {
        self.value.within(self.min, self.max)
    }

    /// This field holding `value` in place of its own, all else kept.
    pub open spec fn with_value(self, value: Scalar) -> SimulationField {
        SimulationField { value, ..self }
    }

    /// This field with the upper bound `max`, all else kept.
    pub open spec fn with_max(self, max: Scalar) -> SimulationField {
        SimulationField { max, ..self }
    }

    /// This field after its upper bound became `max`: the value is lowered
    /// to the bound where it was above, and never raised.
    pub open spec fn capped(self, max: Scalar) -> SimulationField {
        self.with_max(max).with_value(
            if self.value.gt(max) {
                max
            } else {
                self.value
            },
        )
    }

    /// This field after a clamped write of `value`.
    pub open spec fn assigned(self, value: Scalar) -> SimulationField {
        self.with_value(value.clamp(self.min, self.max))
    }

    /// A field of the given kind and range whose value is `value` clamped
    /// into the range.
    pub fn new(value: Scalar, min: Scalar, max: Scalar, kind: SimulationFieldKind) -> (field: Self)
        requires
            min.le(max),
        ensures
            field == (SimulationField { kind, max, min, value: value.clamp(min, max) }),
            field.well_formed(),
            !value.is_nan() ==> field.in_range(),
    {
        proof {
            if !value.is_nan() {
                lemma_clamp_within(value, min, max);
            }
        }
        SimulationField { kind, max, min, value: value.clamp(min, max) }
    }

    /// An editable field with the range `[0, 1]` that holds `value` as
    /// given.
    pub fn new_percentile(value: Scalar) -> (field: Self)
        ensures
            field == (SimulationField {
                kind: SimulationFieldKind::Slider,
                max: Scalar { bits: ONE_BITS },
                min: Scalar { bits: 0 },
                value,
            }),
            field.well_formed(),
    {
        SimulationField {
            kind: SimulationFieldKind::Slider,
            max: Scalar::one(),
            min: Scalar::zero(),
            value,
        }
    }

    pub fn kind(&self) -> (kind: SimulationFieldKind)
        ensures
            kind == self.kind,
    {
        self.kind
    }

    pub fn max(&self) -> (max: Scalar)
        ensures
            max == self.max,
    {
        self.max
    }

    pub fn min(&self) -> (min: Scalar)
        ensures
            min == self.min,
    {
        self.min
    }

    pub fn value(&self) -> (value: Scalar)
        ensures
            value == self.value,
    {
        self.value
    }

    /// Replaces the upper bound. Where the new bound is below the value, the
    /// value is lowered to it at once; a value at or below the bound stays.
    pub fn set_max(&mut self, max: Scalar)
        ensures
            *final(self) == old(self).capped(max),
            *final(self) == old(self).with_max(max).with_value(
                if old(self).value.gt(max) {
                    max
                } else {
                    old(self).value
                },
            ),
    {
        self.max = max;
        if self.value.gt(max) {
            self.value = max;
        }
    }

    /// Stores `value` as it is, without clamping. This is the write of the
    /// simulation's own stages.
    pub fn set_value(&mut self, value: Scalar)
        ensures
            *final(self) == old(self).with_value(value),
    {
        self.value = value;
    }

    /// Clamps `value` into `[min, max]` and stores it. Returns the value
    /// held before and the value held now.
    pub fn assign(&mut self, value: Scalar) -> (change: (Scalar, Scalar))
        ensures
            *final(self) == old(self).assigned(value),
            change.0 == old(self).value,
            change.1 == final(self).value,
    {
        let previous = self.value;
        self.value = value.clamp(self.min, self.max);
        (previous, self.value)
    }
}

impl Default for SimulationField {
    /// A read-only field with the range `[0, 1]` that holds zero.
    fn default() -> (field: Self)
        ensures
            field == (SimulationField {
                kind: SimulationFieldKind::ReadOnly,
                max: Scalar { bits: ONE_BITS },
                min: Scalar { bits: 0 },
                value: Scalar { bits: 0 },
            }),
    {
        SimulationField {
            kind: SimulationFieldKind::ReadOnly,
            max: Scalar::one(),
            min: Scalar::zero(),
            value: Scalar::zero(),
        }
    }
}

/// Shrinking or growing the upper bound of a field that is in range, to a
/// number that is not below the lower bound, leaves the field in range: the
/// value is the smaller of the value it had and the new bound, and kind and
/// lower bound stay.
pub proof fn lemma_capped_in_range(field: SimulationField, max: Scalar)
    requires
        field.in_range(),
        field.min.le(max),
    ensures
        field.capped(max).in_range(),
        field.capped(max).well_formed(),
        field.capped(max).max == max,
        field.capped(max).min == field.min,
        field.capped(max).kind == field.kind,
        field.value.gt(max) ==> field.capped(max).value == max,
        !field.value.gt(max) ==> field.capped(max).value == field.value,
{
}

/// A clamped write of a number into a well-formed field leaves the value
/// within the field's range, however large or small the number written.
pub proof fn lemma_assign_in_range(field: SimulationField, value: Scalar)
    requires
        field.well_formed(),
        !value.is_nan(),
    ensures
        field.assigned(value).in_range(),
        field.assigned(value).well_formed(),
{
    lemma_clamp_within(value, field.min, field.max);
}

} // verus!
