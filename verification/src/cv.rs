//! Control-voltage style value holders: small typed knobs with a useful
//! range, a current value, and a default.

use vstd::prelude::*;

use crate::host::NodeId;

verus! {

/// A typed knob: something that holds one value of type `T`, bounded by
/// a useful range and born at a default.
pub trait Control<T>: Sized {
    /// The value the knob currently holds.
    spec fn current(&self) -> T;

    /// The useful range, as the bounds of the `range` result.
    spec fn range_spec() -> core::ops::Range<T>;

    /// The value a fresh knob of this kind holds.
    spec fn default_spec() -> T;

    /// Returns the knob's useful range.
    fn range() -> (r: core::ops::Range<T>)
        ensures
            r == Self::range_spec(),
    ;

    /// Stores a new value.
    fn set(&mut self, value: T)
        ensures
            final(self).current() == value,
    ;

    /// Reads the stored value back.
    fn get(&self) -> (v: T)
        ensures
            v == self.current(),
    ;

    /// Returns the default value for this kind of knob.
    fn default_value() -> (v: T)
        ensures
            v == Self::default_spec(),
    ;
}

/// A gain knob bound to one host-side gain unit. Levels are fixed-point
/// thousandths: the useful range `0..1000` spans silence to unity.
pub struct GainControl {
    /// The gain unit this knob belongs to.
    pub node: NodeId,
    /// The held level in thousandths.
    pub value: i64,
}

impl Control<i64> for GainControl {
    open spec fn current(&self) -> i64 {
        self.value
    }

    open spec fn range_spec() -> core::ops::Range<i64> {
        core::ops::Range { start: 0i64, end: 1000i64 }
    }

    open spec fn default_spec() -> i64 {
        0
    }

    fn range() -> (r: core::ops::Range<i64>) {
        0i64..1000i64
    }

    fn set(&mut self, value: i64) {
        self.value = value;
    }

    fn get(&self) -> (v: i64) {
        self.value
    }

    fn default_value() -> (v: i64) {
        0
    }
}

/// A mix knob balancing two sources; `500` is an even blend.
#[derive(Clone, Copy)]
pub struct MixControl {
    /// The held blend in thousandths.
    pub value: i64,
}

impl Control<i64> for MixControl {
    open spec fn current(&self) -> i64 {
        self.value
    }

    open spec fn range_spec() -> core::ops::Range<i64> {
        core::ops::Range { start: 0i64, end: 1000i64 }
    }

    open spec fn default_spec() -> i64 {
        500
    }

    fn range() -> (r: core::ops::Range<i64>) {
        0i64..1000i64
    }

    fn set(&mut self, value: i64) {
        self.value = value;
    }

    fn get(&self) -> (v: i64) {
        self.value
    }

    fn default_value() -> (v: i64) {
        500
    }
}

} // verus!
