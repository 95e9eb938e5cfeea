use std::ops::RangeInclusive;
use vstd::prelude::*;

verus! {

/// `RangeInclusive::start` returns the lower bound that the range was made
/// with. Trusted, not proved. The standard library leaves the value open once
/// the range has been iterated to its end, so nothing is claimed then.
pub assume_specification<Idx>[ RangeInclusive::<Idx>::start ](range: &RangeInclusive<Idx>) -> (bound: &Idx)
    ensures
        !range@.exhausted ==> *bound == range@.start,
;

/// `RangeInclusive::end` returns the upper bound that the range was made
/// with. Trusted, not proved. The standard library leaves the value open once
/// the range has been iterated to its end, so nothing is claimed then.
pub assume_specification<Idx>[ RangeInclusive::<Idx>::end ](range: &RangeInclusive<Idx>) -> (bound: &Idx)
    ensures
        !range@.exhausted ==> *bound == range@.end,
;

/// `value` raised to `min` where it lies below, and then lowered to `max`
/// where the outcome lies above.
///
/// For `min <= max` the result is the value of `[min, max]` nearest to
/// `value`. For `min > max` it is `max`.
pub open spec fn clamp(value: int, min: int, max: int) -> int {
    let raised = if value < min {
        min
    } else {
        value
    };
    if raised < max {
        raised
    } else {
        max
    }
}

/// A bounded value over unbounded integers: what a [`Bounded`] denotes in
/// contracts.
pub struct BoundedView {
    pub value: int,
    pub min: int,
    pub max: int,
}

impl BoundedView {
    /// The bounded value with the given bounds whose value is `value`
    /// clamped to them.
    pub open spec fn new(value: int, min: int, max: int) -> BoundedView {
        BoundedView { value: clamp(value, min, max), min, max }
    }

    /// The same bounds around `value` clamped to them.
    pub open spec fn with_value(self, value: int) -> BoundedView {
        BoundedView::new(value, self.min, self.max)
    }

    /// The value lies within the bounds, both ends included.
    pub open spec fn in_bounds(self) -> bool {
        self.min <= self.value <= self.max
    }
}

/// Clamping to an interval that is not empty gives a value of the interval,
/// and leaves a value of the interval as it is.
pub proof fn lemma_clamp_in_bounds(value: int, min: int, max: int)
    requires
        min <= max,
    ensures
        min <= clamp(value, min, max) <= max,
        min <= value <= max ==> clamp(value, min, max) == value,
        value < min ==> clamp(value, min, max) == min,
        value > max ==> clamp(value, min, max) == max,
{
}

/// A bounded value made with bounds that do not cross lies within them.
pub proof fn lemma_new_in_bounds(value: int, min: int, max: int)
    requires
        min <= max,
    ensures
        BoundedView::new(value, min, max).in_bounds(),
{
}

/// Clamping a clamped value changes nothing, whatever the bounds.
pub proof fn lemma_clamp_idempotent(value: int, min: int, max: int)
    ensures
        clamp(clamp(value, min, max), min, max) == clamp(value, min, max),
{
}

/// Computes [`clamp`] for a value of any magnitude.
fn clamp_to(value: i128, min: i64, max: i64) -> (r: i64)
    ensures
        r == clamp(value as int, min as int, max as int),
{
    let raised: i128 = if value < min as i128 {
        min as i128
    } else {
        value
    };
    if raised < max as i128 {
        raised as i64
    } else {
        max
    }
}

/// A value bounded by a closed interval.
#[derive(Clone, Copy, Debug)]
pub struct Bounded {
    value: i64,
    min: i64,
    max: i64,
}

impl View for Bounded {
    type V = BoundedView;

    closed spec fn view(&self) -> BoundedView {
        BoundedView { value: self.value as int, min: self.min as int, max: self.max as int }
    }
}

impl Bounded {
    /// Construct a new value bounded by the given `range`.
    pub fn new(value: i64, range: RangeInclusive<i64>) -> (b: Bounded)
        ensures
            !range@.exhausted ==> b@ == BoundedView::new(
                value as int,
                range@.start as int,
                range@.end as int,
            ),
            b@ == b@.with_value(value as int),
    {
        Bounded { value, min: *range.start(), max: *range.end() }.normalized()
    }

    pub fn value(&self) -> (value: i64)
        ensures
            value == self@.value,
    {
        self.value
    }

    pub fn min(&self) -> (min: i64)
        ensures
            min == self@.min,
    {
        self.min
    }

    pub fn max(&self) -> (max: i64)
        ensures
            max == self@.max,
    {
        self.max
    }

    /// Applies `f` to the value and to both bounds. The outcome is not
    /// clamped.
    pub fn map<F: Fn(i64) -> i64>(&mut self, f: F) -> (b: Bounded)
        requires
            f.requires((old(self)@.value as i64,)),
            f.requires((old(self)@.min as i64,)),
            f.requires((old(self)@.max as i64,)),
        ensures
            final(self)@ == old(self)@,
            f.ensures((old(self)@.value as i64,), b@.value as i64),
            f.ensures((old(self)@.min as i64,), b@.min as i64),
            f.ensures((old(self)@.max as i64,), b@.max as i64),
    {
        Bounded { value: f(self.value), min: f(self.min), max: f(self.max) }
    }

    fn normalized(self) -> (b: Bounded)
        ensures
            b@ == self@.with_value(self@.value),
    {
        Bounded { value: clamp_to(self.value as i128, self.min, self.max), ..self }
    }

    /// Whether the value is at a maximum.
    pub fn is_max(&self) -> (at_max: bool)
        ensures
            at_max == (self@.value >= self@.max),
    {
        self.value >= self.max
    }

    /// Whether the value is at a minimum.
    pub fn is_min(&self) -> (at_min: bool)
        ensures
            at_min == (self@.value <= self@.min),
    {
        self.value <= self.min
    }

    /// Whether the value is above minimum.
    pub fn is_above_min(&self) -> (above: bool)
        ensures
            above == (self@.value > self@.min),
    {
        self.value > self.min
    }

    /// Construct a new non-negative value with max set to be the initial value.
    pub fn new_max(value: i64) -> (b: Bounded)
        ensures
            b@ == BoundedView::new(value as int, 0, value as int),
            b@.value == value,
    {
        Bounded { value, min: 0, max: value }.normalized()
    }

    /// Construct a new non-negative value with a given max and initial value set to zero.
    pub fn new_zero(max: i64) -> (b: Bounded)
        ensures
            b@ == BoundedView::new(0, 0, max as int),
    {
        Bounded { value: 0, min: 0, max }.normalized()
    }

    /// Changes the value by a `delta`, but keeps it in the interval.
    pub fn change(&mut self, delta: i64)
        ensures
            final(self)@ == old(self)@.with_value(old(self)@.value + delta),
    {
        self.value = clamp_to(self.value as i128 + delta as i128, self.min, self.max);
    }

    /// Sets the value after clamping it by the bounds.
    pub fn set(&mut self, value: i64)
        ensures
            final(self)@ == old(self)@.with_value(value as int),
    {
        self.value = clamp_to(value as i128, self.min, self.max);
    }
}

} // verus!
