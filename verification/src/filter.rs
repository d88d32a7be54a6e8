//! Filters a slot applies to incoming values before taking them.
use vstd::prelude::*;

verus! {

/// Why a value was held back.
#[derive(Clone, Copy, Debug, PartialEq, Eq, Structural)]
pub enum FilterError {
    /// The value equals the last value taken.
    SameAsLastValue,
}

/// A filter of values of type `T`: passes a new value on (possibly changed)
/// or holds it back.
pub trait Filter<T> {
    fn filter(&self, new_value: T, old_value: Option<&T>) -> Result<T, FilterError>;
}

/// Values whose sameness a new-state filter tells: two values are the same
/// exactly when their views are equal.
pub trait SameValue: View + Sized {
    fn same(&self, other: &Self) -> (r: bool)
        ensures
            r == (self@ == other@),
    ;
}

/// Whether a value seen as `value` is news after the last value `old`: there
/// was no value before, or it differs.
pub open spec fn spec_is_new<V>(value: V, old: Option<V>) -> bool {
    match old {
        None => true,
        Some(o) => o != value,
    }
}

/// The view of an optional value.
pub open spec fn option_view<T: View>(o: Option<T>) -> Option<T::V> {
    match o {
        Some(v) => Some(v@),
        None => None,
    }
}

/// Passes only values that differ from the last value taken.
#[derive(Clone, Copy, Debug)]
pub struct NewState {}

impl<T: SameValue> Filter<T> for NewState {
    fn filter(&self, new_value: T, old_value: Option<&T>) -> (r: Result<T, FilterError>)
        ensures
            match old_value {
                Some(o) => if o@ == new_value@ {
                    r == Err::<T, FilterError>(FilterError::SameAsLastValue)
                } else {
                    r == Ok::<T, FilterError>(new_value)
                },
                None => r == Ok::<T, FilterError>(new_value),
            },
    {
        match old_value {
            None => Ok(new_value),
            Some(o) => {
                if !o.same(&new_value) {
                    Ok(new_value)
                } else {
                    Err(FilterError::SameAsLastValue)
                }
            },
        }
    }
}

impl SameValue for bool {
    fn same(&self, other: &Self) -> (r: bool) {
        *self == *other
    }
}

impl SameValue for i64 {
    fn same(&self, other: &Self) -> (r: bool) {
        *self == *other
    }
}

impl SameValue for u64 {
    fn same(&self, other: &Self) -> (r: bool) {
        *self == *other
    }
}

impl SameValue for String {
    fn same(&self, other: &Self) -> (r: bool) {
        <String as PartialEq>::eq(self, other)
    }
}

/// The filters a slot can be configured with.
#[derive(Clone, Copy, Debug)]
pub enum FilterVariant {
    NewState(NewState),
}

/// Whether a chain of `n` filters lets a value seen as `value` through
/// after the last value `old`: each new-state filter holds back a value the
/// same as `old`.
pub open spec fn spec_passes<V>(n: nat, value: V, old: Option<V>) -> bool {
    n == 0 || spec_is_new(value, old)
}

/// A chain without filters lets every value through. A chain with filters
/// holds back a value equal to the last value taken and lets through a value
/// that differs from it, or any value when none was taken yet.
pub proof fn lemma_new_state_chain<V>(n: nat, value: V, last: V)
    ensures
        spec_passes(0, value, Some(last)),
        n > 0 ==> !spec_passes(n, value, Some(value)),
        n > 0 && last != value ==> spec_passes(n, value, Some(last)),
        spec_passes(n, value, None),
{
}

/// Runs `new_value` through the configured filters in order; the first
/// filter that holds the value back ends the chain with its error.
pub fn process<T: SameValue>(filters: &Vec<FilterVariant>, new_value: T, old_value: Option<&T>) -> (r:
    Result<T, FilterError>)
    ensures
        spec_passes(
            filters@.len(),
            new_value@,
            match old_value {
                Some(o) => Some(o@),
                None => None,
            },
        ) ==> r == Ok::<T, FilterError>(new_value),
        !spec_passes(
            filters@.len(),
            new_value@,
            match old_value {
                Some(o) => Some(o@),
                None => None,
            },
        ) ==> r == Err::<T, FilterError>(FilterError::SameAsLastValue),
{
    let ghost old = match old_value {
        Some(o) => Some(o@),
        None => None::<T::V>,
    };
    let ghost value = new_value@;
    let mut result: Result<T, FilterError> = Ok(new_value);
    let mut i: usize = 0;
    while i < filters.len()
        invariant
            i <= filters@.len(),
            spec_passes(i as nat, value, old) ==> result == Ok::<T, FilterError>(new_value),
            !spec_passes(i as nat, value, old) ==> result == Err::<T, FilterError>(
                FilterError::SameAsLastValue,
            ),
            value == new_value@,
            old == match old_value {
                Some(o) => Some(o@),
                None => None::<T::V>,
            },
        decreases filters@.len() - i,
    {
        match result {
            Err(e) => {
                return Err(e);
            },
            Ok(v) => {
                match &filters[i] {
                    FilterVariant::NewState(f) => {
                        result = f.filter(v, old_value);
                    },
                }
            },
        }
        i = i + 1;
    }
    result
}

} // verus!
