//! Values that were checked by the platform.
use crate::value::Value;
use vstd::prelude::*;

verus! {

/// What came of a check: a valid value, or the reason why there is none.
#[derive(Clone, Debug, PartialEq, Eq)]
pub enum Checked<T> {
    Valid(T),
    Invalid(String),
}

/// The contents of a [`Checked`] value.
#[verifier::ext_equal]
pub enum CheckedView<T> {
    Valid(T),
    Invalid(Seq<char>),
}

impl<T: DeepView> DeepView for Checked<T> {
    type V = CheckedView<T::V>;

    open spec fn deep_view(&self) -> CheckedView<T::V> {
        match self {
            Checked::Valid(value) => CheckedView::Valid(value.deep_view()),
            Checked::Invalid(reason) => CheckedView::Invalid(reason@),
        }
    }
}

impl<T: Value> Value for Checked<T> {
    fn duplicate(&self) -> (copy: Self) {
        match self {
            Checked::Valid(value) => Checked::Valid(value.duplicate()),
            Checked::Invalid(reason) => Checked::Invalid(reason.clone()),
        }
    }

    fn same_as(&self, other: &Self) -> (same: bool) {
        match (self, other) {
            (Checked::Valid(left), Checked::Valid(right)) => left.same_as(right),
            (Checked::Invalid(left), Checked::Invalid(right)) => left.same_as(right),
            _ => false,
        }
    }
}

} // verus!
