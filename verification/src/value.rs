//! Plain data: values that are fully described by their deep view.
use vstd::prelude::*;

verus! {

/// Plain data that can be duplicated and compared without losing anything its deep view shows.
pub trait Value: DeepView + Sized {
    /// A second value with the same contents.
    fn duplicate(&self) -> (copy: Self)
        ensures
            copy.deep_view() == self.deep_view(),
    ;

    /// Whether both values have the same contents.
    fn same_as(&self, other: &Self) -> (same: bool)
        ensures
            same == (self.deep_view() == other.deep_view()),
    ;
}

impl Value for String {
    fn duplicate(&self) -> (copy: Self) {
        self.clone()
    }

    fn same_as(&self, other: &Self) -> (same: bool) {
        *self == *other
    }
}

impl Value for bool {
    fn duplicate(&self) -> (copy: Self) {
        *self
    }

    fn same_as(&self, other: &Self) -> (same: bool) {
        *self == *other
    }
}

impl Value for u16 {
    fn duplicate(&self) -> (copy: Self) {
        *self
    }

    fn same_as(&self, other: &Self) -> (same: bool) {
        *self == *other
    }
}

impl Value for i32 {
    fn duplicate(&self) -> (copy: Self) {
        *self
    }

    fn same_as(&self, other: &Self) -> (same: bool) {
        *self == *other
    }
}

impl Value for i64 {
    fn duplicate(&self) -> (copy: Self) {
        *self
    }

    fn same_as(&self, other: &Self) -> (same: bool) {
        *self == *other
    }
}

impl Value for u64 {
    fn duplicate(&self) -> (copy: Self) {
        *self
    }

    fn same_as(&self, other: &Self) -> (same: bool) {
        *self == *other
    }
}

impl<T: Value> Value for Option<T> {
    fn duplicate(&self) -> (copy: Self) {
        match self {
            Some(value) => Some(value.duplicate()),
            None => None,
        }
    }

    fn same_as(&self, other: &Self) -> (same: bool) {
        match (self, other) {
            (Some(left), Some(right)) => left.same_as(right),
            (None, None) => true,
            _ => false,
        }
    }
}

impl<A: Value, B: Value> Value for (A, B) {
    fn duplicate(&self) -> (copy: Self) {
        (self.0.duplicate(), self.1.duplicate())
    }

    fn same_as(&self, other: &Self) -> (same: bool) {
        self.0.same_as(&other.0) && self.1.same_as(&other.1)
    }
}

impl<T: Value> Value for Vec<T> {
    fn duplicate(&self) -> (copy: Self) {
        let mut copy: Vec<T> = Vec::new();
        let mut i: usize = 0;
        while i < self.len()
            invariant
                i <= self.len(),
                copy.len() == i,
                forall|j: int| 0 <= j < i ==> #[trigger] copy[j].deep_view() == self[j].deep_view(),
            decreases self.len() - i,
        {
            copy.push(self[i].duplicate());
            i += 1;
        }
        assert(copy.deep_view() =~= self.deep_view());
        copy
    }

    fn same_as(&self, other: &Self) -> (same: bool) {
        if self.len() != other.len() {
            assert(self.deep_view().len() != other.deep_view().len());
            return false;
        }
        let mut i: usize = 0;
        while i < self.len()
            invariant
                i <= self.len(),
                self.len() == other.len(),
                forall|j: int|
                    0 <= j < i ==> #[trigger] self[j].deep_view() == other[j].deep_view(),
            decreases self.len() - i,
        {
            if !self[i].same_as(&other[i]) {
                assert(self.deep_view()[i as int] != other.deep_view()[i as int]);
                return false;
            }
            i += 1;
        }
        assert(self.deep_view() =~= other.deep_view());
        true
    }
}

/// An empty list.
pub fn no_items<T: DeepView>() -> (items: Vec<T>)
    ensures
        items.deep_view() == Seq::<T::V>::empty(),
{
    let items: Vec<T> = Vec::new();
    assert(items.deep_view() =~= Seq::<T::V>::empty());
    items
}

/// Appends `item` to `items`.
pub fn push_item<T: DeepView>(items: &mut Vec<T>, item: T)
    ensures
        final(items).deep_view() == old(items).deep_view().push(item.deep_view()),
{
    let ghost before = items.deep_view();
    let ghost pushed = item.deep_view();
    items.push(item);
    assert(items.deep_view() =~= before.push(pushed));
}

/// A list of one item.
pub fn one_item<T: DeepView>(item: T) -> (items: Vec<T>)
    ensures
        items.deep_view() == seq![item.deep_view()],
{
    let mut items: Vec<T> = no_items();
    push_item(&mut items, item);
    items
}

} // verus!
