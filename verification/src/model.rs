//! Copying and comparing values by their mathematical view.
//!
//! Every domain type has a view: strings become character sequences and
//! vectors become sequences of their elements' views. Two values are the
//! same value exactly when their views are equal, and a copy is a new value
//! with the same view.

use vstd::prelude::*;

verus! {

/// A value that can be copied with its view preserved.
pub trait Duplicate: View + Sized {
    fn duplicate(&self) -> (copy: Self)
        ensures
            copy@ == self@,
    ;
}

/// A value that can be compared with another by view.
pub trait SameView: View {
    fn same_view(&self, other: &Self) -> (same: bool)
        ensures
            same == (self@ == other@),
    ;
}

impl Duplicate for String {
    fn duplicate(&self) -> (copy: Self) {
        self.clone()
    }
}

impl SameView for String {
    fn same_view(&self, other: &Self) -> (same: bool) {
        *self == *other
    }
}

impl<A: Duplicate, B: Duplicate> Duplicate for (A, B) {
    fn duplicate(&self) -> (copy: Self) {
        (self.0.duplicate(), self.1.duplicate())
    }
}

impl<A: SameView, B: SameView> SameView for (A, B) {
    fn same_view(&self, other: &Self) -> (same: bool) {
        self.0.same_view(&other.0) && self.1.same_view(&other.1)
    }
}

/// The value behind an optional reference.
pub open spec fn copied<T>(value: Option<&T>) -> Option<T> {
    match value {
        Some(inner) => Some(*inner),
        None => None,
    }
}

/// The views of the elements of a vector, in order.
pub open spec fn views<T: View>(items: Seq<T>) -> Seq<T::V> {
    items.map_values(|item: T| item@)
}

/// Copies every element of `items`, preserving their views.
pub fn duplicate_vec<T: Duplicate>(items: &Vec<T>) -> (copy: Vec<T>)
    ensures
        copy@.map_values(|x: T| x@) == items@.map_values(|x: T| x@),
{
    let mut copy: Vec<T> = Vec::new();
    let mut index: usize = 0;
    while index < items.len()
        invariant
            index <= items.len(),
            copy@.len() == index,
            forall|k: int| 0 <= k < index ==> copy@[k]@ == items@[k]@,
        decreases items.len() - index,
    {
        copy.push(items[index].duplicate());
        index += 1;
    }
    assert(copy@.map_values(|x: T| x@) =~= items@.map_values(|x: T| x@));
    copy
}

/// Copies a vector of plain values.
pub fn copy_plain_vec<T: Copy>(items: &Vec<T>) -> (copy: Vec<T>)
    ensures
        copy@ == items@,
{
    let mut copy: Vec<T> = Vec::new();
    let mut index: usize = 0;
    while index < items.len()
        invariant
            index <= items.len(),
            copy@ == items@.subrange(0, index as int),
        decreases items.len() - index,
    {
        copy.push(items[index]);
        index += 1;
    }
    assert(copy@ =~= items@);
    copy
}

/// Whether two vectors hold elements with the same views, in order.
pub fn same_view_vec<T: SameView>(left: &Vec<T>, right: &Vec<T>) -> (same: bool)
    ensures
        same == (left@.map_values(|x: T| x@) == right@.map_values(|x: T| x@)),
{
    if left.len() != right.len() {
        assert(left@.map_values(|x: T| x@).len() != right@.map_values(|x: T| x@).len());
        return false;
    }
    let mut index: usize = 0;
    while index < left.len()
        invariant
            index <= left.len(),
            left.len() == right.len(),
            forall|k: int| 0 <= k < index ==> left@[k]@ == right@[k]@,
        decreases left.len() - index,
    {
        if !left[index].same_view(&right[index]) {
            assert(left@.map_values(|x: T| x@)[index as int] != right@.map_values(|x: T| x@)[index as int]);
            return false;
        }
        index += 1;
    }
    assert(left@.map_values(|x: T| x@) =~= right@.map_values(|x: T| x@));
    true
}

/// Whether some element of `items` has the view of `item`.
pub fn contains_view<T: SameView>(items: &Vec<T>, item: &T) -> (found: bool)
    ensures
        found == views(items@).contains(item@),
{
    let mut index: usize = 0;
    while index < items.len()
        invariant
            index <= items.len(),
            forall|k: int| 0 <= k < index ==> items@[k]@ != item@,
        decreases items.len() - index,
    {
        if items[index].same_view(item) {
            assert(views(items@)[index as int] == item@);
            return true;
        }
        index += 1;
    }
    assert(!views(items@).contains(item@)) by {
        if views(items@).contains(item@) {
            let k = choose|k: int| 0 <= k < views(items@).len() && views(items@)[k] == item@;
            assert(items@[k]@ == item@);
        }
    }
    false
}

/// A plain value: copyable, and its own view.
pub trait Plain: View<V = Self> + SameView + Copy {
    proof fn lemma_view_is_self(&self)
        ensures
            self@ == *self,
    ;
}

/// Whether two vectors of plain values are equal.
pub fn same_plain_vec<T: Plain>(left: &Vec<T>, right: &Vec<T>) -> (same: bool)
    ensures
        same == (left@ == right@),
{
    if left.len() != right.len() {
        return false;
    }
    let mut index: usize = 0;
    while index < left.len()
        invariant
            index <= left.len(),
            left.len() == right.len(),
            forall|k: int| 0 <= k < index ==> left@[k] == right@[k],
        decreases left.len() - index,
    {
        if !left[index].same_view(&right[index]) {
            return false;
        }
        proof {
            left@[index as int].lemma_view_is_self();
            right@[index as int].lemma_view_is_self();
        }
        index += 1;
    }
    assert(left@ =~= right@);
    true
}

} // verus!
