//! Typed surrogate identifiers.

use vstd::prelude::*;
use std::marker::PhantomData;
use std::cmp::Ordering;
use vstd::std_specs::cmp::{PartialEqSpecImpl, PartialOrdSpecImpl};
use vstd::std_specs::convert::FromSpecImpl;

verus! {

/// A 64-bit identifier of a record of kind `T`. The kind exists only in the
/// type: identifiers of different kinds cannot be mixed up, and nothing of it
/// is stored. Zero is the default.
pub struct Index<T>(u64, PhantomData<T>);

impl<T> View for Index<T> {
    type V = u64;

    closed spec fn view(&self) -> u64 {
        self.0
    }
}

impl<T> Index<T> {
    /// The identifier with the number `value`.
    pub fn new(value: u64) -> (r: Self)
        ensures
            r@ == value,
    {
        Index(value, PhantomData)
    }

    /// The identifier's number.
    pub fn value(&self) -> (r: u64)
        ensures
            r == self@,
    {
        self.0
    }

    /// The identifier with the same number for records of another kind.
    pub fn into<Y>(self) -> (r: Index<Y>)
        ensures
            r@ == self@,
    {
        Index(self.0, PhantomData)
    }

    /// Two identifiers with the same number are the same identifier.
    pub proof fn lemma_view_is_all(self, other: Self)
        requires
            self@ == other@,
        ensures
            self == other,
    {
    }
}

impl<T> Clone for Index<T> {
    fn clone(&self) -> (r: Self)
        ensures
            r == *self,
    {
        Index(self.0, PhantomData)
    }
}

impl<T> Copy for Index<T> {

}

impl<T> Default for Index<T> {
    fn default() -> (r: Self)
        ensures
            r@ == 0,
    {
        Index(0, PhantomData)
    }
}

impl<T> PartialEq for Index<T> {
    fn eq(&self, other: &Self) -> (r: bool) {
        self.0 == other.0
    }
}

impl<T> Eq for Index<T> {

}

impl<T> PartialEqSpecImpl for Index<T> {
    open spec fn obeys_eq_spec() -> bool {
        true
    }

    open spec fn eq_spec(&self, other: &Self) -> bool {
        self@ == other@
    }
}

/// How two numbers stand to each other.
pub open spec fn order_of(a: u64, b: u64) -> Ordering {
    if a < b {
        Ordering::Less
    } else if a == b {
        Ordering::Equal
    } else {
        Ordering::Greater
    }
}

impl<T> PartialOrd for Index<T> {
    fn partial_cmp(&self, other: &Self) -> (r: Option<Ordering>) {
        if self.0 < other.0 {
            Some(Ordering::Less)
        } else if self.0 == other.0 {
            Some(Ordering::Equal)
        } else {
            Some(Ordering::Greater)
        }
    }
}

impl<T> PartialOrdSpecImpl for Index<T> {
    open spec fn obeys_partial_cmp_spec() -> bool {
        true
    }

    open spec fn partial_cmp_spec(&self, other: &Self) -> Option<Ordering> {
        Some(order_of(self@, other@))
    }
}

impl<T> From<u64> for Index<T> {
    fn from(value: u64) -> (r: Self) {
        Index(value, PhantomData)
    }
}

impl<T> FromSpecImpl<u64> for Index<T> {
    open spec fn obeys_from_spec() -> bool {
        true
    }

    open spec fn from_spec(value: u64) -> Self {
        index_of(value)
    }
}

impl<T> From<u32> for Index<T> {
    fn from(value: u32) -> (r: Self) {
        Index(value as u64, PhantomData)
    }
}

impl<T> FromSpecImpl<u32> for Index<T> {
    open spec fn obeys_from_spec() -> bool {
        true
    }

    open spec fn from_spec(value: u32) -> Self {
        index_of(value as u64)
    }
}

impl<T> From<usize> for Index<T> {
    fn from(value: usize) -> (r: Self) {
        Index(value as u64, PhantomData)
    }
}

impl<T> FromSpecImpl<usize> for Index<T> {
    open spec fn obeys_from_spec() -> bool {
        true
    }

    open spec fn from_spec(value: usize) -> Self {
        index_of(value as u64)
    }
}

impl<T> From<Index<T>> for u64 {
    fn from(value: Index<T>) -> (r: u64) {
        value.0
    }
}

impl<T> FromSpecImpl<Index<T>> for u64 {
    open spec fn obeys_from_spec() -> bool {
        true
    }

    open spec fn from_spec(value: Index<T>) -> u64 {
        value@
    }
}

impl<T> From<Index<T>> for usize {
    fn from(value: Index<T>) -> (r: usize) {
        #[verifier::truncate]
        (value.0 as usize)
    }
}

impl<T> FromSpecImpl<Index<T>> for usize {
    open spec fn obeys_from_spec() -> bool {
        true
    }

    open spec fn from_spec(value: Index<T>) -> usize {
        value@ as usize
    }
}

/// The identifier with the number `value`.
pub closed spec fn index_of<T>(value: u64) -> Index<T> {
    Index(value, PhantomData)
}

/// The identifier made from a number has that number.
pub broadcast proof fn lemma_index_of<T>(value: u64)
    ensures
        #[trigger] index_of::<T>(value)@ == value,
{
}

} // verus!
