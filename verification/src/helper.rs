//! Searching a slice for a contiguous run of items.

use vstd::prelude::*;
use vstd::std_specs::cmp::PartialEqSpec;

verus! {

/// Whether `needle` occurs in `hay` starting at position `at`, items being
/// compared with their own `==`.
pub open spec fn occurs_at<T: PartialEq>(hay: Seq<T>, needle: Seq<T>, at: int) -> bool {
    &&& 0 <= at
    &&& at + needle.len() <= hay.len()
    &&& forall|j: int| 0 <= j < needle.len() ==> (#[trigger] hay[at + j]).eq_spec(&needle[j])
}

/// Whether `needle` occurs somewhere in `hay` as a contiguous run.
pub open spec fn occurs_in<T: PartialEq>(hay: Seq<T>, needle: Seq<T>) -> bool {
    exists|at: int| occurs_at(hay, needle, at)
}

/// Collections that can be searched for a contiguous run of their items.
pub trait ContainsSlice {
    type Item: PartialEq;

    /// The items of the collection, in order.
    spec fn items(&self) -> Seq<Self::Item>;

    /// Returns whether `slice` occurs in the collection as a contiguous run.
    /// The empty slice occurs in every collection.
    fn contains_slice(&self, slice: &[Self::Item]) -> (found: bool)
        ensures
            slice@.len() == 0 ==> found,
            Self::Item::obeys_eq_spec() ==> found == occurs_in(self.items(), slice@),
    ;
}

/// Whether `needle` matches `hay` at `at`, where `at + needle.len() <= hay.len()`.
fn matches_at<Item: PartialEq>(hay: &[Item], needle: &[Item], at: usize) -> (same: bool)
    requires
        at + needle@.len() <= hay@.len(),
    ensures
        Item::obeys_eq_spec() ==> same == occurs_at(hay@, needle@, at as int),
{
    let hay_len: usize = hay.len();
    let mut j: usize = 0;
    while j < needle.len()
        invariant
            j <= needle@.len(),
            at + needle@.len() <= hay@.len(),
            hay_len == hay@.len(),
            Item::obeys_eq_spec() ==> forall|k: int|
                0 <= k < j ==> (#[trigger] hay@[at + k]).eq_spec(&needle@[k]),
        decreases needle@.len() - j,
    {
        if !(hay[at + j] == needle[j]) {
            return false;
        }
        j += 1;
    }
    true
}

impl<Item: PartialEq> ContainsSlice for [Item] {
    type Item = Item;

    open spec fn items(&self) -> Seq<Item> {
        self@
    }

    fn contains_slice(&self, slice: &[Item]) -> (found: bool) {
        let len = slice.len();
        if len == 0 {
            assert(occurs_at(self@, slice@, 0));
            return true;
        }
        if self.len() < len {
            return false;
        }
        let last: usize = self.len() - len;
        let mut at: usize = 0;
        while at <= last
            invariant
                at <= last + 1,
                0 < len,
                last + len <= usize::MAX,
                last + len == self@.len(),
                len == slice@.len(),
                Item::obeys_eq_spec() ==> forall|k: int|
                    0 <= k < at ==> !occurs_at(self@, slice@, k),
            decreases last + 1 - at,
        {
            if matches_at(self, slice, at) {
                return true;
            }
            at += 1;
        }
        false
    }
}

} // verus!
