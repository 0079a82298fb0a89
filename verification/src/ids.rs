//! The numbers that the registry gives its add-ons: each new add-on gets the
//! smallest positive number that no other holds.

use vstd::prelude::*;
use crate::addon::{Addon, AddonView};

verus! {

/// `n` is among `used`.
pub open spec fn uses(used: Seq<u32>, n: int) -> bool {
    exists|i: int| 0 <= i < used.len() && used[i] == n
}

/// `n` is positive and free, and every positive number below it is taken.
pub open spec fn is_smallest_unused(used: Seq<u32>, n: int) -> bool {
    &&& 1 <= n
    &&& !uses(used, n)
    &&& forall|m: int| 1 <= m < n ==> uses(used, m)
}

/// The smallest positive number that is not among `used`.
pub open spec fn smallest_unused(used: Seq<u32>) -> int {
    choose|n: int| is_smallest_unused(used, n)
}

/// A sequence that holds each of 1, .., `k` has at least `k` items.
pub proof fn used_range_fits(used: Seq<u32>, k: int)
    requires
        forall|m: int| 1 <= m <= k ==> uses(used, m),
    ensures
        k <= used.len(),
    decreases k,
{
    if k >= 1 {
        assert(uses(used, k));
        let at = choose|i: int| 0 <= i < used.len() && used[i] == k;
        let rest = used.remove(at);
        assert forall|m: int| 1 <= m <= k - 1 implies uses(rest, m) by {
            assert(uses(used, m));
            let j = choose|j: int| 0 <= j < used.len() && used[j] == m;
            if j < at {
                assert(rest[j] == used[j]);
            } else {
                assert(rest[j - 1] == used[j]);
            }
        }
        used_range_fits(rest, k - 1);
    }
}

/// From `k` on, with everything below `k` taken, a free number is found
/// before the items of `used` run out.
proof fn unused_from(used: Seq<u32>, k: int) -> (n: int)
    requires
        1 <= k,
        forall|m: int| 1 <= m < k ==> uses(used, m),
    ensures
        is_smallest_unused(used, n),
        k <= n <= used.len() + 1,
    decreases used.len() + 1 - k,
{
    used_range_fits(used, k - 1);
    if uses(used, k) {
        used_range_fits(used, k);
        unused_from(used, k + 1)
    } else {
        k
    }
}

/// The smallest unused number is what its name says, it is at most one more
/// than the count of the used ones, and no other number is the smallest unused.
pub proof fn smallest_unused_is_unique(used: Seq<u32>)
    ensures
        is_smallest_unused(used, smallest_unused(used)),
        smallest_unused(used) <= used.len() + 1,
        forall|n: int| is_smallest_unused(used, n) ==> n == smallest_unused(used),
{
    let found = unused_from(used, 1);
    let least = smallest_unused(used);
    assert(is_smallest_unused(used, least));
    assert forall|n: int| is_smallest_unused(used, n) implies n == least by {
        if n < least {
            assert(uses(used, n));
        } else if least < n {
            assert(uses(used, least));
        }
    }
}

/// Whether `n` is among `ids`.
pub fn holds(ids: &Vec<u32>, n: u32) -> (r: bool)
    ensures
        r == uses(ids@, n as int),
{
    let mut i: usize = 0;
    while i < ids.len()
        invariant
            i <= ids.len(),
            forall|j: int| 0 <= j < i ==> ids@[j] != n,
        decreases ids.len() - i,
    {
        if ids[i] == n {
            return true;
        }
        i += 1;
    }
    false
}

/// An add-on without a number gets one where `used` are taken: it has none
/// yet, and the smallest unused number fits 32 bits.
pub open spec fn gets_number(addon: AddonView, used: Seq<u32>) -> bool {
    addon.id == 0 && smallest_unused(used) <= u32::MAX
}

/// The descriptor with the number it gets where `used` are taken: the
/// smallest unused one. A descriptor that has a number keeps it, and one for
/// which no number is left stays without.
pub open spec fn numbered(addon: AddonView, used: Seq<u32>) -> AddonView {
    if gets_number(addon, used) {
        AddonView { id: smallest_unused(used) as u32, ..addon }
    } else {
        addon
    }
}

/// The numbers taken once `addon` has got its number.
pub open spec fn taken(addon: AddonView, used: Seq<u32>) -> Seq<u32> {
    if gets_number(addon, used) {
        used.push(smallest_unused(used) as u32)
    } else {
        used
    }
}

impl Addon {
    /// Gives an add-on without a number the smallest positive number that is
    /// not among `ids`, and returns `ids` with that number added. An add-on
    /// that has a number keeps it, and `ids` comes back unchanged; so it is
    /// where `ids` leave no number of 32 bits free.
    pub fn set_id(&mut self, mut ids: Vec<u32>) -> (r: Vec<u32>)
        ensures
            final(self)@ == numbered(old(self)@, ids@),
            r@ == taken(old(self)@, ids@),
            gets_number(old(self)@, ids@) ==> is_smallest_unused(ids@, final(self).id as int),
            ids.len() < u32::MAX ==> final(self).id != 0,
    {
        if self.id != 0 {
            return ids;
        }
        let mut i: u32 = 1;
        while holds(&ids, i)
            invariant
                1 <= i,
                *self == *old(self),
                forall|m: int| 1 <= m < i ==> uses(ids@, m),
            decreases u32::MAX - i,
        {
            if i == u32::MAX {
                proof {
                    smallest_unused_is_unique(ids@);
                    used_range_fits(ids@, u32::MAX as int);
                }
                return ids;
            }
            i += 1;
        }
        proof {
            smallest_unused_is_unique(ids@);
        }
        self.id = i;
        ids.push(i);
        ids
    }
}

} // verus!
