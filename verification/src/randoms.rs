//! A bounded, appendable sequence of random draws.

use vstd::arithmetic::power2::pow2;
use vstd::prelude::*;

use crate::bigint::{uint_val, Uint256};
use crate::compat::gen_biguint_range;

verus! {

/// Generator of a fixed number of random values from a half-open range.
///
/// For the convenience of probabilistic-primality test harnesses, one
/// value can be appended: it replaces exactly the final draw without
/// changing how many items are yielded.
pub struct Randoms<R, I> {
    /// The pending override for the final item, if any.
    pub appended: Option<I>,
    /// Inclusive lower bound of each draw.
    pub lower_limit: I,
    /// Exclusive upper bound of each draw.
    pub upper_limit: I,
    /// How many items remain to be yielded.
    pub amount: usize,
    /// The owned random source.
    pub rng: R,
}

impl<R: rand::Rng + rand::CryptoRng> Randoms<R, Uint256> {
    /// Well-formedness: the sampling range is non-empty.
    pub open spec fn wf(&self) -> bool {
        uint_val(self.lower_limit) < uint_val(self.upper_limit) && uint_val(self.upper_limit)
            < pow2(256)
    }

    /// Whether a value lies in the generator's sampling range.
    pub open spec fn in_range(&self, v: Uint256) -> bool {
        uint_val(self.lower_limit) <= uint_val(v) < uint_val(self.upper_limit)
    }

    pub fn new(lower_limit: Uint256, upper_limit: Uint256, amount: usize, rng: R) -> (r: Self)
        requires
            uint_val(lower_limit) < uint_val(upper_limit),
            uint_val(upper_limit) < pow2(256),
        ensures
            r.wf(),
            r.appended is None,
            r.lower_limit == lower_limit,
            r.upper_limit == upper_limit,
            r.amount == amount,
    {
        Self { appended: None, lower_limit, upper_limit, amount, rng }
    }

    /// Appends the value that replaces the final draw, so it appears as
    /// if it had been generated. This does not change how many items are
    /// yielded. Only one value can be pending: a later call replaces the
    /// value of an earlier one (last write wins).
    pub fn with_appended(self, x: Uint256) -> (r: Self)
        ensures
            r.appended == Some(x),
            r.lower_limit == self.lower_limit,
            r.upper_limit == self.upper_limit,
            r.amount == self.amount,
    {
        let mut updated = self;
        updated.appended = Some(x);
        updated
    }

    fn gen_biguint(&mut self) -> (r: Uint256)
        requires
            old(self).wf(),
        ensures
            final(self).appended == old(self).appended,
            final(self).lower_limit == old(self).lower_limit,
            final(self).upper_limit == old(self).upper_limit,
            final(self).amount == old(self).amount,
            old(self).in_range(r),
    {
        gen_biguint_range(&mut self.rng, self.lower_limit, self.upper_limit)
    }

    /// Yields the next item: `None` once the configured amount has been
    /// produced; the appended value, if one is pending, in place of the
    /// final draw; a fresh in-range draw otherwise.
    pub fn next(&mut self) -> (r: Option<Uint256>)
        requires
            old(self).wf(),
        ensures
            final(self).lower_limit == old(self).lower_limit,
            final(self).upper_limit == old(self).upper_limit,
            old(self).amount == 0 ==> r is None && final(self).amount == 0 && final(self).appended
                == old(self).appended,
            old(self).amount > 0 ==> final(self).amount == old(self).amount - 1,
            old(self).amount > 1 ==> final(self).appended == old(self).appended && (r matches Some(
                v,
            ) && old(self).in_range(v)),
            old(self).amount == 1 ==> final(self).appended is None && match old(self).appended {
                Some(x) => r == Some(x),
                None => r matches Some(v) && old(self).in_range(v),
            },
    {
        if self.amount == 0 {
            None
        } else if self.amount == 1 {
            let r = match self.appended {
                Some(x) => x,
                None => self.gen_biguint(),
            };
            self.appended = None;
            self.amount = self.amount - 1;
            Some(r)
        } else {
            self.amount = self.amount - 1;
            Some(self.gen_biguint())
        }
    }

    /// Yields all remaining items as a vector: exactly `amount` values.
    /// Every draw lies in the sampling range; a pending appended value
    /// appears as the final item in place of the last draw, whatever the
    /// value is.
    pub fn collect(self) -> (r: Vec<Uint256>)
        requires
            self.wf(),
        ensures
            r@.len() == self.amount,
            forall|j: int| 0 <= j < r@.len() - 1 ==> self.in_range(r@[j]),
            self.amount > 0 ==> match self.appended {
                Some(x) => r@[r@.len() - 1] == x,
                None => self.in_range(r@[r@.len() - 1]),
            },
    {
        let ghost start = self;
        let mut remaining = self;
        let mut items: Vec<Uint256> = Vec::new();
        while remaining.amount > 0
            invariant
                remaining.wf(),
                remaining.lower_limit == start.lower_limit,
                remaining.upper_limit == start.upper_limit,
                items@.len() + remaining.amount == start.amount,
                remaining.amount > 0 ==> remaining.appended == start.appended && forall|j: int|
                    0 <= j < items@.len() ==> start.in_range(items@[j]),
                remaining.amount == 0 && start.amount > 0 ==> (forall|j: int|
                    0 <= j < items@.len() - 1 ==> start.in_range(items@[j])) && match start
                    .appended {
                    Some(x) => items@[items@.len() - 1] == x,
                    None => start.in_range(items@[items@.len() - 1]),
                },
            decreases remaining.amount,
        {
            match remaining.next() {
                Some(v) => items.push(v),
                None => vstd::pervasive::unreached(),
            }
        }
        items
    }
}

/// Law: a later `with_appended` replaces the value of an earlier one.
/// Appending `x` and then `y` leaves only `y` pending, and neither call
/// changes the bounds or the number of items still to be yielded.
pub proof fn lemma_with_appended_last_write_wins<R: rand::Rng + rand::CryptoRng>(
    s0: Randoms<R, Uint256>,
    x: Uint256,
    y: Uint256,
    s1: Randoms<R, Uint256>,
    s2: Randoms<R, Uint256>,
)
    requires
        call_ensures(Randoms::<R, Uint256>::with_appended, (s0, x), s1),
        call_ensures(Randoms::<R, Uint256>::with_appended, (s1, y), s2),
    ensures
        s2.appended == Some(y),
        s2.amount == s0.amount,
        s2.lower_limit == s0.lower_limit,
        s2.upper_limit == s0.upper_limit,
{
}

/// Law: collecting yields exactly the configured number of items,
/// whether or not a value was appended beforehand.
pub proof fn lemma_collect_yields_amount<R: rand::Rng + rand::CryptoRng>(
    s: Randoms<R, Uint256>,
    items: Vec<Uint256>,
)
    requires
        call_ensures(Randoms::<R, Uint256>::collect, (s,), items),
    ensures
        items@.len() == s.amount,
{
}

/// Law: appending a value and then collecting leaves the length
/// unchanged and places the appended value exactly last, with every
/// earlier item drawn from the sampling range.
pub proof fn lemma_appended_value_is_final_item<R: rand::Rng + rand::CryptoRng>(
    s0: Randoms<R, Uint256>,
    v: Uint256,
    s1: Randoms<R, Uint256>,
    items: Vec<Uint256>,
)
    requires
        call_ensures(Randoms::<R, Uint256>::with_appended, (s0, v), s1),
        call_ensures(Randoms::<R, Uint256>::collect, (s1,), items),
    ensures
        items@.len() == s0.amount,
        s0.amount > 0 ==> items@[items@.len() - 1] == v,
        forall|j: int| 0 <= j < items@.len() - 1 ==> s0.in_range(items@[j]),
{
}

} // verus!
