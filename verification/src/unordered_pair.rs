//! A pair whose two ends carry no order: `{a, b}` and `{b, a}` are the
//! same pair.
//!
//! The ends are stored exactly as given; equality and hashing are made
//! order-insensitive by hand instead. Equality tries both pairings, and
//! hashing combines the two ends' own hashes symmetrically.

use vstd::prelude::*;
use vstd::std_specs::cmp::PartialEqSpec;
use vstd::std_specs::cmp::PartialEqSpecImpl;

use core::hash::Hash;
use core::hash::Hasher;
use std::collections::hash_map::DefaultHasher;

verus! {

/// An unordered pair of two values of one type.
#[derive(Debug, Clone, Copy)]
pub struct UnorderedPair<T> {
    pub one: T,
    pub two: T,
}

impl<T: Eq> UnorderedPair<T> {
    /// Builds the pair `{one, two}`, keeping the ends as given.
    pub fn new(one: T, two: T) -> (r: UnorderedPair<T>)
        ensures
            r.one == one && r.two == two,
    {
        UnorderedPair::<T> { one, two }
    }

    /// Whether either end of the pair equals `t`.
    pub fn contains(&self, t: &T) -> (r: bool)
        ensures
            T::obeys_eq_spec() ==> r == (self.one.eq_spec(t) || self.two.eq_spec(t)),
    {
        self.one == *t || self.two == *t
    }

    /// Whether the two pairs share no end.
    pub fn disjoint(&self, other: &UnorderedPair<T>) -> (r: bool)
        ensures
            T::obeys_eq_spec() ==> r == (!self.one.eq_spec(&other.one) && !self.two.eq_spec(
                &other.one,
            ) && !self.one.eq_spec(&other.two) && !self.two.eq_spec(&other.two)),
    {
        !self.contains(&other.one) && !self.contains(&other.two)
    }
}

impl<T: PartialEq> PartialEq for UnorderedPair<T> {
    /// Two pairs are equal when their ends match in either order.
    fn eq(&self, other: &UnorderedPair<T>) -> (r: bool) {
        (self.one == other.one && self.two == other.two) || (self.two == other.one
            && self.one == other.two)
    }
}

impl<T: PartialEq> PartialEqSpecImpl for UnorderedPair<T> {
    open spec fn obeys_eq_spec() -> bool {
        T::obeys_eq_spec()
    }

    open spec fn eq_spec(&self, other: &UnorderedPair<T>) -> bool {
        (self.one.eq_spec(&other.one) && self.two.eq_spec(&other.two)) || (self.two.eq_spec(
            &other.one,
        ) && self.one.eq_spec(&other.two))
    }
}

impl<T: Eq> Eq for UnorderedPair<T> {
}

impl<T: Hash> Hash for UnorderedPair<T> {
    /// Relies on `Hash::hash` of `T` and on `DefaultHasher`, whose
    /// `new` instances hash alike: each end is hashed on its own and the
    /// two digests are fed to `state` smaller first, so pairs with the
    /// same ends in either order hash alike.
    #[verifier::external_body]
    fn hash<H: Hasher>(&self, state: &mut H) {
        let mut s1 = DefaultHasher::new();
        self.one.hash(&mut s1);
        let h1 = s1.finish();
        let mut s2 = DefaultHasher::new();
        self.two.hash(&mut s2);
        let h2 = s2.finish();
        h1.min(h2).hash(state);
        h1.max(h2).hash(state);
    }
}

} // verus!
