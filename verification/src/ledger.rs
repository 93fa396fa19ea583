//! A model of the host ledger around the oracle.
//!
//! The oracle's surroundings are reduced to what its logic reads: a resource
//! is an address plus a human-readable name, a bucket is a counted amount of
//! one resource, and an access rule decides whether a presented bucket may
//! invoke a method. Amounts are whole numbers because the credential the
//! oracle mints is indivisible. On the real ledger buckets cannot be forged;
//! here the contracts state each decision relative to whatever bucket a
//! caller presents.

use vstd::prelude::*;

verus! {

/// The address identifying one resource on the ledger.
#[derive(Clone, Copy, PartialEq, Eq, Structural, Debug)]
pub struct ResourceAddress {
    /// The position of the resource in the ledger's creation order.
    pub index: usize,
}

/// A counted amount of whole, indivisible units of one resource.
#[derive(PartialEq, Eq, Structural, Debug)]
pub struct Bucket {
    /// The resource the units belong to.
    pub resource: ResourceAddress,
    /// How many units the bucket holds.
    pub amount: u32,
}

impl Bucket {
    /// Splits `n` units off into a new bucket of the same resource, so that a
    /// caller can hand credentials out one by one.
    pub fn take(&mut self, n: u32) -> (r: Bucket)
        requires
            n <= old(self).amount,
        ensures
            r.resource == old(self).resource,
            r.amount == n,
            final(self).resource == old(self).resource,
            final(self).amount == old(self).amount - n,
    {
        self.amount = self.amount - n;
        Bucket { resource: self.resource, amount: n }
    }
}

/// Who may invoke a guarded method.
#[derive(Clone, Copy, PartialEq, Eq, Structural, Debug)]
pub enum AccessRule {
    /// Every caller is allowed.
    AllowAll,
    /// No caller is allowed.
    DenyAll,
    /// Only a caller presenting at least one unit of the named resource is
    /// allowed.
    Require(ResourceAddress),
}

impl AccessRule {
    /// Whether a caller presenting `presented` is allowed by this rule.
    pub open spec fn spec_allows(self, presented: Bucket) -> bool {
        match self {
            AccessRule::AllowAll => true,
            AccessRule::DenyAll => false,
            AccessRule::Require(addr) => presented.resource == addr && presented.amount >= 1,
        }
    }

    /// Decides whether the presented bucket satisfies this rule.
    pub fn check(&self, presented: &Bucket) -> (r: bool)
        ensures
            r == self.spec_allows(*presented),
    {
        match self {
            AccessRule::AllowAll => true,
            AccessRule::DenyAll => false,
            AccessRule::Require(addr) => presented.resource == *addr && presented.amount >= 1,
        }
    }
}

/// The access policy of the oracle: one rule for the guarded write method and
/// one for every other method.
#[derive(Clone, Copy, PartialEq, Eq, Structural, Debug)]
pub struct AccessRules {
    /// The rule evaluated before `update_price` runs.
    pub update_price_rule: AccessRule,
    /// The rule for all other methods.
    pub default_rule: AccessRule,
}

/// The resource subsystem of the host ledger: it defines resource types and
/// mints their initial supply. A resource's address is its position in the
/// creation order, so a newly defined resource never collides with an
/// existing one.
pub struct Ledger {
    names: Vec<String>,
}

impl Ledger {
    /// The names of the resources created so far, in creation order; the
    /// resource at address `i` has name `self.resources()[i]`.
    pub closed spec fn resources(self) -> Seq<Seq<char>> {
        Seq::new(self.names@.len(), |i: int| self.names@[i]@)
    }

    /// A ledger with no resources.
    pub fn new() -> (r: Ledger)
        ensures
            r.resources() == Seq::<Seq<char>>::empty(),
    {
        let r = Ledger { names: Vec::new() };
        proof {
            assert(r.resources() =~= Seq::<Seq<char>>::empty());
        }
        r
    }

    /// Defines a new fungible resource named `name` and mints `supply` whole
    /// units of it. The returned bucket holds the entire supply of a resource
    /// whose address is fresh: no earlier resource has it.
    pub fn new_fungible(&mut self, name: &str, supply: u32) -> (r: Bucket)
        ensures
            final(self).resources() == old(self).resources().push(name@),
            r.resource.index == old(self).resources().len(),
            r.amount == supply,
    {
        let index = self.names.len();
        self.names.push(name.to_owned());
        proof {
            assert(self.resources() =~= old(self).resources().push(name@));
        }
        Bucket { resource: ResourceAddress { index }, amount: supply }
    }

    /// The name of the resource at `addr`, or nothing when no resource with
    /// that address has been created.
    pub fn resource_name(&self, addr: ResourceAddress) -> (r: Option<String>)
        ensures
            match r {
                Some(name) => addr.index < self.resources().len()
                    && name@ == self.resources()[addr.index as int],
                None => addr.index >= self.resources().len(),
            },
    {
        if addr.index < self.names.len() {
            Some(self.names[addr.index].clone())
        } else {
            None
        }
    }
}

} // verus!
