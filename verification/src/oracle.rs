//! The oracle component: credential issuance, the write-access policy, and
//! the price store.
//!
//! `instantiate_oracle` mints the admin credential and builds the component
//! with an empty store; `get_price` is an unauthenticated read;
//! `update_price` is allowed only to a caller presenting one unit of the
//! admin credential and sets a pair and its reverse in one step.

use vstd::prelude::*;
use crate::decimal::Decimal;
use crate::ledger::AccessRule;
use crate::ledger::AccessRules;
use crate::ledger::Bucket;
use crate::ledger::Ledger;
use crate::ledger::ResourceAddress;
use crate::store::AssetPair;
use crate::store::PriceStore;

verus! {

/// Why an oracle call failed.
#[derive(Clone, Copy, PartialEq, Eq, Structural, Debug)]
pub enum OracleError {
    /// An argument was outside what the operation accepts: an admin count of
    /// zero, or a price of zero, which has no reciprocal.
    InvalidArgument,
    /// The caller did not present the admin credential the write rule
    /// requires.
    Unauthorized,
}

impl OracleError {
    /// A human-readable description of the failure.
    pub fn message(&self) -> (r: &'static str)
        ensures
            *self is InvalidArgument ==> r@ == "Must have at least one admin"@,
            *self is Unauthorized ==> r@ == "Unauthorized"@,
    {
        match self {
            OracleError::InvalidArgument => "Must have at least one admin",
            OracleError::Unauthorized => "Unauthorized",
        }
    }
}

/// The oracle: the price store, the identity of the admin credential, and
/// the access policy of its methods. The store is the only part that changes
/// after instantiation.
pub struct Oracle {
    /// The latest price of each ordered asset pair.
    pub prices: PriceStore,
    /// The resource whose holders may update prices. The oracle records the
    /// credential's identity only; the minted units belong to the caller of
    /// `instantiate_oracle`.
    pub admin_badge: ResourceAddress,
    /// The access policy: updating prices requires the admin credential,
    /// everything else is open.
    pub access_rules: AccessRules,
}

impl Oracle {
    /// A well-formed oracle guards its write method with exactly its own
    /// admin credential and leaves every other method open.
    pub open spec fn well_formed(self) -> bool {
        &&& self.access_rules.update_price_rule == AccessRule::Require(self.admin_badge)
        &&& self.access_rules.default_rule == AccessRule::AllowAll
    }

    /// The price `get_price` reports for (`base`, `quote`): the stored one,
    /// or nothing for a pair that was never priced.
    pub open spec fn spec_get_price(self, base: ResourceAddress, quote: ResourceAddress) -> Option<
        Decimal,
    > {
        if self.prices@.contains_key((base, quote)) {
            Some(self.prices@[(base, quote)])
        } else {
            None
        }
    }

    /// The store after a successful update of (`base`, `quote`) to `price`:
    /// the pair maps to `price` and the reversed pair to its reciprocal, in
    /// one step.
    pub open spec fn spec_updated(
        self,
        base: ResourceAddress,
        quote: ResourceAddress,
        price: Decimal,
    ) -> Map<AssetPair, Decimal> {
        self.prices@.insert((base, quote), price).insert(
            (quote, base),
            price.spec_reciprocal(),
        )
    }

    /// Creates an Oracle component, along with admin badges.
    ///
    /// With `num_of_admins` of zero the call fails and leaves no trace on the
    /// ledger. Otherwise it defines a fresh credential resource named
    /// "Oracle Admin Badge", mints exactly `num_of_admins` indivisible units
    /// of it into the returned bucket, and returns the component, whose store
    /// is empty and whose write rule requires that credential.
    pub fn instantiate_oracle(ledger: &mut Ledger, num_of_admins: u32) -> (r: Result<
        (Bucket, Oracle),
        OracleError,
    >)
        ensures
            num_of_admins == 0 ==> r == Err::<(Bucket, Oracle), OracleError>(
                OracleError::InvalidArgument,
            ) && *final(ledger) == *old(ledger),
            num_of_admins >= 1 ==> (r matches Ok(bo) && {
                let (badges, oracle) = bo;
                &&& final(ledger).resources() == old(ledger).resources().push(
                    "Oracle Admin Badge"@,
                )
                &&& badges.resource.index == old(ledger).resources().len()
                &&& badges.amount == num_of_admins
                &&& oracle.admin_badge == badges.resource
                &&& oracle.access_rules == (AccessRules {
                    update_price_rule: AccessRule::Require(badges.resource),
                    default_rule: AccessRule::AllowAll,
                })
                &&& oracle.well_formed()
                &&& oracle.prices@ == Map::<AssetPair, Decimal>::empty()
            }),
    {
        if num_of_admins < 1 {
            return Err(OracleError::InvalidArgument);
        }
        let admin_badges = ledger.new_fungible("Oracle Admin Badge", num_of_admins);
        let rules = AccessRules {
            update_price_rule: AccessRule::Require(admin_badges.resource),
            default_rule: AccessRule::AllowAll,
        };
        let oracle = Oracle {
            prices: PriceStore::new(),
            admin_badge: admin_badges.resource,
            access_rules: rules,
        };
        Ok((admin_badges, oracle))
    }

    /// Returns the current price of a resource pair BASE/QUOTE.
    pub fn get_price(&self, base: ResourceAddress, quote: ResourceAddress) -> (r: Option<Decimal>)
        ensures
            r == self.spec_get_price(base, quote),
    {
        self.prices.get(base, quote)
    }

    /// Updates the price of a resource pair BASE/QUOTE and its inverse.
    ///
    /// The write rule is evaluated first: a caller whose bucket it denies is
    /// turned away with the oracle unchanged. A zero price has no reciprocal
    /// and is rejected before any write. Otherwise both directions of the
    /// pair are set in the same step: (`base`, `quote`) to `price` and
    /// (`quote`, `base`) to `1 / price`, truncated toward zero.
    pub fn update_price(
        &mut self,
        auth: &Bucket,
        base: ResourceAddress,
        quote: ResourceAddress,
        price: Decimal,
    ) -> (r: Result<(), OracleError>)
        ensures
            !old(self).access_rules.update_price_rule.spec_allows(*auth) ==> r == Err::<
                (),
                OracleError,
            >(OracleError::Unauthorized) && *final(self) == *old(self),
            old(self).access_rules.update_price_rule.spec_allows(*auth) && price.attos == 0
                ==> r == Err::<(), OracleError>(OracleError::InvalidArgument)
                    && *final(self) == *old(self),
            old(self).access_rules.update_price_rule.spec_allows(*auth) && price.attos != 0 ==> {
                &&& r == Ok::<(), OracleError>(())
                &&& final(self).prices@ == old(self).spec_updated(base, quote, price)
                &&& final(self).admin_badge == old(self).admin_badge
                &&& final(self).access_rules == old(self).access_rules
            },
    {
        if !self.access_rules.update_price_rule.check(auth) {
            return Err(OracleError::Unauthorized);
        }
        if price.attos == 0 {
            return Err(OracleError::InvalidArgument);
        }
        let reciprocal = price.reciprocal();
        self.prices.insert(base, quote, price);
        self.prices.insert(quote, base, reciprocal);
        Ok(())
    }
}

} // verus!
