//! Properties of the oracle that span several operations: what an update
//! leaves readable, that overwriting keeps no stale entries, that a fresh
//! store prices nothing, that a caller without the credential is denied, and
//! the invariant tying each priced pair to its reverse.

use vstd::prelude::*;
use crate::decimal::Decimal;
use crate::ledger::Bucket;
use crate::oracle::Oracle;
use crate::store::AssetPair;
use crate::ledger::ResourceAddress;

verus! {

/// After a successful update of a pair of two distinct assets, the pair
/// reads back the written price and the reversed pair its reciprocal.
///
/// For a pair of one asset with itself the two directions are one key, which
/// the reciprocal write overwrites; such a pair reads back the reciprocal.
pub proof fn lemma_update_reads_back(
    before: Oracle,
    after: Oracle,
    base: ResourceAddress,
    quote: ResourceAddress,
    price: Decimal,
)
    requires
        base != quote,
        after.prices@ == before.spec_updated(base, quote, price),
    ensures
        after.spec_get_price(base, quote) == Some(price),
        after.spec_get_price(quote, base) == Some(price.spec_reciprocal()),
{
}

/// Updating a pair twice leaves exactly the second update's entries: the
/// store equals the one the second update alone would have produced, with no
/// stale price from the first.
pub proof fn lemma_overwrite_leaves_last(
    start: Oracle,
    once: Oracle,
    twice: Oracle,
    base: ResourceAddress,
    quote: ResourceAddress,
    p1: Decimal,
    p2: Decimal,
)
    requires
        once.prices@ == start.spec_updated(base, quote, p1),
        twice.prices@ == once.spec_updated(base, quote, p2),
    ensures
        twice.prices@ == start.spec_updated(base, quote, p2),
{
    assert(twice.prices@ =~= start.spec_updated(base, quote, p2));
}

/// An oracle whose store is empty prices no pair at all: every read reports
/// absence.
pub proof fn lemma_empty_store_unpriced(
    oracle: Oracle,
    base: ResourceAddress,
    quote: ResourceAddress,
)
    requires
        oracle.prices@ == Map::<AssetPair, Decimal>::empty(),
    ensures
        oracle.spec_get_price(base, quote) == None::<Decimal>,
{
}

/// A caller whose bucket is not at least one unit of the admin credential is
/// denied by the write rule of a well-formed oracle; by `update_price`'s
/// contract such a call returns `Unauthorized` and changes nothing.
pub proof fn lemma_non_admin_denied(oracle: Oracle, auth: Bucket)
    requires
        oracle.well_formed(),
        auth.resource != oracle.admin_badge || auth.amount == 0,
    ensures
        !oracle.access_rules.update_price_rule.spec_allows(auth),
{
}

/// The reciprocal-price invariant over a store: every priced pair of two
/// distinct assets has its reverse priced too, and one direction holds the
/// reciprocal of the other. A pair of one asset with itself is a single key
/// and stands outside the relation.
pub open spec fn reciprocal_consistent(m: Map<AssetPair, Decimal>) -> bool {
    forall|base: ResourceAddress, quote: ResourceAddress|
        base != quote && #[trigger] m.contains_key((base, quote))
            ==> m.contains_key((quote, base))
                && (m[(base, quote)] == m[(quote, base)].spec_reciprocal()
                    || m[(quote, base)] == m[(base, quote)].spec_reciprocal())
}

/// An empty store satisfies the reciprocal-price invariant.
pub proof fn lemma_empty_reciprocal_consistent()
    ensures
        reciprocal_consistent(Map::<AssetPair, Decimal>::empty()),
{
}

/// An update preserves the reciprocal-price invariant: it prices both
/// directions of its pair, one the reciprocal of the other, and touches no
/// other pair.
pub proof fn lemma_update_preserves_reciprocal_consistent(
    oracle: Oracle,
    base: ResourceAddress,
    quote: ResourceAddress,
    price: Decimal,
)
    requires
        reciprocal_consistent(oracle.prices@),
    ensures
        reciprocal_consistent(oracle.spec_updated(base, quote, price)),
{
    let m2 = oracle.spec_updated(base, quote, price);
    assert forall|b: ResourceAddress, q: ResourceAddress|
        b != q && #[trigger] m2.contains_key((b, q)) implies m2.contains_key((q, b)) && (m2[
        (b, q)] == m2[(q, b)].spec_reciprocal() || m2[(q, b)] == m2[(b, q)].spec_reciprocal()) by {
        if (b, q) == (base, quote) || (b, q) == (quote, base) {
        } else {
            assert(oracle.prices@.contains_key((b, q)));
        }
    }
}

} // verus!
