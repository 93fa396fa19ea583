//! The price store: a mapping from ordered asset pairs to prices.
//!
//! The store is a vector of entries searched by first match; since an insert
//! overwrites an existing entry in place, each pair occurs at most once. Its
//! mathematical view is the map from pairs to prices, and both operations are
//! specified against that view: `get` is exactly lookup, `insert` is exactly
//! `Map::insert`.

use vstd::prelude::*;
use crate::decimal::Decimal;
use crate::ledger::ResourceAddress;

verus! {

/// An ordered pair (base, quote) of asset identifiers. The order matters:
/// (base, quote) and (quote, base) are distinct keys.
pub type AssetPair = (ResourceAddress, ResourceAddress);

/// One stored price: the latest price of `quote` units per `base` unit.
#[derive(Clone, Copy, PartialEq, Eq, Structural, Debug)]
struct PriceEntry {
    base: ResourceAddress,
    quote: ResourceAddress,
    price: Decimal,
}

/// Whether `e` is the entry for the pair (`base`, `quote`).
spec fn entry_matches(e: PriceEntry, base: ResourceAddress, quote: ResourceAddress) -> bool {
    e.base == base && e.quote == quote
}

/// The price the first entry for (`base`, `quote`) holds, or nothing when no
/// entry is for that pair.
spec fn lookup(s: Seq<PriceEntry>, base: ResourceAddress, quote: ResourceAddress) -> Option<
    Decimal,
>
    decreases s.len(),
{
    if s.len() == 0 {
        None
    } else if entry_matches(s[0], base, quote) {
        Some(s[0].price)
    } else {
        lookup(s.drop_first(), base, quote)
    }
}

/// When the first entry for (`base`, `quote`) stands at `i`, lookup returns
/// its price.
proof fn lemma_lookup_first_match(
    s: Seq<PriceEntry>,
    base: ResourceAddress,
    quote: ResourceAddress,
    i: int,
)
    requires
        0 <= i < s.len(),
        entry_matches(s[i], base, quote),
        forall|j: int| 0 <= j < i ==> !entry_matches(s[j], base, quote),
    ensures
        lookup(s, base, quote) == Some(s[i].price),
    decreases i,
{
    if i > 0 {
        lemma_lookup_first_match(s.drop_first(), base, quote, i - 1);
    }
}

/// When no entry is for (`base`, `quote`), lookup returns nothing.
proof fn lemma_lookup_no_match(s: Seq<PriceEntry>, base: ResourceAddress, quote: ResourceAddress)
    requires
        forall|j: int| 0 <= j < s.len() ==> !entry_matches(s[j], base, quote),
    ensures
        lookup(s, base, quote) == None::<Decimal>,
    decreases s.len(),
{
    if s.len() > 0 {
        lemma_lookup_no_match(s.drop_first(), base, quote);
    }
}

/// Overwriting the first entry for `e`'s pair with `e` changes lookup for
/// that pair to `e`'s price and for no other pair.
proof fn lemma_lookup_after_overwrite(
    s: Seq<PriceEntry>,
    i: int,
    e: PriceEntry,
    base: ResourceAddress,
    quote: ResourceAddress,
)
    requires
        0 <= i < s.len(),
        entry_matches(s[i], e.base, e.quote),
        forall|j: int| 0 <= j < i ==> !entry_matches(s[j], e.base, e.quote),
    ensures
        lookup(s.update(i, e), base, quote) == if base == e.base && quote == e.quote {
            Some(e.price)
        } else {
            lookup(s, base, quote)
        },
    decreases i,
{
    if i == 0 {
        assert(s.update(0, e).drop_first() =~= s.drop_first());
    } else {
        assert(s.update(i, e).drop_first() =~= s.drop_first().update(i - 1, e));
        lemma_lookup_after_overwrite(s.drop_first(), i - 1, e, base, quote);
    }
}

/// Appending an entry for a pair no entry is for changes lookup for that pair
/// to the appended price and for no other pair.
proof fn lemma_lookup_after_push(
    s: Seq<PriceEntry>,
    e: PriceEntry,
    base: ResourceAddress,
    quote: ResourceAddress,
)
    requires
        forall|j: int| 0 <= j < s.len() ==> !entry_matches(s[j], e.base, e.quote),
    ensures
        lookup(s.push(e), base, quote) == if base == e.base && quote == e.quote {
            Some(e.price)
        } else {
            lookup(s, base, quote)
        },
    decreases s.len(),
{
    if s.len() == 0 {
        assert(s.push(e)[0] == e);
        assert(s.push(e).drop_first() =~= Seq::<PriceEntry>::empty());
        assert(lookup(Seq::<PriceEntry>::empty(), base, quote) == None::<Decimal>);
    } else {
        assert(s.push(e)[0] == s[0]);
        assert(s.push(e).drop_first() =~= s.drop_first().push(e));
        lemma_lookup_after_push(s.drop_first(), e, base, quote);
    }
}

/// The mapping from asset pairs to their latest price. Absence of a pair
/// means "never priced".
pub struct PriceStore {
    entries: Vec<PriceEntry>,
}

impl View for PriceStore {
    type V = Map<AssetPair, Decimal>;

    /// The store as the map from each priced pair to its price.
    closed spec fn view(&self) -> Map<AssetPair, Decimal> {
        Map::new(
            |k: AssetPair| lookup(self.entries@, k.0, k.1) is Some,
            |k: AssetPair| lookup(self.entries@, k.0, k.1)->Some_0,
        )
    }
}

impl PriceStore {
    /// An empty store: no pair is priced.
    pub fn new() -> (r: PriceStore)
        ensures
            r@ == Map::<AssetPair, Decimal>::empty(),
    {
        let r = PriceStore { entries: Vec::new() };
        proof {
            assert(r@ =~= Map::<AssetPair, Decimal>::empty());
        }
        r
    }

    /// The stored price of the pair (`base`, `quote`), or nothing when the
    /// pair was never priced.
    pub fn get(&self, base: ResourceAddress, quote: ResourceAddress) -> (r: Option<Decimal>)
        ensures
            r == if self@.contains_key((base, quote)) {
                Some(self@[(base, quote)])
            } else {
                None::<Decimal>
            },
    {
        let n = self.entries.len();
        let mut i: usize = 0;
        while i < n
            invariant
                n == self.entries.len(),
                i <= n,
                forall|j: int| 0 <= j < i ==> !entry_matches(self.entries@[j], base, quote),
            decreases n - i,
        {
            let e = &self.entries[i];
            if e.base == base && e.quote == quote {
                proof {
                    lemma_lookup_first_match(self.entries@, base, quote, i as int);
                }
                return Some(e.price);
            }
            i = i + 1;
        }
        proof {
            lemma_lookup_no_match(self.entries@, base, quote);
        }
        None
    }

    /// Sets the price of the pair (`base`, `quote`), replacing any price the
    /// pair had before and touching no other pair.
    pub fn insert(&mut self, base: ResourceAddress, quote: ResourceAddress, price: Decimal)
        ensures
            final(self)@ == old(self)@.insert((base, quote), price),
    {
        let n = self.entries.len();
        let mut i: usize = 0;
        while i < n
            invariant
                n == self.entries.len(),
                self.entries == old(self).entries,
                i <= n,
                forall|j: int| 0 <= j < i ==> !entry_matches(self.entries@[j], base, quote),
            decreases n - i,
        {
            let e = &self.entries[i];
            if e.base == base && e.quote == quote {
                let entry = PriceEntry { base, quote, price };
                proof {
                    assert forall|b: ResourceAddress, q: ResourceAddress|
                        lookup(old(self).entries@.update(i as int, entry), b, q) == (if b == base
                            && q == quote {
                            Some(price)
                        } else {
                            lookup(old(self).entries@, b, q)
                        }) by {
                        lemma_lookup_after_overwrite(old(self).entries@, i as int, entry, b, q);
                    }
                }
                let slot = vstd::std_specs::vec::vec_index_mut(&mut self.entries, i);
                *slot = entry;
                proof {
                    assert(self@ =~= old(self)@.insert((base, quote), price));
                }
                return;
            }
            i = i + 1;
        }
        let entry = PriceEntry { base, quote, price };
        proof {
            assert forall|b: ResourceAddress, q: ResourceAddress|
                lookup(old(self).entries@.push(entry), b, q) == (if b == base && q == quote {
                    Some(price)
                } else {
                    lookup(old(self).entries@, b, q)
                }) by {
                lemma_lookup_after_push(old(self).entries@, entry, b, q);
            }
        }
        self.entries.push(entry);
        proof {
            assert(self@ =~= old(self)@.insert((base, quote), price));
        }
    }
}

} // verus!
