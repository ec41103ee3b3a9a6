//! The contract's persistent state: the owner registry and the price table.
//!
//! The state is an explicit value handed to every handler, so each test or
//! host binding can supply its own isolated store. The price table is kept
//! as a vector of entries with pairwise-distinct symbols; its meaning is the
//! finite map [`price_map_of`] over the symbols' character sequences.

use vstd::prelude::*;

use crate::error::ContractError;

verus! {

/// The owner registry's single record: the identity fixed at initialization,
/// the only principal allowed to write prices.
#[derive(Debug)]
pub struct OwnerData {
    pub owner: String,
}

/// The whole persistent state of one contract instance.
///
/// `owner` is `None` exactly while the instance is uninitialized; `prices`
/// holds one entry per symbol that was ever written.
pub struct Store {
    pub owner: Option<OwnerData>,
    pub prices: Vec<(String, u128)>,
}

/// The finite map an entry list denotes: each symbol's characters to the
/// price stored under it. Later entries win, though a well-formed store
/// never holds two entries for one symbol.
pub open spec fn price_map_of(entries: Seq<(String, u128)>) -> Map<Seq<char>, u128>
    decreases entries.len(),
{
    if entries.len() == 0 {
        Map::empty()
    } else {
        price_map_of(entries.drop_last()).insert(entries.last().0@, entries.last().1)
    }
}

/// No two entries share a symbol.
pub open spec fn unique_symbols(entries: Seq<(String, u128)>) -> bool {
    forall|i: int, j: int|
        0 <= i < j < entries.len() ==> entries[i].0@ != entries[j].0@
}

impl Store {
    /// The price table as a map from symbol characters to price.
    pub open spec fn prices_map(self) -> Map<Seq<char>, u128> {
        price_map_of(self.prices@)
    }

    /// The registered owner's identity, if initialization has happened.
    pub open spec fn owner_view(self) -> Option<Seq<char>> {
        match self.owner {
            Some(data) => Some(data.owner@),
            None => None,
        }
    }

    /// Initialization has happened: the owner record exists.
    pub open spec fn initialized(self) -> bool {
        self.owner is Some
    }

    /// Well-formedness: symbols are pairwise distinct and no stored price
    /// is zero. Constructors establish it and every handler preserves it.
    pub open spec fn wf(self) -> bool {
        &&& unique_symbols(self.prices@)
        &&& forall|i: int| 0 <= i < self.prices@.len() ==> self.prices@[i].1 != 0
    }

    /// A fresh, uninitialized store with an empty price table.
    pub fn new() -> (s: Store)
        ensures
            s.wf(),
            !s.initialized(),
            s.prices_map() == Map::<Seq<char>, u128>::empty(),
    {
        Store { owner: None, prices: Vec::new() }
    }

    /// Whether `caller` is the registered owner. Meaningful only once
    /// initialization has happened, which the host guarantees precedes
    /// every other request.
    pub fn is_owner(&self, caller: &String) -> (r: bool)
        requires
            self.initialized(),
        ensures
            r == (self.owner_view() == Some(caller@)),
    {
        match &self.owner {
            Some(data) => *caller == data.owner,
            None => false,
        }
    }

    /// Pure lookup in the price table.
    ///
    /// Returns the stored price, or `NotFound` exactly when no entry for
    /// `symbol` exists.
    pub fn get(&self, symbol: &String) -> (r: Result<u128, ContractError>)
        requires
            self.wf(),
        ensures
            match r {
                Ok(p) => self.prices_map().contains_key(symbol@) && p == self.prices_map()[symbol@],
                Err(e) => e == ContractError::NotFound && !self.prices_map().contains_key(symbol@),
            },
    {
        let n = self.prices.len();
        let mut i: usize = 0;
        while i < n
            invariant
                n == self.prices@.len(),
                i <= n,
                forall|j: int| 0 <= j < i ==> self.prices@[j].0@ != symbol@,
                self.wf(),
            decreases n - i,
        {
            if self.prices[i].0 == *symbol {
                proof {
                    lemma_price_map_found(self.prices@, i as int);
                }
                return Ok(self.prices[i].1);
            }
            i += 1;
        }
        proof {
            lemma_price_map_domain(self.prices@, symbol@);
        }
        Err(ContractError::NotFound)
    }

    /// Store `price` under `symbol`, replacing any prior entry.
    ///
    /// Rejects a zero price with `InvalidZeroAmount` and leaves the store
    /// untouched; otherwise the table becomes the old table with `symbol`
    /// bound to `price`, and the owner record is unchanged.
    pub fn set(&mut self, symbol: String, price: u128) -> (r: Result<(), ContractError>)
        requires
            old(self).wf(),
        ensures
            final(self).wf(),
            final(self).owner == old(self).owner,
            match r {
                Ok(()) => price != 0 && final(self).prices_map() == old(self).prices_map().insert(
                    symbol@,
                    price,
                ),
                Err(e) => e == ContractError::InvalidZeroAmount && price == 0 && *final(self)
                    == *old(self),
            },
    {
        if price == 0 {
            return Err(ContractError::InvalidZeroAmount);
        }
        let n = self.prices.len();
        let mut i: usize = 0;
        while i < n
            invariant
                n == self.prices@.len(),
                i <= n,
                forall|j: int| 0 <= j < i ==> self.prices@[j].0@ != symbol@,
                self.wf(),
                *self == *old(self),
                price != 0,
            decreases n - i,
        {
            if self.prices[i].0 == symbol {
                let ghost entries = self.prices@;
                let existing = self.prices[i].0.clone();
                self.prices[i] = (existing, price);
                proof {
                    assert(self.prices@ =~= entries.update(i as int, (entries[i as int].0, price)));
                    lemma_price_map_update(entries, i as int, (entries[i as int].0, price));
                    assert(unique_symbols(self.prices@)) by {
                        assert forall|a: int, b: int|
                            0 <= a < b < self.prices@.len() implies self.prices@[a].0@
                            != self.prices@[b].0@ by {
                            assert(entries[a].0@ == self.prices@[a].0@);
                            assert(entries[b].0@ == self.prices@[b].0@);
                        }
                    }
                    assert forall|k: int|
                        0 <= k < self.prices@.len() implies self.prices@[k].1 != 0 by {
                        if k != i as int {
                            assert(self.prices@[k] == entries[k]);
                        }
                    }
                }
                return Ok(());
            }
            i += 1;
        }
        let ghost entries = self.prices@;
        self.prices.push((symbol, price));
        proof {
            lemma_price_map_push(entries, (symbol, price));
        }
        Ok(())
    }
}

/// A symbol is in the table's map exactly when some entry carries it.
pub proof fn lemma_price_map_domain(entries: Seq<(String, u128)>, k: Seq<char>)
    ensures
        price_map_of(entries).contains_key(k) <==> exists|i: int|
            0 <= i < entries.len() && entries[i].0@ == k,
    decreases entries.len(),
{
    if entries.len() > 0 {
        lemma_price_map_domain(entries.drop_last(), k);
        if entries.last().0@ == k {
            assert(entries[entries.len() - 1].0@ == k);
        } else {
            if exists|i: int| 0 <= i < entries.len() && entries[i].0@ == k {
                let i = choose|i: int| 0 <= i < entries.len() && entries[i].0@ == k;
                assert(entries.drop_last()[i].0@ == k);
            }
        }
    }
}

/// With distinct symbols, the map sends each entry's symbol to its price.
pub proof fn lemma_price_map_found(entries: Seq<(String, u128)>, i: int)
    requires
        unique_symbols(entries),
        0 <= i < entries.len(),
    ensures
        price_map_of(entries).contains_key(entries[i].0@),
        price_map_of(entries)[entries[i].0@] == entries[i].1,
    decreases entries.len(),
{
    if i < entries.len() - 1 {
        assert(unique_symbols(entries.drop_last())) by {
            assert forall|a: int, b: int|
                0 <= a < b < entries.drop_last().len() implies entries.drop_last()[a].0@
                != entries.drop_last()[b].0@ by {
                assert(entries.drop_last()[a] == entries[a]);
                assert(entries.drop_last()[b] == entries[b]);
            }
        }
        lemma_price_map_found(entries.drop_last(), i);
        assert(entries.drop_last()[i] == entries[i]);
        assert(entries[i].0@ != entries.last().0@);
    }
}

/// Overwriting one entry's price turns the map into an insert of the new
/// price at that entry's symbol.
pub proof fn lemma_price_map_update(entries: Seq<(String, u128)>, i: int, v: (String, u128))
    requires
        unique_symbols(entries),
        0 <= i < entries.len(),
        v.0@ == entries[i].0@,
    ensures
        price_map_of(entries.update(i, v)) == price_map_of(entries).insert(v.0@, v.1),
    decreases entries.len(),
{
    let upd = entries.update(i, v);
    if i == entries.len() - 1 {
        assert(upd.drop_last() =~= entries.drop_last());
        assert(upd.last() == v);
        assert(price_map_of(upd) =~= price_map_of(entries).insert(v.0@, v.1));
    } else {
        assert(upd.drop_last() =~= entries.drop_last().update(i, v));
        assert(upd.last() == entries.last());
        assert(unique_symbols(entries.drop_last())) by {
            assert forall|a: int, b: int|
                0 <= a < b < entries.drop_last().len() implies entries.drop_last()[a].0@
                != entries.drop_last()[b].0@ by {
                assert(entries.drop_last()[a] == entries[a]);
                assert(entries.drop_last()[b] == entries[b]);
            }
        }
        assert(entries.drop_last()[i] == entries[i]);
        lemma_price_map_update(entries.drop_last(), i, v);
        assert(v.0@ != entries.last().0@);
        assert(price_map_of(upd) =~= price_map_of(entries).insert(v.0@, v.1));
    }
}

/// Appending an entry turns the map into an insert of its price at its
/// symbol.
pub proof fn lemma_price_map_push(entries: Seq<(String, u128)>, v: (String, u128))
    ensures
        price_map_of(entries.push(v)) == price_map_of(entries).insert(v.0@, v.1),
{
    assert(entries.push(v).drop_last() =~= entries);
    assert(entries.push(v).last() == v);
}

} // verus!
