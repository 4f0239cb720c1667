//! The public read queries over the registry: the whole list, its size, and
//! pages of it.
use crate::storage::{registry_get, registry_len, registry_to_vec, store_intact, MarketFactory};
use near_sdk::AccountId;
use vstd::prelude::*;

verus! {

/// The exclusive end of the page that starts at `start` and holds at most
/// `limit` elements of a registry of `len` elements.
pub open spec fn page_end(len: nat, start: u64, limit: u64) -> int {
    if start + limit < len {
        start + limit
    } else {
        len as int
    }
}

/// The elements of `s` from index `start` on, at most `limit` of them, in
/// order; empty when `start` lies at or past the end.
pub open spec fn page_of<T>(s: Seq<T>, start: u64, limit: u64) -> Seq<T> {
    if start >= s.len() {
        Seq::empty()
    } else {
        s.subrange(start as int, page_end(s.len(), start, limit))
    }
}

/// A page never holds more than `limit` elements.
pub proof fn lemma_page_within_limit(factory: MarketFactory, start: u64, limit: u64)
    ensures
        page_of(factory@, start, limit).len() <= limit,
{
}

/// A page that starts at or past the end of the registry is empty, whatever
/// its limit.
pub proof fn lemma_page_past_end_is_empty(factory: MarketFactory, start: u64, limit: u64)
    requires
        start >= factory@.len(),
    ensures
        page_of(factory@, start, limit) == Seq::<AccountId>::empty(),
{
}

/// A page with limit zero is empty, wherever it starts.
pub proof fn lemma_page_of_limit_zero_is_empty(factory: MarketFactory, start: u64)
    ensures
        page_of(factory@, start, 0) == Seq::<AccountId>::empty(),
{
    assert(page_of(factory@, start, 0) =~= Seq::<AccountId>::empty());
}

/// The page that starts at zero and is as long as the registry is the whole
/// registry, in the same order.
pub proof fn lemma_full_page_is_whole_list(factory: MarketFactory)
    requires
        factory@.len() <= u64::MAX,
    ensures
        page_of(factory@, 0, factory@.len() as u64) == factory@,
{
    if factory@.len() > 0 {
        assert(page_of(factory@, 0, factory@.len() as u64) =~= factory@);
    } else {
        assert(page_of(factory@, 0, 0) =~= factory@);
    }
}

/// A page holds no more than the elements that lie from its start to the end
/// of the registry, and none when it starts at or past the end; this holds
/// for every limit, the largest one included.
pub proof fn lemma_page_within_remaining(factory: MarketFactory, start: u64, limit: u64)
    ensures
        start >= factory@.len() ==> page_of(factory@, start, limit).len() == 0,
        start < factory@.len() ==> page_of(factory@, start, limit).len() <= factory@.len() - start,
{
}

/// The first `k` elements followed by the page of everything after them give
/// back the whole registry.
pub proof fn lemma_pages_partition(factory: MarketFactory, k: u64)
    requires
        k <= factory@.len() <= u64::MAX,
    ensures
        page_of(factory@, 0, k) + page_of(factory@, k, (factory@.len() - k) as u64) == factory@,
{
    let s = factory@;
    let rest = (s.len() - k) as u64;
    if s.len() == 0 {
        assert(page_of(s, 0, k) + page_of(s, k, rest) =~= s);
    } else if k == s.len() {
        assert(page_of(s, 0, k) =~= s);
        assert(page_of(s, 0, k) + page_of(s, k, rest) =~= s);
    } else {
        assert(page_of(s, 0, k) =~= s.subrange(0, k as int));
        assert(page_of(s, k, rest) =~= s.subrange(k as int, s.len() as int));
        assert(page_of(s, 0, k) + page_of(s, k, rest) =~= s);
    }
}

impl MarketFactory {
    /// Every registered market, in the order of registration, read from an
    /// intact store.
    pub fn get_markets_list(&self) -> (r: Vec<AccountId>)
        requires
            store_intact(self.markets),
        ensures
            r@ == self@,
    {
        registry_to_vec(&self.markets)
    }

    /// The number of registered markets.
    pub fn get_markets_count(&self) -> (r: u64)
        ensures
            r == self@.len(),
    {
        registry_len(&self.markets)
    }

    /// The markets from index `from_index` on, at most `limit` of them, in
    /// registry order. On an intact store it never fails: an index past the
    /// end gives an empty page, and `from_index + limit` saturates instead of
    /// overflowing.
    pub fn get_markets(&self, from_index: u64, limit: u64) -> (r: Vec<AccountId>)
        requires
            store_intact(self.markets),
        ensures
            r@ == page_of(self@, from_index, limit),
            r@.len() <= limit,
    {
        let elements = &self.markets;
        let len = registry_len(elements);
        let wanted_end = from_index.saturating_add(limit);
        let end = if wanted_end < len {
            wanted_end
        } else {
            len
        };
        let mut r: Vec<AccountId> = Vec::new();
        if from_index >= end {
            return r;
        }
        let mut index: u64 = from_index;
        while index < end
            invariant
                from_index <= index <= end,
                end == page_end(self@.len(), from_index, limit),
                end <= self@.len(),
                elements == &self.markets,
                store_intact(self.markets),
                r@ == self@.subrange(from_index as int, index as int),
            decreases end - index,
        {
            // Only an index at or past the recorded length reads as absent,
            // and the loop stays below it; an absent entry would be skipped.
            match registry_get(elements, index) {
                Some(market) => r.push(market),
                None => {},
            }
            index = index + 1;
        }
        r
    }
}

} // verus!
