//! What a builder does beside building: bidding, or leaving namespaces to
//! those who bid.

use crate::fee::FeeAmount;
use std::collections::HashSet;
use surf::Url;
use vstd::prelude::*;

verus! {

/// What a reserve builder bids for.
#[derive(Debug)]
pub struct BidConfig {
    /// The namespaces to bid for.
    pub namespaces: Vec<u64>,
    /// The amount of each bid.
    pub amount: FeeAmount,
}

/// How a reserve builder takes part in the auctions of the solver.
#[derive(Debug)]
pub struct EspressoReserveHooks<K> {
    /// The namespaces to bid for.
    pub namespaces: HashSet<u64>,
    /// Where bids go.
    pub solver_api_url: Url,
    /// Where the winner of an auction can be reached.
    pub builder_api_base_url: Url,
    /// Signs the bids.
    pub bid_key_pair: K,
    /// The amount of each bid.
    pub bid_amount: FeeAmount,
}

/// How a fallback builder learns what others have bid for.
#[derive(Debug)]
pub struct EspressoFallbackHooks {
    /// Where the namespaces with bids are asked for.
    pub solver_api_url: Url,
    /// The namespaces to leave to others, once they are known.
    pub namespaces_to_skip: Option<HashSet<u64>>,
}

/// The hooks of a builder of either sort.
#[derive(Debug)]
pub enum BuilderHooks<K> {
    /// Those of a builder that bids.
    Reserve(EspressoReserveHooks<K>),
    /// Those of a builder that serves what nobody has bid for.
    Fallback(EspressoFallbackHooks),
}

/// The namespaces of a list, each once.
pub(crate) fn distinct(namespaces: &Vec<u64>) -> (r: HashSet<u64>)
    ensures
        r@ == namespaces@.to_set(),
{
    broadcast use vstd::std_specs::hash::group_hash_axioms;

    let mut r: HashSet<u64> = HashSet::new();
    let mut i: usize = 0;
    while i < namespaces.len()
        invariant
            i <= namespaces.len(),
            r@ == namespaces@.take(i as int).to_set(),
        decreases namespaces.len() - i,
    {
        broadcast use vstd::seq_lib::group_seq_properties;

        r.insert(namespaces[i]);
        assert(namespaces@.take(i + 1) == namespaces@.take(i as int).push(namespaces@[i as int]));
        i += 1;
    }
    assert(namespaces@.take(i as int) == namespaces@);
    r
}

} // verus!
