//! Reading DexScreener replies: which pair speaks for a token, and what it
//! says.

use vstd::prelude::*;
use crate::amount::Amount;
use crate::chain::TokenQuery;
use crate::feed::{DexBody, DexBodyModel, DexPair, DexPairModel};
use crate::reading::{
    check_firm, firm_price, lenient_price, owned_or_empty, read_lenient, reading_model,
    text_or_empty,
};
use crate::text::{lowercase, same_text, to_lowercase};
use crate::token::{Provider, Rejection, TokenPriceModel, TokenPriceResult};

verus! {

/// What the choice among pairs reads of one pair.
#[derive(Clone, Copy, Debug, PartialEq, Eq, Structural)]
pub struct Candidate {
    /// The pair trades on the chain asked for.
    pub on_chain: bool,
    /// The pair's liquidity in dollars, zero where none is given.
    pub liquidity: Amount,
}

/// The pair names a chain whose lower-case name is `chain_key`.
pub open spec fn on_chain(pair: DexPairModel, chain_key: Seq<char>) -> bool {
    match pair.chain_id {
        Some(chain) => lowercase(chain) == chain_key,
        None => false,
    }
}

/// What the choice reads of a pair, for a chain by its lower-case name.
pub open spec fn candidate_of(pair: DexPairModel, chain_key: Seq<char>) -> Candidate {
    Candidate { on_chain: on_chain(pair, chain_key), liquidity: Amount::or_zero(pair.liquidity_usd) }
}

/// What the choice reads of each pair of a list, in the order of the list.
pub open spec fn candidates_of(pairs: Seq<DexPairModel>, chain_key: Seq<char>) -> Seq<Candidate> {
    Seq::new(pairs.len(), |i: int| candidate_of(pairs[i], chain_key))
}

/// Among the first `count` candidates, the one on the chain that holds
/// against all later ones: walking the list in order, the one held is given
/// up for the next one on the chain unless its liquidity exceeds the next
/// one's. None where no candidate is on the chain.
pub open spec fn deepest_among(candidates: Seq<Candidate>, count: int) -> Option<int>
    decreases count,
{
    if count <= 0 {
        None
    } else {
        let held = deepest_among(candidates, count - 1);
        if !candidates[count - 1].on_chain {
            held
        } else {
            match held {
                None => Some(count - 1),
                Some(h) => if candidates[h].liquidity.exceeds(candidates[count - 1].liquidity) {
                    Some(h)
                } else {
                    Some(count - 1)
                },
            }
        }
    }
}

/// The candidate that speaks for the token: the deepest on the chain, or
/// the first of all where none is on the chain. None for an empty list.
pub open spec fn chosen(candidates: Seq<Candidate>) -> Option<int> {
    match deepest_among(candidates, candidates.len() as int) {
        Some(i) => Some(i),
        None => if candidates.len() > 0 {
            Some(0)
        } else {
            None
        },
    }
}

/// The held candidate is one of those walked and is on the chain; none is
/// held exactly when none walked is on the chain.
pub proof fn lemma_deepest_is_on_chain(candidates: Seq<Candidate>, count: int)
    requires
        0 <= count <= candidates.len(),
    ensures
        match deepest_among(candidates, count) {
            Some(i) => 0 <= i < count && candidates[i].on_chain,
            None => forall|j: int| 0 <= j < count ==> !(#[trigger] candidates[j]).on_chain,
        },
    decreases count,
{
    if count > 0 {
        lemma_deepest_is_on_chain(candidates, count - 1);
    }
}

/// Where every candidate on the chain has a number for its liquidity, the
/// held one has the greatest: no candidate on the chain exceeds it, and it
/// exceeds every one on the chain that comes after it. Of several with the
/// greatest liquidity the last is held.
pub proof fn lemma_deepest_is_greatest(candidates: Seq<Candidate>, count: int)
    requires
        0 <= count <= candidates.len(),
        forall|j: int|
            0 <= j < count && (#[trigger] candidates[j]).on_chain
                ==> !candidates[j].liquidity.is_nan(),
    ensures
        match deepest_among(candidates, count) {
            Some(i) => {
                &&& 0 <= i < count
                &&& candidates[i].on_chain
                &&& forall|j: int|
                    0 <= j < count && (#[trigger] candidates[j]).on_chain
                        ==> !candidates[j].liquidity.exceeds(candidates[i].liquidity)
                &&& forall|j: int|
                    i < j < count && (#[trigger] candidates[j]).on_chain
                        ==> candidates[i].liquidity.exceeds(candidates[j].liquidity)
            },
            None => forall|j: int| 0 <= j < count ==> !(#[trigger] candidates[j]).on_chain,
        },
    decreases count,
{
    if count > 0 {
        lemma_deepest_is_greatest(candidates, count - 1);
    }
}

/// A choice is made exactly when there is a candidate, and it is one of
/// them.
pub proof fn lemma_chosen_in_range(candidates: Seq<Candidate>)
    ensures
        chosen(candidates) is Some <==> candidates.len() > 0,
        chosen(candidates) matches Some(i) ==> 0 <= i < candidates.len(),
{
    lemma_deepest_is_on_chain(candidates, candidates.len() as int);
}

/// What the choice reads of each pair.
pub fn survey(pairs: &Vec<DexPair>, chain_key: &str) -> (candidates: Vec<Candidate>)
    ensures
        candidates@ == candidates_of(pairs.deep_view(), chain_key@),
{
    let mut candidates: Vec<Candidate> = Vec::new();
    let mut i: usize = 0;
    while i < pairs.len()
        invariant
            i <= pairs.len(),
            candidates@.len() == i,
            forall|k: int|
                0 <= k < i ==> candidates@[k] == candidate_of(
                    #[trigger] pairs.deep_view()[k],
                    chain_key@,
                ),
        decreases pairs.len() - i,
    {
        let pair: &DexPair = &pairs[i];
        let matches: bool = match &pair.chain_id {
            Some(chain) => {
                let lowered: String = to_lowercase(chain.as_str());
                same_text(lowered.as_str(), chain_key)
            },
            None => false,
        };
        let liquidity: Amount = Amount::unwrap_or_zero(pair.liquidity_usd);
        assert(pairs.deep_view()[i as int] == pair.deep_view());
        candidates.push(Candidate { on_chain: matches, liquidity });
        i = i + 1;
    }
    assert(candidates@ =~= candidates_of(pairs.deep_view(), chain_key@));
    candidates
}

/// Chooses among candidates.
pub fn pick(candidates: &Vec<Candidate>) -> (choice: Option<usize>)
    ensures
        match choice {
            Some(i) => chosen(candidates@) == Some(i as int),
            None => chosen(candidates@) is None,
        },
{
    let mut held: Option<usize> = None;
    let mut i: usize = 0;
    while i < candidates.len()
        invariant
            i <= candidates.len(),
            match held {
                Some(h) => deepest_among(candidates@, i as int) == Some(h as int) && h < i,
                None => deepest_among(candidates@, i as int) is None,
            },
        decreases candidates.len() - i,
    {
        if candidates[i].on_chain {
            held = match held {
                None => Some(i),
                Some(h) => {
                    if candidates[h].liquidity.check_exceeds(&candidates[i].liquidity) {
                        Some(h)
                    } else {
                        Some(i)
                    }
                },
            };
        }
        i = i + 1;
    }
    match held {
        Some(h) => Some(h),
        None => {
            if candidates.len() > 0 {
                Some(0)
            } else {
                None
            }
        },
    }
}

/// The pair a pair reply is about: the first of its list, or, where the
/// list is missing or empty, its single pair.
pub open spec fn leading_pair(body: DexBodyModel) -> Option<DexPairModel> {
    match body.pairs {
        Some(pairs) => if pairs.len() > 0 {
            Some(pairs[0])
        } else {
            body.pair
        },
        None => body.pair,
    }
}

/// The pair of a token reply that speaks for the token on the chain.
pub open spec fn best_pair(pairs: Seq<DexPairModel>, chain_key: Seq<char>) -> Option<
    DexPairModel,
> {
    match chosen(candidates_of(pairs, chain_key)) {
        Some(i) => Some(pairs[i]),
        None => None,
    }
}

/// The result a pair gives at a price: the pair's change and volume over 24
/// hours, zero where absent, and its address, empty where absent.
pub open spec fn pair_result(pair: DexPairModel, price: Amount) -> TokenPriceModel {
    TokenPriceModel {
        price,
        change_24h: Amount::or_zero(pair.price_change_h24),
        volume_24h: Amount::or_zero(pair.volume_h24),
        pair_address: text_or_empty(pair.pair_address),
        source: Provider::DexScreener,
    }
}

/// What the pair reply gives a price lookup: the leading pair's result, if
/// its price is firm.
pub open spec fn pair_price_outcome(body: DexBodyModel) -> Result<TokenPriceModel, Rejection> {
    match leading_pair(body) {
        None => Err(Rejection::NoPairs),
        Some(pair) => match firm_price(pair.price_usd) {
            Ok(price) => Ok(pair_result(pair, price)),
            Err(rejection) => Err(rejection),
        },
    }
}

/// What the token reply gives a price lookup: the best pair's result, if
/// its price is firm.
pub open spec fn token_price_outcome(body: DexBodyModel, chain_key: Seq<char>) -> Result<
    TokenPriceModel,
    Rejection,
> {
    match body.pairs {
        None => Err(Rejection::NoPairs),
        Some(pairs) => match best_pair(pairs, chain_key) {
            None => Err(Rejection::NoSuitablePair),
            Some(pair) => match firm_price(pair.price_usd) {
                Ok(price) => Ok(pair_result(pair, price)),
                Err(rejection) => Err(rejection),
            },
        },
    }
}

/// What the pair reply gives a statistics lookup: the leading pair's
/// result, whatever its price.
pub open spec fn pair_stats_outcome(body: DexBodyModel) -> Result<TokenPriceModel, Rejection> {
    match leading_pair(body) {
        None => Err(Rejection::NoPairs),
        Some(pair) => Ok(pair_result(pair, lenient_price(pair.price_usd))),
    }
}

/// What the token reply gives a statistics lookup: the best pair's result,
/// whatever its price.
pub open spec fn token_stats_outcome(body: DexBodyModel, chain_key: Seq<char>) -> Result<
    TokenPriceModel,
    Rejection,
> {
    match body.pairs {
        None => Err(Rejection::NoPairs),
        Some(pairs) => match best_pair(pairs, chain_key) {
            None => Err(Rejection::NoSuitablePair),
            Some(pair) => Ok(pair_result(pair, lenient_price(pair.price_usd))),
        },
    }
}

fn result_of(pair: &DexPair, price: Amount) -> (r: TokenPriceResult)
    ensures
        r.deep_view() == pair_result(pair.deep_view(), price),
{
    TokenPriceResult {
        price,
        change_24h: Amount::unwrap_or_zero(pair.price_change_h24),
        volume_24h: Amount::unwrap_or_zero(pair.volume_h24),
        pair_address: owned_or_empty(&pair.pair_address),
        source: Provider::DexScreener,
    }
}

fn leading<'a>(body: &'a DexBody) -> (r: Option<&'a DexPair>)
    ensures
        r.deep_view() == leading_pair(body.deep_view()),
{
    match &body.pairs {
        Some(pairs) => {
            if pairs.len() > 0 {
                assert(pairs.deep_view()[0] == pairs@[0].deep_view());
                Some(&pairs[0])
            } else {
                body.pair.as_ref()
            }
        },
        None => body.pair.as_ref(),
    }
}

fn best<'a>(pairs: &'a Vec<DexPair>, chain_key: &str) -> (r: Option<&'a DexPair>)
    ensures
        r.deep_view() == best_pair(pairs.deep_view(), chain_key@),
{
    let candidates: Vec<Candidate> = survey(pairs, chain_key);
    proof {
        lemma_chosen_in_range(candidates@);
    }
    match pick(&candidates) {
        Some(i) => {
            assert(pairs.deep_view()[i as int] == pairs@[i as int].deep_view());
            Some(&pairs[i])
        },
        None => None,
    }
}

/// Reads the reply of the pair endpoint for a price.
pub fn read_pair_price(body: &DexBody) -> (r: Result<TokenPriceResult, Rejection>)
    ensures
        reading_model(r) == pair_price_outcome(body.deep_view()),
{
    match leading(body) {
        None => Err(Rejection::NoPairs),
        Some(pair) => match check_firm(pair.price_usd) {
            Ok(price) => Ok(result_of(pair, price)),
            Err(rejection) => Err(rejection),
        },
    }
}

/// Reads the reply of the token endpoint for a price.
pub fn read_token_price(body: &DexBody, query: &TokenQuery) -> (r: Result<
    TokenPriceResult,
    Rejection,
>)
    ensures
        reading_model(r) == token_price_outcome(body.deep_view(), query.deep_view().chain_key),
{
    match &body.pairs {
        None => Err(Rejection::NoPairs),
        Some(pairs) => match best(pairs, query.chain_key.as_str()) {
            None => Err(Rejection::NoSuitablePair),
            Some(pair) => match check_firm(pair.price_usd) {
                Ok(price) => Ok(result_of(pair, price)),
                Err(rejection) => Err(rejection),
            },
        },
    }
}

/// Reads the reply of the pair endpoint for statistics.
pub fn read_pair_stats(body: &DexBody) -> (r: Result<TokenPriceResult, Rejection>)
    ensures
        reading_model(r) == pair_stats_outcome(body.deep_view()),
{
    match leading(body) {
        None => Err(Rejection::NoPairs),
        Some(pair) => Ok(result_of(pair, read_lenient(pair.price_usd))),
    }
}

/// Reads the reply of the token endpoint for statistics.
pub fn read_token_stats(body: &DexBody, query: &TokenQuery) -> (r: Result<
    TokenPriceResult,
    Rejection,
>)
    ensures
        reading_model(r) == token_stats_outcome(body.deep_view(), query.deep_view().chain_key),
{
    match &body.pairs {
        None => Err(Rejection::NoPairs),
        Some(pairs) => match best(pairs, query.chain_key.as_str()) {
            None => Err(Rejection::NoSuitablePair),
            Some(pair) => Ok(result_of(pair, read_lenient(pair.price_usd))),
        },
    }
}

} // verus!
