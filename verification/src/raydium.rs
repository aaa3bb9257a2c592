//! Reading Raydium replies.

use vstd::prelude::*;
use crate::chain::{TokenQuery, TokenQueryModel};
use crate::reading::{bare, bare_result, check_firm, firm_price, reading_model};
use crate::feed::{find, lookup, Entry, EntryModel, PriceText};
use crate::token::{Provider, Rejection, TokenPriceModel, TokenPriceResult};

verus! {

/// What a Raydium reply gives: the price of the mint, if the reply has data
/// that lists the mint with text that is a number above zero.
pub open spec fn raydium_outcome(
    data: Option<Seq<EntryModel<PriceText>>>,
    query: TokenQueryModel,
) -> Result<TokenPriceModel, Rejection> {
    match data {
        None => Err(Rejection::MissingData),
        Some(entries) => match lookup(entries, query.address) {
            None => Err(Rejection::TokenNotFound),
            Some(text) => match firm_price(Some(text)) {
                Ok(price) => Ok(bare_result(price, query, Provider::Raydium)),
                Err(rejection) => Err(rejection),
            },
        },
    }
}

/// Reads a Raydium reply.
pub fn read_raydium(data: &Option<Vec<Entry<PriceText>>>, query: &TokenQuery) -> (r: Result<
    TokenPriceResult,
    Rejection,
>)
    ensures
        reading_model(r) == raydium_outcome(data.deep_view(), query.deep_view()),
{
    match data {
        None => Err(Rejection::MissingData),
        Some(entries) => match find(entries, query.address.as_str()) {
            None => Err(Rejection::TokenNotFound),
            Some(text) => match check_firm(Some(text)) {
                Ok(price) => Ok(bare(price, query, Provider::Raydium)),
                Err(rejection) => Err(rejection),
            },
        },
    }
}

} // verus!
