//! Reading GeckoTerminal replies.

use vstd::prelude::*;
use crate::chain::{TokenQuery, TokenQueryModel};
use crate::reading::{bare, bare_result, check_firm, firm_price, reading_model};
use crate::feed::{find, lookup, Entry, EntryModel, GeckoBody, GeckoBodyModel, PriceText};
use crate::token::{Provider, Rejection, TokenPriceModel, TokenPriceResult};

verus! {

/// The member of the token prices that is the token's: the one under the
/// address as written, or, where there is none, the one under the address
/// in lower case. A member found under the address as written settles the
/// matter even where it is null.
pub open spec fn gecko_listing(
    entries: Seq<EntryModel<Option<PriceText>>>,
    query: TokenQueryModel,
) -> Option<Option<PriceText>> {
    match lookup(entries, query.address) {
        Some(member) => Some(member),
        None => lookup(entries, query.address_key),
    }
}

/// What a GeckoTerminal reply gives: the price of the token, if the reply
/// goes down to token prices that list the token with text that is a number
/// above zero.
pub open spec fn gecko_outcome(body: GeckoBodyModel, query: TokenQueryModel) -> Result<
    TokenPriceModel,
    Rejection,
> {
    match body {
        GeckoBodyModel::NoData => Err(Rejection::MissingData),
        GeckoBodyModel::NoAttributes => Err(Rejection::MissingAttributes),
        GeckoBodyModel::NoTokenPrices => Err(Rejection::MissingTokenPrices),
        GeckoBodyModel::Prices(entries) => match gecko_listing(entries, query) {
            None => Err(Rejection::TokenNotFound),
            Some(None) => Err(Rejection::TokenNotFound),
            Some(Some(text)) => match firm_price(Some(text)) {
                Ok(price) => Ok(bare_result(price, query, Provider::Gecko)),
                Err(rejection) => Err(rejection),
            },
        },
    }
}

fn listing(entries: &Vec<Entry<Option<PriceText>>>, query: &TokenQuery) -> (r: Option<
    Option<PriceText>,
>)
    ensures
        r == gecko_listing(entries.deep_view(), query.deep_view()),
{
    match find(entries, query.address.as_str()) {
        Some(member) => Some(member),
        None => find(entries, query.address_key.as_str()),
    }
}

/// Reads a GeckoTerminal reply.
pub fn read_gecko(body: &GeckoBody, query: &TokenQuery) -> (r: Result<TokenPriceResult, Rejection>)
    ensures
        reading_model(r) == gecko_outcome(body.deep_view(), query.deep_view()),
{
    match body {
        GeckoBody::NoData => Err(Rejection::MissingData),
        GeckoBody::NoAttributes => Err(Rejection::MissingAttributes),
        GeckoBody::NoTokenPrices => Err(Rejection::MissingTokenPrices),
        GeckoBody::Prices(entries) => match listing(entries, query) {
            None => Err(Rejection::TokenNotFound),
            Some(None) => Err(Rejection::TokenNotFound),
            Some(Some(text)) => match check_firm(Some(text)) {
                Ok(price) => Ok(bare(price, query, Provider::Gecko)),
                Err(rejection) => Err(rejection),
            },
        },
    }
}

} // verus!
