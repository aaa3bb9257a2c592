//! Reading Jupiter replies.

use vstd::prelude::*;
use crate::amount::Amount;
use crate::chain::{TokenQuery, TokenQueryModel};
use crate::reading::{pair_or_empty, reading_model, text_or_empty};
use crate::feed::{find, lookup, Entry, EntryModel, JupiterPrice};
use crate::token::{Provider, Rejection, TokenPriceModel, TokenPriceResult};

verus! {

/// What a Jupiter reply gives: the price of the mint, if the reply lists
/// the mint with a price above zero, and the change it reports over 24
/// hours, zero where absent. Jupiter reports no volume and no pair; the
/// pair is the one asked about, if any.
pub open spec fn jupiter_outcome(
    entries: Seq<EntryModel<JupiterPrice>>,
    query: TokenQueryModel,
) -> Result<TokenPriceModel, Rejection> {
    match lookup(entries, query.address) {
        None => Err(Rejection::TokenNotFound),
        Some(listing) => match listing.usd_price {
            None => Err(Rejection::MissingPrice),
            Some(price) => if price.is_positive() {
                Ok(
                    TokenPriceModel {
                        price,
                        change_24h: Amount::or_zero(listing.price_change_24h),
                        volume_24h: Amount::zero(),
                        pair_address: text_or_empty(query.pair_address),
                        source: Provider::Jupiter,
                    },
                )
            } else {
                Err(Rejection::NonPositivePrice)
            },
        },
    }
}

/// Reads a Jupiter reply.
pub fn read_jupiter(entries: &Vec<Entry<JupiterPrice>>, query: &TokenQuery) -> (r: Result<
    TokenPriceResult,
    Rejection,
>)
    ensures
        reading_model(r) == jupiter_outcome(entries.deep_view(), query.deep_view()),
{
    match find(entries, query.address.as_str()) {
        None => Err(Rejection::TokenNotFound),
        Some(listing) => match listing.usd_price {
            None => Err(Rejection::MissingPrice),
            Some(price) => {
                if price.check_positive() {
                    Ok(
                        TokenPriceResult {
                            price,
                            change_24h: Amount::unwrap_or_zero(listing.price_change_24h),
                            volume_24h: Amount::new_zero(),
                            pair_address: pair_or_empty(query),
                            source: Provider::Jupiter,
                        },
                    )
                } else {
                    Err(Rejection::NonPositivePrice)
                }
            },
        },
    }
}

} // verus!
