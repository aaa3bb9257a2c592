//! What the readers of provider replies share: how a listing's price is
//! judged, and how results are put together.

use vstd::prelude::*;
use crate::amount::Amount;
use crate::chain::{TokenQuery, TokenQueryModel};
use crate::feed::PriceText;
use crate::token::{Provider, Rejection, TokenPriceModel, TokenPriceResult};

verus! {

/// The text, or the empty text where there is none.
pub open spec fn text_or_empty(text: Option<Seq<char>>) -> Seq<char> {
    match text {
        Some(t) => t,
        None => Seq::empty(),
    }
}

/// The price a listing must have to count: present, a number, and above
/// zero.
pub open spec fn firm_price(price: Option<PriceText>) -> Result<Amount, Rejection> {
    match price {
        None => Err(Rejection::MissingPrice),
        Some(PriceText::Invalid) => Err(Rejection::InvalidPrice),
        Some(PriceText::Number(p)) => if p.is_positive() {
            Ok(p)
        } else {
            Err(Rejection::NonPositivePrice)
        },
    }
}

/// The price as far as it is known: the number, or zero.
pub open spec fn lenient_price(price: Option<PriceText>) -> Amount {
    match price {
        Some(PriceText::Number(p)) => p,
        _ => Amount::zero(),
    }
}

/// The result of a provider that reports a price and nothing else: no
/// change, no volume, and the pair that was asked about, if any.
pub open spec fn bare_result(price: Amount, query: TokenQueryModel, source: Provider)
    -> TokenPriceModel {
    TokenPriceModel {
        price,
        change_24h: Amount::zero(),
        volume_24h: Amount::zero(),
        pair_address: text_or_empty(query.pair_address),
        source,
    }
}

/// A lookup's result by its content, where the failure is a rejection.
pub open spec fn reading_model(reading: Result<TokenPriceResult, Rejection>) -> Result<
    TokenPriceModel,
    Rejection,
> {
    match reading {
        Ok(found) => Ok(found.deep_view()),
        Err(rejection) => Err(rejection),
    }
}

/// Judges the price of a listing.
pub fn check_firm(price: Option<PriceText>) -> (r: Result<Amount, Rejection>)
    ensures
        r == firm_price(price),
{
    match price {
        None => Err(Rejection::MissingPrice),
        Some(PriceText::Invalid) => Err(Rejection::InvalidPrice),
        Some(PriceText::Number(p)) => {
            if p.check_positive() {
                Ok(p)
            } else {
                Err(Rejection::NonPositivePrice)
            }
        },
    }
}

/// Reads the price of a listing as far as it is known.
pub fn read_lenient(price: Option<PriceText>) -> (r: Amount)
    ensures
        r == lenient_price(price),
{
    match price {
        Some(PriceText::Number(p)) => p,
        _ => Amount::new_zero(),
    }
}

/// A copy of the text, or the empty text where there is none.
pub fn owned_or_empty(text: &Option<String>) -> (r: String)
    ensures
        r@ == text_or_empty(text.deep_view()),
{
    match text {
        Some(t) => t.clone(),
        None => String::new(),
    }
}

/// The pair asked about, or the empty text.
pub fn pair_or_empty(query: &TokenQuery) -> (r: String)
    ensures
        r@ == text_or_empty(query.deep_view().pair_address),
{
    owned_or_empty(&query.pair_address)
}

/// Builds the result of a provider that reports a price and nothing else.
pub fn bare(price: Amount, query: &TokenQuery, source: Provider) -> (r: TokenPriceResult)
    ensures
        r.deep_view() == bare_result(price, query.deep_view(), source),
{
    TokenPriceResult {
        price,
        change_24h: Amount::new_zero(),
        volume_24h: Amount::new_zero(),
        pair_address: pair_or_empty(query),
        source,
    }
}

} // verus!
