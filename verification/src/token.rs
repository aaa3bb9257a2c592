//! What a token price lookup returns: a price with its source, or the
//! reason a provider could not be used.

use vstd::prelude::*;
use crate::amount::Amount;
use crate::text::join;

verus! {

/// The providers of token prices.
#[derive(Clone, Copy, Debug, PartialEq, Eq, Structural)]
pub enum Provider {
    Jupiter,
    Raydium,
    Gecko,
    DexScreener,
}

/// The identifier under which a provider appears as the source of a price.
pub open spec fn provider_name(provider: Provider) -> Seq<char> {
    match provider {
        Provider::Jupiter => "jupiter"@,
        Provider::Raydium => "raydium"@,
        Provider::Gecko => "gecko"@,
        Provider::DexScreener => "dexscreener"@,
    }
}

/// The provider's name as it opens an error message.
pub open spec fn provider_title(provider: Provider) -> Seq<char> {
    match provider {
        Provider::Jupiter => "Jupiter"@,
        Provider::Raydium => "Raydium"@,
        Provider::Gecko => "Gecko"@,
        Provider::DexScreener => "DexScreener"@,
    }
}

impl Provider {
    /// The identifier under which the provider appears as a source.
    pub fn name(&self) -> (r: &'static str)
        ensures
            r@ == provider_name(*self),
    {
        match self {
            Provider::Jupiter => "jupiter",
            Provider::Raydium => "raydium",
            Provider::Gecko => "gecko",
            Provider::DexScreener => "dexscreener",
        }
    }

    /// The provider's name as it opens an error message.
    pub fn title(&self) -> (r: &'static str)
        ensures
            r@ == provider_title(*self),
    {
        match self {
            Provider::Jupiter => "Jupiter",
            Provider::Raydium => "Raydium",
            Provider::Gecko => "Gecko",
            Provider::DexScreener => "DexScreener",
        }
    }
}

/// A token price as the caller receives it.
#[derive(Clone, Debug, PartialEq, Eq)]
pub struct TokenPriceResult {
    pub price: Amount,
    pub change_24h: Amount,
    pub volume_24h: Amount,
    /// Empty where the pair is unknown.
    pub pair_address: String,
    pub source: Provider,
}

/// The mathematical content of a [`TokenPriceResult`].
pub struct TokenPriceModel {
    pub price: Amount,
    pub change_24h: Amount,
    pub volume_24h: Amount,
    pub pair_address: Seq<char>,
    pub source: Provider,
}

impl DeepView for TokenPriceResult {
    type V = TokenPriceModel;

    open spec fn deep_view(&self) -> TokenPriceModel {
        TokenPriceModel {
            price: self.price,
            change_24h: self.change_24h,
            volume_24h: self.volume_24h,
            pair_address: self.pair_address@,
            source: self.source,
        }
    }
}

/// Why a well-formed reply was turned down.
#[derive(Clone, Copy, Debug, PartialEq, Eq, Structural)]
pub enum Rejection {
    /// The chain has no network name at the provider.
    UnsupportedChain,
    /// The reply has no `data` member.
    MissingData,
    /// The reply's data has no `attributes` member.
    MissingAttributes,
    /// The reply's attributes have no `token_prices` member.
    MissingTokenPrices,
    /// The reply does not list the token.
    TokenNotFound,
    /// The reply has no list of pairs.
    NoPairs,
    /// The list of pairs is empty.
    NoSuitablePair,
    /// The token or pair is listed without a price.
    MissingPrice,
    /// The price is text that is no number.
    InvalidPrice,
    /// The price is a number that is not above zero.
    NonPositivePrice,
    /// The reply is of another provider's shape.
    UnexpectedReply,
}

/// The four kinds of provider failure. The fallback treats them alike.
#[derive(Clone, Copy, Debug, PartialEq, Eq, Structural)]
pub enum ErrorKind {
    Transport,
    Protocol,
    Parse,
    Validation,
}

/// A provider failure with what is known of it.
#[derive(Clone, Debug, PartialEq, Eq)]
pub enum Failure {
    /// The provider could not be reached, or did not answer in time.
    Transport(String),
    /// The provider answered with a status other than success.
    Protocol(String),
    /// The body was not of the expected shape.
    Parse(String),
    /// The body was well-formed and turned down.
    Validation(Rejection),
}

/// The mathematical content of a [`Failure`].
pub enum FailureModel {
    Transport(Seq<char>),
    Protocol(Seq<char>),
    Parse(Seq<char>),
    Validation(Rejection),
}

impl DeepView for Failure {
    type V = FailureModel;

    open spec fn deep_view(&self) -> FailureModel {
        match self {
            Failure::Transport(detail) => FailureModel::Transport(detail@),
            Failure::Protocol(detail) => FailureModel::Protocol(detail@),
            Failure::Parse(detail) => FailureModel::Parse(detail@),
            Failure::Validation(rejection) => FailureModel::Validation(*rejection),
        }
    }
}

/// The failure of one provider.
#[derive(Clone, Debug, PartialEq, Eq)]
pub struct ProviderError {
    pub provider: Provider,
    pub failure: Failure,
}

/// The mathematical content of a [`ProviderError`].
pub struct ProviderErrorModel {
    pub provider: Provider,
    pub failure: FailureModel,
}

impl DeepView for ProviderError {
    type V = ProviderErrorModel;

    open spec fn deep_view(&self) -> ProviderErrorModel {
        ProviderErrorModel { provider: self.provider, failure: self.failure.deep_view() }
    }
}

/// The words in which a provider's rejection is reported.
pub open spec fn rejection_text(provider: Provider, rejection: Rejection) -> Seq<char> {
    match rejection {
        Rejection::UnsupportedChain => "unsupported chain"@,
        Rejection::MissingData => "no data"@,
        Rejection::MissingAttributes => "no attributes"@,
        Rejection::MissingTokenPrices => "no token_prices"@,
        Rejection::TokenNotFound => if provider == Provider::Gecko {
            "token not in results"@
        } else {
            "token not found"@
        },
        Rejection::NoPairs => "no pairs"@,
        Rejection::NoSuitablePair => "no suitable pair"@,
        Rejection::MissingPrice => if provider == Provider::Jupiter {
            "no usdPrice"@
        } else {
            "no price"@
        },
        Rejection::InvalidPrice => "invalid price"@,
        Rejection::NonPositivePrice => "price zero"@,
        Rejection::UnexpectedReply => "unexpected reply"@,
    }
}

/// The kind of a failure.
pub open spec fn failure_kind(failure: FailureModel) -> ErrorKind {
    match failure {
        FailureModel::Transport(_) => ErrorKind::Transport,
        FailureModel::Protocol(_) => ErrorKind::Protocol,
        FailureModel::Parse(_) => ErrorKind::Parse,
        FailureModel::Validation(_) => ErrorKind::Validation,
    }
}

/// The status is one of success: 200 to 299.
pub open spec fn status_succeeds(status: u16) -> bool {
    200 <= status < 300
}

/// The failure that a status stands for: none for a status of success,
/// else a protocol failure that carries the status as the provider worded
/// it.
pub open spec fn status_failure(status: u16, wording: Seq<char>) -> Option<FailureModel> {
    if status_succeeds(status) {
        None
    } else {
        Some(FailureModel::Protocol(wording))
    }
}

/// The second half of an error message: what went wrong.
pub open spec fn failure_text(provider: Provider, failure: FailureModel) -> Seq<char> {
    match failure {
        FailureModel::Transport(detail) => " request: "@ + detail,
        FailureModel::Protocol(detail) => " status "@ + detail,
        FailureModel::Parse(detail) => " parse: "@ + detail,
        FailureModel::Validation(rejection) => ": "@ + rejection_text(provider, rejection),
    }
}

/// The one-line message of an error: the provider's title, then the failure.
pub open spec fn error_message(error: ProviderErrorModel) -> Seq<char> {
    provider_title(error.provider) + failure_text(error.provider, error.failure)
}

impl Rejection {
    /// The words in which the provider's rejection is reported.
    pub fn text(&self, provider: Provider) -> (r: &'static str)
        ensures
            r@ == rejection_text(provider, *self),
    {
        match self {
            Rejection::UnsupportedChain => "unsupported chain",
            Rejection::MissingData => "no data",
            Rejection::MissingAttributes => "no attributes",
            Rejection::MissingTokenPrices => "no token_prices",
            Rejection::TokenNotFound => match provider {
                Provider::Gecko => "token not in results",
                _ => "token not found",
            },
            Rejection::NoPairs => "no pairs",
            Rejection::NoSuitablePair => "no suitable pair",
            Rejection::MissingPrice => match provider {
                Provider::Jupiter => "no usdPrice",
                _ => "no price",
            },
            Rejection::InvalidPrice => "invalid price",
            Rejection::NonPositivePrice => "price zero",
            Rejection::UnexpectedReply => "unexpected reply",
        }
    }
}

impl Failure {
    /// Judges the status of an answer. `wording` is the status as text,
    /// such as `503 Service Unavailable`.
    pub fn of_status(status: u16, wording: String) -> (r: Option<Failure>)
        ensures
            r.deep_view() == status_failure(status, wording@),
    {
        if 200 <= status && status < 300 {
            None
        } else {
            Some(Failure::Protocol(wording))
        }
    }

    /// The kind of the failure.
    pub fn kind(&self) -> (r: ErrorKind)
        ensures
            r == failure_kind(self.deep_view()),
    {
        match self {
            Failure::Transport(_) => ErrorKind::Transport,
            Failure::Protocol(_) => ErrorKind::Protocol,
            Failure::Parse(_) => ErrorKind::Parse,
            Failure::Validation(_) => ErrorKind::Validation,
        }
    }

    /// What went wrong at the provider, as the second half of a message.
    pub fn text(&self, provider: Provider) -> (r: String)
        ensures
            r@ == failure_text(provider, self.deep_view()),
    {
        match self {
            Failure::Transport(detail) => join(" request: ", detail.as_str()),
            Failure::Protocol(detail) => join(" status ", detail.as_str()),
            Failure::Parse(detail) => join(" parse: ", detail.as_str()),
            Failure::Validation(rejection) => join(": ", rejection.text(provider)),
        }
    }
}

impl ProviderError {
    /// The error that a provider turned a reply down.
    pub fn rejected(provider: Provider, rejection: Rejection) -> (r: ProviderError)
        ensures
            r.deep_view() == (ProviderErrorModel {
                provider,
                failure: FailureModel::Validation(rejection),
            }),
    {
        ProviderError { provider, failure: Failure::Validation(rejection) }
    }

    /// The kind of the failure.
    pub fn kind(&self) -> (r: ErrorKind)
        ensures
            r == failure_kind(self.deep_view().failure),
    {
        self.failure.kind()
    }

    /// The error as one line of text.
    pub fn message(&self) -> (r: String)
        ensures
            r@ == error_message(self.deep_view()),
    {
        let tail: String = self.failure.text(self.provider);
        join(self.provider.title(), tail.as_str())
    }
}

/// A lookup's result by its content.
pub open spec fn outcome_model(outcome: Result<TokenPriceResult, ProviderError>) -> Result<
    TokenPriceModel,
    ProviderErrorModel,
> {
    match outcome {
        Ok(found) => Ok(found.deep_view()),
        Err(error) => Err(error.deep_view()),
    }
}

} // verus!
