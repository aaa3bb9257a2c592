//! The order in which providers are asked, and the lookup as a machine that
//! the caller drives: it names a call, the caller makes it and hands back
//! the reply, and the machine names the next call or ends.

use vstd::prelude::*;
use crate::chain::{
    gecko_network, is_solana, key_is_solana, network_of_key, Preference, TokenQuery,
    TokenQueryModel,
};
use crate::amount::Amount;
use crate::dexscreener::{
    best_pair, candidates_of, leading_pair, lemma_chosen_in_range, pair_price_outcome,
    pair_stats_outcome, read_pair_price, read_pair_stats, read_token_price, read_token_stats,
    token_price_outcome, token_stats_outcome,
};
use crate::feed::{lookup, DexBodyModel, GeckoBodyModel, PriceText, Reply, ReplyModel};
use crate::gecko::{gecko_listing, gecko_outcome, read_gecko};
use crate::jupiter::{jupiter_outcome, read_jupiter};
use crate::raydium::{raydium_outcome, read_raydium};
use crate::reading::{reading_model, text_or_empty};
use crate::request::{
    dex_pair_address, dex_pair_url, dex_tokens_address, dex_tokens_url, gecko_address, gecko_url,
    jupiter_address, jupiter_url, price_request, raydium_address, raydium_url, stats_request,
    Request, RequestModel,
};
use crate::token::{
    outcome_model, FailureModel, Provider, ProviderError, ProviderErrorModel, Rejection,
    TokenPriceModel, TokenPriceResult,
};

verus! {

/// One call to one endpoint of a provider.
#[derive(Clone, Copy, Debug, PartialEq, Eq, Structural)]
pub enum Call {
    Jupiter,
    Raydium,
    Gecko,
    /// DexScreener's endpoint for one pair.
    DexPair,
    /// DexScreener's endpoint for all pairs of a token.
    DexTokens,
}

/// What a lookup is for.
#[derive(Clone, Copy, Debug, PartialEq, Eq, Structural)]
pub enum Purpose {
    /// The current price, from the first provider that has one.
    Price(Preference),
    /// Change and volume over 24 hours, from DexScreener alone.
    Stats,
}

/// The provider a call goes to.
pub open spec fn provider_of(call: Call) -> Provider {
    match call {
        Call::Jupiter => Provider::Jupiter,
        Call::Raydium => Provider::Raydium,
        Call::Gecko => Provider::Gecko,
        Call::DexPair => Provider::DexScreener,
        Call::DexTokens => Provider::DexScreener,
    }
}

/// The calls of one attempt at GeckoTerminal: one, or none where the chain
/// has no network name there.
pub open spec fn gecko_calls(network_known: bool) -> Seq<Call> {
    if network_known {
        seq![Call::Gecko]
    } else {
        Seq::empty()
    }
}

/// The calls of one attempt at DexScreener: the pair, where one is asked
/// about, then the token.
pub open spec fn dex_calls(has_pair: bool) -> Seq<Call> {
    if has_pair {
        seq![Call::DexPair, Call::DexTokens]
    } else {
        seq![Call::DexTokens]
    }
}

/// The calls of a price lookup, in order, as far as none succeeds:
/// on Solana, Jupiter and Raydium; then the preferred provider, if one is
/// stated; then GeckoTerminal, unless it was the preferred one; then
/// DexScreener.
pub open spec fn price_calls(
    solana: bool,
    preference: Preference,
    network_known: bool,
    has_pair: bool,
) -> Seq<Call> {
    let swift = if solana {
        seq![Call::Jupiter, Call::Raydium]
    } else {
        Seq::empty()
    };
    let preferred = match preference {
        Preference::Gecko => gecko_calls(network_known),
        Preference::DexScreener => dex_calls(has_pair),
        Preference::Unstated => Seq::empty(),
    };
    let gecko = if preference == Preference::Gecko {
        Seq::empty()
    } else {
        gecko_calls(network_known)
    };
    swift + preferred + gecko + dex_calls(has_pair)
}

/// The calls of a lookup, in order, as far as none succeeds.
pub open spec fn calls_of(query: TokenQueryModel, purpose: Purpose) -> Seq<Call> {
    match purpose {
        Purpose::Price(preference) => price_calls(
            is_solana(query.chain_key),
            preference,
            gecko_network(query.chain_key) is Some,
            query.pair_address is Some,
        ),
        Purpose::Stats => dex_calls(query.pair_address is Some),
    }
}

/// The request of a DexScreener call.
pub open spec fn dex_request(purpose: Purpose, url: Seq<char>) -> RequestModel {
    match purpose {
        Purpose::Price(_) => price_request(url, false),
        Purpose::Stats => stats_request(url),
    }
}

/// The request of a call. GeckoTerminal has none for a chain without a
/// network name there: the call fails before anything is sent. The pair
/// endpoint is addressed by the chain as written and the pair asked about;
/// where no pair is asked about, its place in the address stays empty.
pub open spec fn request_of(call: Call, query: TokenQueryModel, purpose: Purpose) -> Result<
    RequestModel,
    Rejection,
> {
    match call {
        Call::Jupiter => Ok(price_request(jupiter_url(query.address), true)),
        Call::Raydium => Ok(price_request(raydium_url(query.address), true)),
        Call::Gecko => match gecko_network(query.chain_key) {
            Some(network) => Ok(price_request(gecko_url(network, query.address), true)),
            None => Err(Rejection::UnsupportedChain),
        },
        Call::DexPair => Ok(
            dex_request(purpose, dex_pair_url(query.chain_id, text_or_empty(query.pair_address))),
        ),
        Call::DexTokens => Ok(dex_request(purpose, dex_tokens_url(query.address))),
    }
}

/// The result of building a request, by its content.
pub open spec fn request_model(built: Result<Request, Rejection>) -> Result<
    RequestModel,
    Rejection,
> {
    match built {
        Ok(request) => Ok(request.deep_view()),
        Err(rejection) => Err(rejection),
    }
}

/// What a reply to a call gives, where the body is of the call's provider.
pub open spec fn reading_of(call: Call, reply: ReplyModel, query: TokenQueryModel, purpose: Purpose)
    -> Result<TokenPriceModel, Rejection> {
    match (call, reply) {
        (Call::Jupiter, ReplyModel::Jupiter(entries)) => jupiter_outcome(entries, query),
        (Call::Raydium, ReplyModel::Raydium(data)) => raydium_outcome(data, query),
        (Call::Gecko, ReplyModel::Gecko(body)) => gecko_outcome(body, query),
        (Call::DexPair, ReplyModel::Dex(body)) => match purpose {
            Purpose::Price(_) => pair_price_outcome(body),
            Purpose::Stats => pair_stats_outcome(body),
        },
        (Call::DexTokens, ReplyModel::Dex(body)) => match purpose {
            Purpose::Price(_) => token_price_outcome(body, query.chain_key),
            Purpose::Stats => token_stats_outcome(body, query.chain_key),
        },
        _ => Err(Rejection::UnexpectedReply),
    }
}

/// What a reply to a call gives: the failure it reports, or what its body
/// reads as, with a rejection counted against the call's provider.
pub open spec fn outcome_of(call: Call, reply: ReplyModel, query: TokenQueryModel, purpose: Purpose)
    -> Result<TokenPriceModel, ProviderErrorModel> {
    match reply {
        ReplyModel::Failed(failure) => Err(
            ProviderErrorModel { provider: provider_of(call), failure },
        ),
        _ => match reading_of(call, reply, query, purpose) {
            Ok(found) => Ok(found),
            Err(rejection) => Err(
                ProviderErrorModel {
                    provider: provider_of(call),
                    failure: FailureModel::Validation(rejection),
                },
            ),
        },
    }
}

/// The result of a lookup whose calls from `from` on get the replies given:
/// `replies[i]` answers the call at place `i`. The first success is the
/// result; where every call fails, the failure of the last one is.
pub open spec fn run(
    query: TokenQueryModel,
    purpose: Purpose,
    replies: Seq<ReplyModel>,
    from: int,
) -> Result<TokenPriceModel, ProviderErrorModel>
    recommends
        0 <= from < calls_of(query, purpose).len(),
        replies.len() == calls_of(query, purpose).len(),
    decreases calls_of(query, purpose).len() - from,
{
    let calls = calls_of(query, purpose);
    let outcome = outcome_of(calls[from], replies[from], query, purpose);
    if outcome is Ok || from + 1 >= calls.len() {
        outcome
    } else {
        run(query, purpose, replies, from + 1)
    }
}

impl Call {
    /// The provider the call goes to.
    pub fn provider(&self) -> (r: Provider)
        ensures
            r == provider_of(*self),
    {
        match self {
            Call::Jupiter => Provider::Jupiter,
            Call::Raydium => Provider::Raydium,
            Call::Gecko => Provider::Gecko,
            Call::DexPair => Provider::DexScreener,
            Call::DexTokens => Provider::DexScreener,
        }
    }
}

fn push_gecko(calls: &mut Vec<Call>, network_known: bool)
    ensures
        final(calls)@ == old(calls)@ + gecko_calls(network_known),
{
    if network_known {
        calls.push(Call::Gecko);
    }
    assert(calls@ =~= old(calls)@ + gecko_calls(network_known));
}

fn push_dex(calls: &mut Vec<Call>, has_pair: bool)
    ensures
        final(calls)@ == old(calls)@ + dex_calls(has_pair),
{
    if has_pair {
        calls.push(Call::DexPair);
    }
    calls.push(Call::DexTokens);
    assert(calls@ =~= old(calls)@ + dex_calls(has_pair));
}

/// The calls of a lookup, in order.
pub fn plan(query: &TokenQuery, purpose: Purpose) -> (calls: Vec<Call>)
    ensures
        calls@ == calls_of(query.deep_view(), purpose),
{
    let has_pair: bool = query.pair_address.is_some();
    let mut calls: Vec<Call> = Vec::new();
    match purpose {
        Purpose::Stats => {
            push_dex(&mut calls, has_pair);
            assert(calls@ =~= dex_calls(has_pair));
        },
        Purpose::Price(preference) => {
            let solana: bool = key_is_solana(query.chain_key.as_str());
            let network_known: bool = network_of_key(query.chain_key.as_str()).is_some();
            if solana {
                calls.push(Call::Jupiter);
                calls.push(Call::Raydium);
            }
            match preference {
                Preference::Gecko => push_gecko(&mut calls, network_known),
                Preference::DexScreener => push_dex(&mut calls, has_pair),
                Preference::Unstated => {},
            }
            match preference {
                Preference::Gecko => {},
                _ => push_gecko(&mut calls, network_known),
            }
            push_dex(&mut calls, has_pair);
            assert(calls@ =~= price_calls(solana, preference, network_known, has_pair));
        },
    }
    calls
}

/// Builds the request of a call, or finds that the call cannot be made.
pub fn request_for(call: Call, query: &TokenQuery, purpose: Purpose) -> (r: Result<
    Request,
    Rejection,
>)
    ensures
        request_model(r) == request_of(call, query.deep_view(), purpose),
{
    Ok(match call {
        Call::Jupiter => Request::for_price(jupiter_address(query.address.as_str()), true),
        Call::Raydium => Request::for_price(raydium_address(query.address.as_str()), true),
        Call::Gecko => match network_of_key(query.chain_key.as_str()) {
            Some(network) => Request::for_price(
                gecko_address(network, query.address.as_str()),
                true,
            ),
            None => {
                return Err(Rejection::UnsupportedChain);
            },
        },
        Call::DexPair => {
            let url: String = match &query.pair_address {
                Some(pair) => dex_pair_address(query.chain_id.as_str(), pair.as_str()),
                None => {
                    proof {
                        reveal_strlit("");
                        assert(""@ =~= Seq::<char>::empty());
                    }
                    dex_pair_address(query.chain_id.as_str(), "")
                },
            };
            match purpose {
                Purpose::Price(_) => Request::for_price(url, false),
                Purpose::Stats => Request::for_stats(url),
            }
        },
        Call::DexTokens => {
            let url: String = dex_tokens_address(query.address.as_str());
            match purpose {
                Purpose::Price(_) => Request::for_price(url, false),
                Purpose::Stats => Request::for_stats(url),
            }
        },
    })
}

fn read(call: Call, reply: &Reply, query: &TokenQuery, purpose: Purpose) -> (r: Result<
    TokenPriceResult,
    Rejection,
>)
    ensures
        reading_model(r) == reading_of(call, reply.deep_view(), query.deep_view(), purpose),
{
    match (call, reply) {
        (Call::Jupiter, Reply::Jupiter(entries)) => read_jupiter(entries, query),
        (Call::Raydium, Reply::Raydium(data)) => read_raydium(data, query),
        (Call::Gecko, Reply::Gecko(body)) => read_gecko(body, query),
        (Call::DexPair, Reply::Dex(body)) => match purpose {
            Purpose::Price(_) => read_pair_price(body),
            Purpose::Stats => read_pair_stats(body),
        },
        (Call::DexTokens, Reply::Dex(body)) => match purpose {
            Purpose::Price(_) => read_token_price(body, query),
            Purpose::Stats => read_token_stats(body, query),
        },
        _ => Err(Rejection::UnexpectedReply),
    }
}

/// Judges the reply to a call.
pub fn interpret(call: Call, reply: Reply, query: &TokenQuery, purpose: Purpose) -> (r: Result<
    TokenPriceResult,
    ProviderError,
>)
    ensures
        outcome_model(r) == outcome_of(call, reply.deep_view(), query.deep_view(), purpose),
        purpose is Price && r is Ok ==> r->Ok_0.price.is_positive(),
{
    match reply {
        Reply::Failed(failure) => Err(ProviderError { provider: call.provider(), failure }),
        other => match read(call, &other, query, purpose) {
            Ok(found) => Ok(found),
            Err(rejection) => Err(ProviderError::rejected(call.provider(), rejection)),
        },
    }
}

/// A lookup under way: what is asked, and which call is due.
pub struct Resolution {
    query: TokenQuery,
    purpose: Purpose,
    calls: Vec<Call>,
    position: usize,
}

/// What becomes of a lookup when a reply comes in.
pub enum Step {
    /// The call failed, for the reason given, and another call is due.
    Proceed(Resolution, ProviderError),
    /// The lookup is over: a call succeeded, or the last one failed.
    Finished(Result<TokenPriceResult, ProviderError>),
}

impl Resolution {
    #[verifier::type_invariant]
    spec fn well_formed(self) -> bool {
        &&& self.calls@ == calls_of(self.query.deep_view(), self.purpose)
        &&& self.position < self.calls.len()
    }

    /// What is asked.
    pub closed spec fn query(self) -> TokenQueryModel {
        self.query.deep_view()
    }

    /// What the lookup is for.
    pub closed spec fn purpose(self) -> Purpose {
        self.purpose
    }

    /// The place of the call that is due among the lookup's calls.
    pub closed spec fn position(self) -> int {
        self.position as int
    }

    /// The lookup's calls, in order.
    pub open spec fn calls(self) -> Seq<Call> {
        calls_of(self.query(), self.purpose())
    }

    /// The call that is due.
    pub open spec fn pending(self) -> Call {
        self.calls()[self.position()]
    }

    /// Starts a lookup. Its first call is due.
    pub fn begin(query: TokenQuery, purpose: Purpose) -> (resolution: Resolution)
        ensures
            resolution.query() == query.deep_view(),
            resolution.purpose() == purpose,
            resolution.position() == 0,
    {
        let calls: Vec<Call> = plan(&query, purpose);
        proof {
            lemma_calls_end_with_token_call(query.deep_view(), purpose);
        }
        Resolution { query, purpose, calls, position: 0 }
    }

    /// The call that is due.
    pub fn call(&self) -> (call: Call)
        ensures
            0 <= self.position() < self.calls().len(),
            call == self.pending(),
    {
        proof {
            use_type_invariant(self);
        }
        self.calls[self.position]
    }

    /// The request of the call that is due. A call that is due can be
    /// made: a lookup calls GeckoTerminal only for a chain that has a
    /// network name there.
    pub fn request(&self) -> (request: Request)
        ensures
            Ok::<RequestModel, Rejection>(request.deep_view()) == request_of(
                self.pending(),
                self.query(),
                self.purpose(),
            ),
    {
        proof {
            use_type_invariant(self);
            lemma_gecko_asked_at_most_once(self.query.deep_view(), self.purpose);
        }
        match request_for(self.calls[self.position], &self.query, self.purpose) {
            Ok(request) => request,
            Err(_) => vstd::pervasive::unreached(),
        }
    }

    /// Takes the reply to the call that is due. A success ends the lookup
    /// with its result. A failure makes the next call due; the failure of
    /// the last call ends the lookup and is its result.
    pub fn advance(self, reply: Reply) -> (step: Step)
        ensures
            match outcome_of(self.pending(), reply.deep_view(), self.query(), self.purpose()) {
                Ok(found) => step matches Step::Finished(Ok(result)) && result.deep_view()
                    == found,
                Err(error) => if self.position() + 1 < self.calls().len() {
                    step matches Step::Proceed(next, failure) && failure.deep_view() == error
                        && next.query() == self.query() && next.purpose() == self.purpose()
                        && next.position() == self.position() + 1
                } else {
                    step matches Step::Finished(Err(failure)) && failure.deep_view() == error
                },
            },
            self.purpose() is Price ==> (step matches Step::Finished(Ok(result))
                ==> result.price.is_positive()),
    {
        proof {
            use_type_invariant(&self);
        }
        let Resolution { query, purpose, calls, position } = self;
        match interpret(calls[position], reply, &query, purpose) {
            Ok(found) => Step::Finished(Ok(found)),
            Err(failure) => {
                if position + 1 < calls.len() {
                    Step::Proceed(
                        Resolution { query, purpose, calls, position: position + 1 },
                        failure,
                    )
                } else {
                    Step::Finished(Err(failure))
                }
            },
        }
    }
}

/// Every lookup has a call, and its last call is to DexScreener's token
/// endpoint.
pub proof fn lemma_calls_end_with_token_call(query: TokenQueryModel, purpose: Purpose)
    ensures
        calls_of(query, purpose).len() >= 1,
        calls_of(query, purpose).last() == Call::DexTokens,
{
}

/// On Solana a price lookup calls Jupiter first and Raydium second,
/// whatever provider is preferred: every call to another provider comes
/// after both. On another chain neither is called.
pub proof fn lemma_solana_asks_jupiter_then_raydium(
    query: TokenQueryModel,
    preference: Preference,
)
    ensures
        is_solana(query.chain_key) ==> {
            let calls = calls_of(query, Purpose::Price(preference));
            &&& calls.len() >= 3
            &&& calls[0] == Call::Jupiter
            &&& calls[1] == Call::Raydium
            &&& forall|i: int|
                2 <= i < calls.len() ==> calls[i] != Call::Jupiter && calls[i] != Call::Raydium
        },
        !is_solana(query.chain_key) ==> {
            let calls = calls_of(query, Purpose::Price(preference));
            forall|i: int|
                0 <= i < calls.len() ==> calls[i] != Call::Jupiter && calls[i] != Call::Raydium
        },
{
}

/// GeckoTerminal is called at most once in a lookup, and not at all for a
/// chain that has no network name there.
pub proof fn lemma_gecko_asked_at_most_once(query: TokenQueryModel, purpose: Purpose)
    ensures
        forall|i: int, j: int|
            0 <= i < j < calls_of(query, purpose).len() ==> !(calls_of(query, purpose)[i]
                == Call::Gecko && calls_of(query, purpose)[j] == Call::Gecko),
        gecko_network(query.chain_key) is None ==> forall|i: int|
            0 <= i < calls_of(query, purpose).len() ==> calls_of(query, purpose)[i]
                != Call::Gecko,
{
}

/// A reply that a price lookup accepts carries a price above zero, and the
/// result names the provider that was called.
pub proof fn lemma_accepted_price_is_positive(
    call: Call,
    reply: ReplyModel,
    query: TokenQueryModel,
    preference: Preference,
)
    ensures
        outcome_of(call, reply, query, Purpose::Price(preference)) matches Ok(found)
            ==> found.price.is_positive() && found.source == provider_of(call),
{
}

/// The result of a lookup is the outcome of one of its calls. It is a
/// success exactly when some call from `from` on succeeds, and then it is
/// the first success; otherwise it is the failure of the last call.
pub proof fn lemma_run_is_first_success(
    query: TokenQueryModel,
    purpose: Purpose,
    replies: Seq<ReplyModel>,
    from: int,
) -> (at: int)
    requires
        0 <= from < calls_of(query, purpose).len(),
    ensures
        from <= at < calls_of(query, purpose).len(),
        run(query, purpose, replies, from) == outcome_of(
            calls_of(query, purpose)[at],
            replies[at],
            query,
            purpose,
        ),
        forall|i: int|
            from <= i < at ==> outcome_of(
                #[trigger] calls_of(query, purpose)[i],
                replies[i],
                query,
                purpose,
            ) is Err,
        run(query, purpose, replies, from) is Err ==> at == calls_of(query, purpose).len() - 1,
    decreases calls_of(query, purpose).len() - from,
{
    let calls = calls_of(query, purpose);
    let outcome = outcome_of(calls[from], replies[from], query, purpose);
    if outcome is Ok || from + 1 >= calls.len() {
        from
    } else {
        lemma_run_is_first_success(query, purpose, replies, from + 1)
    }
}

/// A price lookup that succeeds has a price above zero.
pub proof fn lemma_resolved_price_is_positive(
    query: TokenQueryModel,
    preference: Preference,
    replies: Seq<ReplyModel>,
)
    ensures
        run(query, Purpose::Price(preference), replies, 0) matches Ok(found)
            ==> found.price.is_positive(),
{
    let purpose = Purpose::Price(preference);
    lemma_calls_end_with_token_call(query, purpose);
    let at = lemma_run_is_first_success(query, purpose, replies, 0);
    lemma_accepted_price_is_positive(calls_of(query, purpose)[at], replies[at], query, preference);
}

/// On Solana, a price that Jupiter's reply gives is the result of the
/// lookup, whatever the other replies are and whatever provider is
/// preferred.
pub proof fn lemma_jupiter_success_settles(
    query: TokenQueryModel,
    preference: Preference,
    replies: Seq<ReplyModel>,
)
    requires
        is_solana(query.chain_key),
        outcome_of(Call::Jupiter, replies[0], query, Purpose::Price(preference)) is Ok,
    ensures
        run(query, Purpose::Price(preference), replies, 0) == outcome_of(
            Call::Jupiter,
            replies[0],
            query,
            Purpose::Price(preference),
        ),
{
    lemma_solana_asks_jupiter_then_raydium(query, preference);
}

/// The number in a price sent as text, where it is one.
pub open spec fn number_in(price: Option<PriceText>) -> Option<Amount> {
    match price {
        Some(PriceText::Number(p)) => Some(p),
        _ => None,
    }
}

/// The price that a reply to a call lists for the token, where it lists
/// one that is a number.
pub open spec fn listed_price(call: Call, reply: ReplyModel, query: TokenQueryModel) -> Option<
    Amount,
> {
    match (call, reply) {
        (Call::Jupiter, ReplyModel::Jupiter(entries)) => match lookup(entries, query.address) {
            Some(listing) => listing.usd_price,
            None => None,
        },
        (Call::Raydium, ReplyModel::Raydium(Some(entries))) => number_in(
            lookup(entries, query.address),
        ),
        (Call::Gecko, ReplyModel::Gecko(GeckoBodyModel::Prices(entries))) => match gecko_listing(
            entries,
            query,
        ) {
            Some(member) => number_in(member),
            None => None,
        },
        (Call::DexPair, ReplyModel::Dex(body)) => match leading_pair(body) {
            Some(pair) => number_in(pair.price_usd),
            None => None,
        },
        (Call::DexTokens, ReplyModel::Dex(DexBodyModel { pairs: Some(pairs), .. })) => match best_pair(
            pairs,
            query.chain_key,
        ) {
            Some(pair) => number_in(pair.price_usd),
            None => None,
        },
        _ => None,
    }
}

/// In a price lookup, a reply that lists a price not above zero (zero, a
/// negative number, or no number at all) is a failure of its provider, of
/// the kind validation; and the price of a success is the price that the
/// reply lists.
pub proof fn lemma_non_positive_price_fails_the_provider(
    call: Call,
    reply: ReplyModel,
    query: TokenQueryModel,
    preference: Preference,
)
    ensures
        listed_price(call, reply, query) matches Some(price) && !price.is_positive() ==> outcome_of(
            call,
            reply,
            query,
            Purpose::Price(preference),
        ) == Err::<TokenPriceModel, ProviderErrorModel>(
            ProviderErrorModel {
                provider: provider_of(call),
                failure: FailureModel::Validation(Rejection::NonPositivePrice),
            },
        ),
        outcome_of(call, reply, query, Purpose::Price(preference)) matches Ok(found)
            ==> listed_price(call, reply, query) == Some(found.price),
{
}

/// A statistics lookup takes the pair it finds whatever its price: a price
/// that is missing or no number counts as zero.
pub proof fn lemma_stats_tolerate_any_price(call: Call, body: DexBodyModel, query: TokenQueryModel)
    requires
        call == Call::DexPair || call == Call::DexTokens,
    ensures
        outcome_of(call, ReplyModel::Dex(body), query, Purpose::Stats) matches Ok(found) ==> {
            &&& found.source == Provider::DexScreener
            &&& found.price == match listed_price(call, ReplyModel::Dex(body), query) {
                Some(price) => price,
                None => Amount::zero(),
            }
        },
        outcome_of(call, ReplyModel::Dex(body), query, Purpose::Stats) is Err <==> (if call
            == Call::DexPair {
            leading_pair(body) is None
        } else {
            body.pairs is None || body.pairs->0.len() == 0
        }),
{
    if call == Call::DexTokens && body.pairs is Some {
        lemma_chosen_in_range(candidates_of(body.pairs->0, query.chain_key));
    }
}

} // verus!
