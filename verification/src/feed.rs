//! Provider replies, decoded.
//!
//! A reply reaches the crate as plain values. A JSON object keyed by token
//! is a list of [`Entry`] values, one per member; a price that a provider
//! sends as text arrives as a [`PriceText`], already parsed or found
//! unparseable.

use vstd::prelude::*;
use crate::amount::Amount;
use crate::text::same_text;
use crate::token::{Failure, FailureModel};

verus! {

/// A price sent as text: the number it parses to, or the fact that it
/// parses to none.
#[derive(Clone, Copy, Debug, PartialEq, Eq, Structural)]
pub enum PriceText {
    Invalid,
    Number(Amount),
}

/// One member of a keyed object.
#[derive(Clone, Debug, PartialEq, Eq)]
pub struct Entry<T> {
    pub key: String,
    pub value: T,
}

/// The mathematical content of an [`Entry`].
pub struct EntryModel<T> {
    pub key: Seq<char>,
    pub value: T,
}

impl<T> DeepView for Entry<T> {
    type V = EntryModel<T>;

    open spec fn deep_view(&self) -> EntryModel<T> {
        EntryModel { key: self.key@, value: self.value }
    }
}

/// What Jupiter reports of one mint.
#[derive(Clone, Copy, Debug, PartialEq, Eq, Structural)]
pub struct JupiterPrice {
    pub usd_price: Option<Amount>,
    pub price_change_24h: Option<Amount>,
}

/// GeckoTerminal's reply, down to the first member that is missing.
#[derive(Clone, Debug, PartialEq, Eq)]
pub enum GeckoBody {
    NoData,
    NoAttributes,
    NoTokenPrices,
    /// The token prices; a member may be null.
    Prices(Vec<Entry<Option<PriceText>>>),
}

/// The mathematical content of a [`GeckoBody`].
pub enum GeckoBodyModel {
    NoData,
    NoAttributes,
    NoTokenPrices,
    Prices(Seq<EntryModel<Option<PriceText>>>),
}

impl DeepView for GeckoBody {
    type V = GeckoBodyModel;

    open spec fn deep_view(&self) -> GeckoBodyModel {
        match self {
            GeckoBody::NoData => GeckoBodyModel::NoData,
            GeckoBody::NoAttributes => GeckoBodyModel::NoAttributes,
            GeckoBody::NoTokenPrices => GeckoBodyModel::NoTokenPrices,
            GeckoBody::Prices(entries) => GeckoBodyModel::Prices(entries.deep_view()),
        }
    }
}

/// One trading pair of a DexScreener reply.
#[derive(Clone, Debug, PartialEq, Eq)]
pub struct DexPair {
    pub chain_id: Option<String>,
    pub pair_address: Option<String>,
    pub price_usd: Option<PriceText>,
    pub volume_h24: Option<Amount>,
    pub price_change_h24: Option<Amount>,
    pub liquidity_usd: Option<Amount>,
}

/// The mathematical content of a [`DexPair`].
pub struct DexPairModel {
    pub chain_id: Option<Seq<char>>,
    pub pair_address: Option<Seq<char>>,
    pub price_usd: Option<PriceText>,
    pub volume_h24: Option<Amount>,
    pub price_change_h24: Option<Amount>,
    pub liquidity_usd: Option<Amount>,
}

impl DeepView for DexPair {
    type V = DexPairModel;

    open spec fn deep_view(&self) -> DexPairModel {
        DexPairModel {
            chain_id: self.chain_id.deep_view(),
            pair_address: self.pair_address.deep_view(),
            price_usd: self.price_usd,
            volume_h24: self.volume_h24,
            price_change_h24: self.price_change_h24,
            liquidity_usd: self.liquidity_usd,
        }
    }
}

/// A DexScreener reply: a list of pairs, a single pair, both or neither.
#[derive(Clone, Debug, PartialEq, Eq)]
pub struct DexBody {
    pub pairs: Option<Vec<DexPair>>,
    pub pair: Option<DexPair>,
}

/// The mathematical content of a [`DexBody`].
pub struct DexBodyModel {
    pub pairs: Option<Seq<DexPairModel>>,
    pub pair: Option<DexPairModel>,
}

impl DeepView for DexBody {
    type V = DexBodyModel;

    open spec fn deep_view(&self) -> DexBodyModel {
        DexBodyModel { pairs: self.pairs.deep_view(), pair: self.pair.deep_view() }
    }
}

/// What came back from one call: a failure to obtain or decode a body, or
/// the decoded body of one of the providers.
#[derive(Clone, Debug, PartialEq, Eq)]
pub enum Reply {
    Failed(Failure),
    Jupiter(Vec<Entry<JupiterPrice>>),
    Raydium(Option<Vec<Entry<PriceText>>>),
    Gecko(GeckoBody),
    Dex(DexBody),
}

/// The mathematical content of a [`Reply`].
pub enum ReplyModel {
    Failed(FailureModel),
    Jupiter(Seq<EntryModel<JupiterPrice>>),
    Raydium(Option<Seq<EntryModel<PriceText>>>),
    Gecko(GeckoBodyModel),
    Dex(DexBodyModel),
}

impl DeepView for Reply {
    type V = ReplyModel;

    open spec fn deep_view(&self) -> ReplyModel {
        match self {
            Reply::Failed(failure) => ReplyModel::Failed(failure.deep_view()),
            Reply::Jupiter(entries) => ReplyModel::Jupiter(entries.deep_view()),
            Reply::Raydium(data) => ReplyModel::Raydium(data.deep_view()),
            Reply::Gecko(body) => ReplyModel::Gecko(body.deep_view()),
            Reply::Dex(body) => ReplyModel::Dex(body.deep_view()),
        }
    }
}

/// The value of the first of the first `count` entries whose key is `key`.
pub open spec fn lookup_among<T>(entries: Seq<EntryModel<T>>, key: Seq<char>, count: int) -> Option<
    T,
>
    decreases count,
{
    if count <= 0 {
        None
    } else {
        match lookup_among(entries, key, count - 1) {
            Some(value) => Some(value),
            None => if entries[count - 1].key == key {
                Some(entries[count - 1].value)
            } else {
                None
            },
        }
    }
}

/// The value under `key`: that of the first entry with this key.
pub open spec fn lookup<T>(entries: Seq<EntryModel<T>>, key: Seq<char>) -> Option<T> {
    lookup_among(entries, key, entries.len() as int)
}

/// A value found among the first entries is the value found among more.
pub proof fn lemma_lookup_settled<T>(
    entries: Seq<EntryModel<T>>,
    key: Seq<char>,
    count: int,
    more: int,
)
    requires
        count <= more,
        lookup_among(entries, key, count) is Some,
    ensures
        lookup_among(entries, key, more) == lookup_among(entries, key, count),
    decreases more - count,
{
    if count < more {
        lemma_lookup_settled(entries, key, count, more - 1);
    }
}

/// A key is found exactly when an entry carries it, and the value found is
/// that of the first such entry.
pub proof fn lemma_lookup_first<T>(entries: Seq<EntryModel<T>>, key: Seq<char>, count: int)
    requires
        0 <= count <= entries.len(),
    ensures
        lookup_among(entries, key, count) is None <==> forall|i: int|
            0 <= i < count ==> (#[trigger] entries[i]).key != key,
        lookup_among(entries, key, count) is Some ==> exists|i: int|
            0 <= i < count && (#[trigger] entries[i]).key == key && lookup_among(
                entries,
                key,
                count,
            ) == Some(entries[i].value) && forall|j: int|
                0 <= j < i ==> (#[trigger] entries[j]).key != key,
    decreases count,
{
    if count > 0 {
        lemma_lookup_first(entries, key, count - 1);
        if lookup_among(entries, key, count - 1) is None && entries[count - 1].key == key {
            assert(entries[count - 1].key == key && lookup_among(entries, key, count) == Some(
                entries[count - 1].value,
            ));
        }
    }
}

/// Looks a key up among the members of a keyed object.
pub fn find<T: Copy>(entries: &Vec<Entry<T>>, key: &str) -> (found: Option<T>)
    ensures
        found == lookup(entries.deep_view(), key@),
{
    let mut i: usize = 0;
    while i < entries.len()
        invariant
            i <= entries.len(),
            lookup_among(entries.deep_view(), key@, i as int) is None,
        decreases entries.len() - i,
    {
        if same_text(entries[i].key.as_str(), key) {
            let value: T = entries[i].value;
            proof {
                assert(entries.deep_view()[i as int] == entries@[i as int].deep_view());
                assert(lookup_among(entries.deep_view(), key@, i + 1) == Some(value));
                lemma_lookup_settled(entries.deep_view(), key@, i + 1, entries.len() as int);
            }
            return Some(value);
        }
        assert(entries.deep_view()[i as int] == entries@[i as int].deep_view());
        i = i + 1;
    }
    None
}

} // verus!
