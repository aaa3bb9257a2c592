//! Chain identities, and what a token lookup asks for.

use vstd::prelude::*;
use crate::text::{lowercase, same_text, to_lowercase};

verus! {

/// GeckoTerminal's network name for a chain, by the chain's lower-case
/// name. A chain outside the table has none.
pub open spec fn gecko_network(chain_key: Seq<char>) -> Option<Seq<char>> {
    if chain_key == "solana"@ {
        Some("solana"@)
    } else if chain_key == "ethereum"@ {
        Some("eth"@)
    } else if chain_key == "bsc"@ {
        Some("bsc"@)
    } else if chain_key == "base"@ {
        Some("base"@)
    } else if chain_key == "arbitrum"@ {
        Some("arbitrum"@)
    } else if chain_key == "polygon"@ {
        Some("polygon_pos"@)
    } else if chain_key == "avalanche"@ {
        Some("avax"@)
    } else if chain_key == "optimism"@ {
        Some("optimism"@)
    } else {
        None
    }
}

/// The chain is Solana, by its lower-case name.
pub open spec fn is_solana(chain_key: Seq<char>) -> bool {
    chain_key == "solana"@
}

/// The network name for a chain whose name is already lower-case.
pub fn network_of_key(chain_key: &str) -> (network: Option<&'static str>)
    ensures
        network.deep_view() == gecko_network(chain_key@),
{
    if same_text(chain_key, "solana") {
        Some("solana")
    } else if same_text(chain_key, "ethereum") {
        Some("eth")
    } else if same_text(chain_key, "bsc") {
        Some("bsc")
    } else if same_text(chain_key, "base") {
        Some("base")
    } else if same_text(chain_key, "arbitrum") {
        Some("arbitrum")
    } else if same_text(chain_key, "polygon") {
        Some("polygon_pos")
    } else if same_text(chain_key, "avalanche") {
        Some("avax")
    } else if same_text(chain_key, "optimism") {
        Some("optimism")
    } else {
        None
    }
}

/// The network name for a chain, whatever the case of its name.
pub fn chain_to_gecko_network(chain_id: &str) -> (network: Option<&'static str>)
    ensures
        network.deep_view() == gecko_network(lowercase(chain_id@)),
{
    let key: String = to_lowercase(chain_id);
    network_of_key(key.as_str())
}

/// Whether a chain whose name is already lower-case is Solana.
pub fn key_is_solana(chain_key: &str) -> (r: bool)
    ensures
        r == is_solana(chain_key@),
{
    same_text(chain_key, "solana")
}

/// The provider a caller would rather have asked first.
#[derive(Clone, Copy, Debug, PartialEq, Eq, Structural)]
pub enum Preference {
    Unstated,
    Gecko,
    DexScreener,
}

/// The preference a caller's word states: `gecko` and `dexscreener`, written
/// exactly so, name a provider; anything else, or no word, states none.
pub open spec fn preference_of(word: Option<Seq<char>>) -> Preference {
    match word {
        Some(w) => if w == "gecko"@ {
            Preference::Gecko
        } else if w == "dexscreener"@ {
            Preference::DexScreener
        } else {
            Preference::Unstated
        },
        None => Preference::Unstated,
    }
}

impl Preference {
    /// Reads the preference that a caller's word states.
    pub fn from_word(word: Option<&str>) -> (r: Preference)
        ensures
            r == preference_of(word.deep_view()),
    {
        match word {
            Some(w) => {
                if same_text(w, "gecko") {
                    Preference::Gecko
                } else if same_text(w, "dexscreener") {
                    Preference::DexScreener
                } else {
                    Preference::Unstated
                }
            },
            None => Preference::Unstated,
        }
    }
}

/// The token a lookup is about.
///
/// The chain and the address are each held twice: as the caller wrote them,
/// for the paths of requests, and in lower case, for choosing providers,
/// naming networks and matching what providers send back.
#[derive(Clone, Debug, PartialEq, Eq)]
pub struct TokenQuery {
    pub chain_id: String,
    pub chain_key: String,
    pub address: String,
    pub address_key: String,
    pub pair_address: Option<String>,
}

/// The mathematical content of a [`TokenQuery`].
pub struct TokenQueryModel {
    pub chain_id: Seq<char>,
    pub chain_key: Seq<char>,
    pub address: Seq<char>,
    pub address_key: Seq<char>,
    pub pair_address: Option<Seq<char>>,
}

impl DeepView for TokenQuery {
    type V = TokenQueryModel;

    open spec fn deep_view(&self) -> TokenQueryModel {
        TokenQueryModel {
            chain_id: self.chain_id@,
            chain_key: self.chain_key@,
            address: self.address@,
            address_key: self.address_key@,
            pair_address: self.pair_address.deep_view(),
        }
    }
}

impl TokenQuery {
    /// A query from the chain and address as written, with their lower-case
    /// forms supplied.
    pub fn from_parts(
        chain_id: String,
        chain_key: String,
        address: String,
        address_key: String,
        pair_address: Option<String>,
    ) -> (query: TokenQuery)
        ensures
            query.deep_view() == (TokenQueryModel {
                chain_id: chain_id@,
                chain_key: chain_key@,
                address: address@,
                address_key: address_key@,
                pair_address: pair_address.deep_view(),
            }),
    {
        TokenQuery { chain_id, chain_key, address, address_key, pair_address }
    }

    /// A query from the chain and address as written.
    pub fn new(chain_id: String, address: String, pair_address: Option<String>) -> (query:
        TokenQuery)
        ensures
            query.deep_view() == (TokenQueryModel {
                chain_id: chain_id@,
                chain_key: lowercase(chain_id@),
                address: address@,
                address_key: lowercase(address@),
                pair_address: pair_address.deep_view(),
            }),
    {
        let chain_key: String = to_lowercase(chain_id.as_str());
        let address_key: String = to_lowercase(address.as_str());
        TokenQuery::from_parts(chain_id, chain_key, address, address_key, pair_address)
    }
}

} // verus!
