//! Price resolution for exchange-listed equities and on-chain tokens.
//!
//! The crate decides; it performs no input or output and no floating-point
//! arithmetic. Numbers travel through it as IEEE-754 binary64 bit patterns
//! ([`amount::Amount`]), provider replies arrive already decoded into the
//! plain types of [`feed`] and [`equity`], and every outbound call is
//! described by a [`request::Request`] that the caller performs.
//!
//! Equities: [`session`] tells which trading session an instant falls in,
//! [`equity`] selects the price and the move of that session and reads
//! quotes and charts, [`candles`] turns parallel arrays into candles.
//!
//! Tokens: [`jupiter`], [`raydium`], [`gecko`] and [`dexscreener`] each read
//! the replies of one provider; [`resolver`] orders the calls to them and
//! carries a lookup from call to call until one succeeds or the last has
//! failed.

pub mod amount;
pub mod text;
pub mod session;
pub mod candles;
pub mod equity;
pub mod token;
pub mod feed;
pub mod chain;
pub mod request;
pub mod reading;
pub mod jupiter;
pub mod raydium;
pub mod gecko;
pub mod dexscreener;
pub mod resolver;
