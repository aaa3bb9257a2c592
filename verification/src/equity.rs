//! Equity quotes and charts from a chart reply.
//!
//! The crate selects numbers and never computes with them. Where a quote
//! needs a difference or a ratio, the result says which numbers go into it
//! ([`Change`], [`ChangePercent`]) and leaves the arithmetic to the caller.

use vstd::prelude::*;
use crate::amount::Amount;
use crate::candles::{aggregate, can_aggregate, candles_of, entry, timestamps_fit, Candle};
use crate::session::{classify, session_at, TradingPeriodCalendar, TradingSession};

verus! {

/// The `meta` member of a chart result.
#[derive(Clone, Debug, PartialEq, Eq)]
pub struct ChartMeta {
    pub symbol: Option<String>,
    pub regular_market_price: Option<Amount>,
    pub previous_close: Option<Amount>,
    pub regular_market_day_high: Option<Amount>,
    pub regular_market_day_low: Option<Amount>,
    pub regular_market_volume: Option<i64>,
    pub post_market_price: Option<Amount>,
    pub pre_market_price: Option<Amount>,
    pub post_market_change: Option<Amount>,
    pub pre_market_change: Option<Amount>,
    pub current_trading_period: Option<TradingPeriodCalendar>,
}

/// The mathematical content of a [`ChartMeta`].
pub struct ChartMetaModel {
    pub symbol: Option<Seq<char>>,
    pub regular_market_price: Option<Amount>,
    pub previous_close: Option<Amount>,
    pub regular_market_day_high: Option<Amount>,
    pub regular_market_day_low: Option<Amount>,
    pub regular_market_volume: Option<i64>,
    pub post_market_price: Option<Amount>,
    pub pre_market_price: Option<Amount>,
    pub post_market_change: Option<Amount>,
    pub pre_market_change: Option<Amount>,
    pub current_trading_period: Option<TradingPeriodCalendar>,
}

impl DeepView for ChartMeta {
    type V = ChartMetaModel;

    open spec fn deep_view(&self) -> ChartMetaModel {
        ChartMetaModel {
            symbol: self.symbol.deep_view(),
            regular_market_price: self.regular_market_price,
            previous_close: self.previous_close,
            regular_market_day_high: self.regular_market_day_high,
            regular_market_day_low: self.regular_market_day_low,
            regular_market_volume: self.regular_market_volume,
            post_market_price: self.post_market_price,
            pre_market_price: self.pre_market_price,
            post_market_change: self.post_market_change,
            pre_market_change: self.pre_market_change,
            current_trading_period: self.current_trading_period,
        }
    }
}

/// The parallel arrays of one quote of a chart result.
#[derive(Clone, Debug, PartialEq, Eq)]
pub struct QuoteColumns {
    pub open: Vec<Option<Amount>>,
    pub high: Vec<Option<Amount>>,
    pub low: Vec<Option<Amount>>,
    pub close: Vec<Option<Amount>>,
    pub volume: Vec<Option<i64>>,
}

/// The mathematical content of a [`QuoteColumns`].
pub struct QuoteColumnsModel {
    pub open: Seq<Option<Amount>>,
    pub high: Seq<Option<Amount>>,
    pub low: Seq<Option<Amount>>,
    pub close: Seq<Option<Amount>>,
    pub volume: Seq<Option<i64>>,
}

impl DeepView for QuoteColumns {
    type V = QuoteColumnsModel;

    open spec fn deep_view(&self) -> QuoteColumnsModel {
        QuoteColumnsModel {
            open: self.open@,
            high: self.high@,
            low: self.low@,
            close: self.close@,
            volume: self.volume@,
        }
    }
}

/// One result of a chart reply.
#[derive(Clone, Debug, PartialEq, Eq)]
pub struct ChartData {
    pub meta: ChartMeta,
    pub timestamp: Option<Vec<i64>>,
    pub quote: Vec<QuoteColumns>,
}

/// The mathematical content of a [`ChartData`].
pub struct ChartDataModel {
    pub meta: ChartMetaModel,
    pub timestamp: Option<Seq<i64>>,
    pub quote: Seq<QuoteColumnsModel>,
}

impl DeepView for ChartData {
    type V = ChartDataModel;

    open spec fn deep_view(&self) -> ChartDataModel {
        ChartDataModel {
            meta: self.meta.deep_view(),
            timestamp: match self.timestamp {
                Some(stamps) => Some(stamps@),
                None => None,
            },
            quote: self.quote.deep_view(),
        }
    }
}

/// A chart reply.
#[derive(Clone, Debug, PartialEq, Eq)]
pub struct ChartReply {
    pub result: Option<Vec<ChartData>>,
}

/// The mathematical content of a [`ChartReply`].
pub struct ChartReplyModel {
    pub result: Option<Seq<ChartDataModel>>,
}

impl DeepView for ChartReply {
    type V = ChartReplyModel;

    open spec fn deep_view(&self) -> ChartReplyModel {
        ChartReplyModel { result: self.result.deep_view() }
    }
}

/// How far a price has moved.
#[derive(Clone, Copy, Debug, PartialEq, Eq, Structural)]
pub enum Change {
    /// The provider reports the move.
    Reported(Amount),
    /// The move is `price - previous_close`.
    Difference { price: Amount, previous_close: Amount },
}

/// How far a price has moved, in hundredths of the previous close.
#[derive(Clone, Copy, Debug, PartialEq, Eq, Structural)]
pub enum ChangePercent {
    /// Zero: there is no previous close above zero to divide by.
    Zero,
    /// `change / previous_close * 100`, with a previous close above zero.
    Ratio { change: Change, previous_close: Amount },
}

/// The price of a session and its move.
#[derive(Clone, Copy, Debug, PartialEq, Eq, Structural)]
pub struct Selection {
    pub price: Amount,
    pub change: Change,
}

/// Why a chart reply gives nothing.
#[derive(Clone, Copy, Debug, PartialEq, Eq, Structural)]
pub enum EquityError {
    /// The reply holds no chart.
    NoChartData,
    /// The reply holds no quote.
    NoQuoteData,
}

/// An equity quote.
#[derive(Clone, Debug, PartialEq, Eq)]
pub struct EquityQuote {
    pub symbol: String,
    pub price: Amount,
    pub change: Change,
    pub change_percent: ChangePercent,
    pub high: Amount,
    pub low: Amount,
    pub volume: i64,
    pub session: TradingSession,
}

/// The mathematical content of an [`EquityQuote`].
pub struct EquityQuoteModel {
    pub symbol: Seq<char>,
    pub price: Amount,
    pub change: Change,
    pub change_percent: ChangePercent,
    pub high: Amount,
    pub low: Amount,
    pub volume: i64,
    pub session: TradingSession,
}

impl DeepView for EquityQuote {
    type V = EquityQuoteModel;

    open spec fn deep_view(&self) -> EquityQuoteModel {
        EquityQuoteModel {
            symbol: self.symbol@,
            price: self.price,
            change: self.change,
            change_percent: self.change_percent,
            high: self.high,
            low: self.low,
            volume: self.volume,
            session: self.session,
        }
    }
}

/// A chart: its candles and the day's summary.
#[derive(Clone, Debug, PartialEq, Eq)]
pub struct Chart {
    pub candles: Vec<Candle>,
    pub current_price: Amount,
    pub previous_close: Amount,
    pub day_high: Amount,
    pub day_low: Amount,
    pub volume: i64,
}

/// The mathematical content of a [`Chart`].
pub struct ChartModel {
    pub candles: Seq<Candle>,
    pub current_price: Amount,
    pub previous_close: Amount,
    pub day_high: Amount,
    pub day_low: Amount,
    pub volume: i64,
}

impl DeepView for Chart {
    type V = ChartModel;

    open spec fn deep_view(&self) -> ChartModel {
        ChartModel {
            candles: self.candles@,
            current_price: self.current_price,
            previous_close: self.previous_close,
            day_high: self.day_high,
            day_low: self.day_low,
            volume: self.volume,
        }
    }
}

/// The close of the last of the first `rows` rows that has one, or the
/// fallback where none has.
pub open spec fn latest_close(closes: Seq<Option<Amount>>, rows: int, fallback: Amount) -> Amount
    decreases rows,
{
    if rows <= 0 {
        fallback
    } else {
        match entry(closes, rows - 1) {
            Some(close) => close,
            None => latest_close(closes, rows - 1, fallback),
        }
    }
}

/// The price of a session. After and before hours: the session's own price
/// where the provider reports one, else the latest close. In regular hours
/// and when the market is closed: the regular price.
pub open spec fn session_price(
    session: TradingSession,
    regular_price: Amount,
    post_price: Option<Amount>,
    pre_price: Option<Amount>,
    last_close: Amount,
) -> Amount {
    match session {
        TradingSession::Post => match post_price {
            Some(price) => price,
            None => last_close,
        },
        TradingSession::Pre => match pre_price {
            Some(price) => price,
            None => last_close,
        },
        TradingSession::Closed => regular_price,
        TradingSession::Regular => regular_price,
    }
}

/// The move of a session's price. After and before hours: the session's own
/// move where the provider reports one. Otherwise the price less the
/// previous close.
pub open spec fn session_change(
    session: TradingSession,
    price: Amount,
    previous_close: Amount,
    post_change: Option<Amount>,
    pre_change: Option<Amount>,
) -> Change {
    let reported = match session {
        TradingSession::Post => post_change,
        TradingSession::Pre => pre_change,
        TradingSession::Closed => None,
        TradingSession::Regular => None,
    };
    match reported {
        Some(change) => Change::Reported(change),
        None => Change::Difference { price, previous_close },
    }
}

/// The price of a session and its move.
pub open spec fn selection(
    session: TradingSession,
    regular_price: Amount,
    previous_close: Amount,
    post_price: Option<Amount>,
    pre_price: Option<Amount>,
    post_change: Option<Amount>,
    pre_change: Option<Amount>,
    last_close: Amount,
) -> Selection {
    let price = session_price(session, regular_price, post_price, pre_price, last_close);
    Selection {
        price,
        change: session_change(session, price, previous_close, post_change, pre_change),
    }
}

/// The move in hundredths of the previous close: the ratio where the
/// previous close is above zero, else zero.
pub open spec fn percent_of(change: Change, previous_close: Amount) -> ChangePercent {
    if previous_close.is_positive() {
        ChangePercent::Ratio { change, previous_close }
    } else {
        ChangePercent::Zero
    }
}

/// The first result of a reply.
pub open spec fn first_result(reply: ChartReplyModel) -> Option<ChartDataModel> {
    match reply.result {
        Some(results) => if results.len() > 0 {
            Some(results[0])
        } else {
            None
        },
        None => None,
    }
}

/// The latest close of a result's first quote, over as many rows as there
/// are timestamps; the fallback where timestamps or quote are missing.
pub open spec fn result_latest_close(data: ChartDataModel, fallback: Amount) -> Amount {
    match data.timestamp {
        Some(stamps) => if data.quote.len() > 0 {
            latest_close(data.quote[0].close, stamps.len() as int, fallback)
        } else {
            fallback
        },
        None => fallback,
    }
}

/// The quote a result gives at `now`. An absent regular price counts as
/// zero, an absent previous close as the regular price, an absent high, low
/// or volume as zero; the symbol is the result's own, or the one asked for.
pub open spec fn result_quote(data: ChartDataModel, symbol: Seq<char>, now: int)
    -> EquityQuoteModel {
    let meta = data.meta;
    let regular_price = Amount::or_zero(meta.regular_market_price);
    let previous_close = match meta.previous_close {
        Some(close) => close,
        None => regular_price,
    };
    let session = session_at(now, meta.current_trading_period);
    let chosen = selection(
        session,
        regular_price,
        previous_close,
        meta.post_market_price,
        meta.pre_market_price,
        meta.post_market_change,
        meta.pre_market_change,
        result_latest_close(data, regular_price),
    );
    EquityQuoteModel {
        symbol: match meta.symbol {
            Some(own) => own,
            None => symbol,
        },
        price: chosen.price,
        change: chosen.change,
        change_percent: percent_of(chosen.change, previous_close),
        high: Amount::or_zero(meta.regular_market_day_high),
        low: Amount::or_zero(meta.regular_market_day_low),
        volume: match meta.regular_market_volume {
            Some(v) => v,
            None => 0,
        },
        session,
    }
}

/// The quote a reply gives at `now`: that of its first result.
pub open spec fn reply_quote(reply: ChartReplyModel, symbol: Seq<char>, now: int) -> Result<
    EquityQuoteModel,
    EquityError,
> {
    match first_result(reply) {
        Some(data) => Ok(result_quote(data, symbol, now)),
        None => Err(EquityError::NoQuoteData),
    }
}

/// The price a chart shows as current: the price after hours, else the
/// price before hours, else the regular price, else zero.
pub open spec fn current_price(meta: ChartMetaModel) -> Amount {
    match meta.post_market_price {
        Some(price) => price,
        None => match meta.pre_market_price {
            Some(price) => price,
            None => Amount::or_zero(meta.regular_market_price),
        },
    }
}

/// The first result of a reply, if it has timestamps and a quote.
pub open spec fn charted_result(reply: ChartReplyModel) -> Option<ChartDataModel> {
    match first_result(reply) {
        Some(data) => if data.timestamp is Some && data.quote.len() > 0 {
            Some(data)
        } else {
            None
        },
        None => None,
    }
}

/// The chart a result with timestamps and a quote gives.
pub open spec fn result_chart(data: ChartDataModel) -> ChartModel {
    let columns = data.quote[0];
    let stamps = data.timestamp->0;
    ChartModel {
        candles: candles_of(
            stamps,
            columns.open,
            columns.high,
            columns.low,
            columns.close,
            columns.volume,
            stamps.len() as int,
        ),
        current_price: current_price(data.meta),
        previous_close: Amount::or_zero(data.meta.previous_close),
        day_high: Amount::or_zero(data.meta.regular_market_day_high),
        day_low: Amount::or_zero(data.meta.regular_market_day_low),
        volume: match data.meta.regular_market_volume {
            Some(v) => v,
            None => 0,
        },
    }
}

/// The chart a reply gives: that of its first result.
pub open spec fn reply_chart(reply: ChartReplyModel) -> Result<ChartModel, EquityError> {
    match charted_result(reply) {
        Some(data) => Ok(result_chart(data)),
        None => Err(EquityError::NoChartData),
    }
}

/// The timestamps of every candle the reply gives fit in 64 bits as
/// milliseconds.
pub open spec fn chartable(reply: ChartReplyModel) -> bool {
    match charted_result(reply) {
        Some(data) => timestamps_fit(
            data.timestamp->0,
            data.quote[0].open,
            data.quote[0].high,
            data.quote[0].low,
            data.quote[0].close,
        ),
        None => true,
    }
}

/// The result of reading a quote, by its content.
pub open spec fn quote_outcome_model(outcome: Result<EquityQuote, EquityError>) -> Result<
    EquityQuoteModel,
    EquityError,
> {
    match outcome {
        Ok(quote) => Ok(quote.deep_view()),
        Err(error) => Err(error),
    }
}

/// The result of reading a chart, by its content.
pub open spec fn chart_outcome_model(outcome: Result<Chart, EquityError>) -> Result<
    ChartModel,
    EquityError,
> {
    match outcome {
        Ok(chart) => Ok(chart.deep_view()),
        Err(error) => Err(error),
    }
}

/// The words for an error.
pub open spec fn equity_error_text(error: EquityError) -> Seq<char> {
    match error {
        EquityError::NoChartData => "No data returned from Yahoo Finance"@,
        EquityError::NoQuoteData => "No quote data returned from Yahoo Finance"@,
    }
}

impl EquityError {
    /// The error as one line of text.
    pub fn message(&self) -> (r: &'static str)
        ensures
            r@ == equity_error_text(*self),
    {
        match self {
            EquityError::NoChartData => "No data returned from Yahoo Finance",
            EquityError::NoQuoteData => "No quote data returned from Yahoo Finance",
        }
    }
}

/// Finds the close of the last row that has one.
pub fn last_close(closes: &Vec<Option<Amount>>, rows: usize, fallback: Amount) -> (close: Amount)
    ensures
        close == latest_close(closes@, rows as int, fallback),
{
    let mut row: usize = rows;
    while row > 0
        invariant
            row <= rows,
            latest_close(closes@, rows as int, fallback) == latest_close(
                closes@,
                row as int,
                fallback,
            ),
        decreases row,
    {
        row = row - 1;
        if row < closes.len() {
            match closes[row] {
                Some(close) => {
                    return close;
                },
                None => {},
            }
        }
    }
    fallback
}

/// Selects the price of a session and its move.
pub fn select(
    session: TradingSession,
    regular_price: Amount,
    previous_close: Amount,
    post_price: Option<Amount>,
    pre_price: Option<Amount>,
    post_change: Option<Amount>,
    pre_change: Option<Amount>,
    last_candle_close: Amount,
) -> (chosen: Selection)
    ensures
        chosen == selection(
            session,
            regular_price,
            previous_close,
            post_price,
            pre_price,
            post_change,
            pre_change,
            last_candle_close,
        ),
{
    let (own_price, own_change): (Option<Amount>, Option<Amount>) = match session {
        TradingSession::Post => (post_price, post_change),
        TradingSession::Pre => (pre_price, pre_change),
        TradingSession::Closed => (Some(regular_price), None),
        TradingSession::Regular => (Some(regular_price), None),
    };
    let price: Amount = match own_price {
        Some(p) => p,
        None => last_candle_close,
    };
    let change: Change = match own_change {
        Some(c) => Change::Reported(c),
        None => Change::Difference { price, previous_close },
    };
    Selection { price, change }
}

/// Settles how the move is put in hundredths of the previous close.
pub fn change_percent(change: Change, previous_close: Amount) -> (percent: ChangePercent)
    ensures
        percent == percent_of(change, previous_close),
{
    if previous_close.check_positive() {
        ChangePercent::Ratio { change, previous_close }
    } else {
        ChangePercent::Zero
    }
}

fn leading_result<'a>(reply: &'a ChartReply) -> (r: Option<&'a ChartData>)
    ensures
        r.deep_view() == first_result(reply.deep_view()),
{
    match &reply.result {
        Some(results) => {
            if results.len() > 0 {
                assert(results.deep_view()[0] == results@[0].deep_view());
                Some(&results[0])
            } else {
                None
            }
        },
        None => None,
    }
}

fn latest_close_of(data: &ChartData, fallback: Amount) -> (close: Amount)
    ensures
        close == result_latest_close(data.deep_view(), fallback),
{
    match &data.timestamp {
        Some(stamps) => {
            if data.quote.len() > 0 {
                assert(data.quote.deep_view()[0] == data.quote@[0].deep_view());
                last_close(&data.quote[0].close, stamps.len(), fallback)
            } else {
                fallback
            }
        },
        None => fallback,
    }
}

/// Reads the quote of `symbol` at `now`, in epoch seconds, from a reply.
pub fn quote_of(reply: &ChartReply, symbol: &str, now: i64) -> (outcome: Result<
    EquityQuote,
    EquityError,
>)
    ensures
        quote_outcome_model(outcome) == reply_quote(reply.deep_view(), symbol@, now as int),
{
    let data: &ChartData = match leading_result(reply) {
        Some(data) => data,
        None => {
            return Err(EquityError::NoQuoteData);
        },
    };
    let meta: &ChartMeta = &data.meta;
    let regular_price: Amount = Amount::unwrap_or_zero(meta.regular_market_price);
    let previous_close: Amount = match meta.previous_close {
        Some(close) => close,
        None => regular_price,
    };
    let session: TradingSession = classify(now, meta.current_trading_period);
    let chosen: Selection = select(
        session,
        regular_price,
        previous_close,
        meta.post_market_price,
        meta.pre_market_price,
        meta.post_market_change,
        meta.pre_market_change,
        latest_close_of(data, regular_price),
    );
    let own: String = match &meta.symbol {
        Some(own) => own.clone(),
        None => symbol.to_owned(),
    };
    Ok(
        EquityQuote {
            symbol: own,
            price: chosen.price,
            change: chosen.change,
            change_percent: change_percent(chosen.change, previous_close),
            high: Amount::unwrap_or_zero(meta.regular_market_day_high),
            low: Amount::unwrap_or_zero(meta.regular_market_day_low),
            volume: match meta.regular_market_volume {
                Some(v) => v,
                None => 0,
            },
            session,
        },
    )
}

fn charted<'a>(reply: &'a ChartReply) -> (r: Option<(&'a ChartData, &'a Vec<i64>, &'a QuoteColumns)>)
    ensures
        match r {
            Some((data, stamps, columns)) => charted_result(reply.deep_view()) == Some(
                data.deep_view(),
            ) && data.deep_view().timestamp == Some(stamps@) && data.deep_view().quote[0]
                == columns.deep_view(),
            None => charted_result(reply.deep_view()) is None,
        },
{
    match leading_result(reply) {
        Some(data) => match &data.timestamp {
            Some(stamps) => {
                if data.quote.len() > 0 {
                    assert(data.quote.deep_view()[0] == data.quote@[0].deep_view());
                    Some((data, stamps, &data.quote[0]))
                } else {
                    None
                }
            },
            None => None,
        },
        None => None,
    }
}

/// Whether [`chart_of`] may be called on the reply.
pub fn can_chart(reply: &ChartReply) -> (r: bool)
    ensures
        r == chartable(reply.deep_view()),
{
    match charted(reply) {
        Some((_, stamps, columns)) => can_aggregate(
            stamps,
            &columns.open,
            &columns.high,
            &columns.low,
            &columns.close,
        ),
        None => true,
    }
}

/// Reads the chart from a reply.
pub fn chart_of(reply: &ChartReply) -> (outcome: Result<Chart, EquityError>)
    requires
        chartable(reply.deep_view()),
    ensures
        chart_outcome_model(outcome) == reply_chart(reply.deep_view()),
{
    match charted(reply) {
        Some((data, stamps, columns)) => {
            let meta: &ChartMeta = &data.meta;
            let current: Amount = match meta.post_market_price {
                Some(price) => price,
                None => match meta.pre_market_price {
                    Some(price) => price,
                    None => Amount::unwrap_or_zero(meta.regular_market_price),
                },
            };
            let candles: Vec<Candle> = aggregate(
                stamps,
                &columns.open,
                &columns.high,
                &columns.low,
                &columns.close,
                &columns.volume,
            );
            Ok(
                Chart {
                    candles,
                    current_price: current,
                    previous_close: Amount::unwrap_or_zero(meta.previous_close),
                    day_high: Amount::unwrap_or_zero(meta.regular_market_day_high),
                    day_low: Amount::unwrap_or_zero(meta.regular_market_day_low),
                    volume: match meta.regular_market_volume {
                        Some(v) => v,
                        None => 0,
                    },
                },
            )
        },
        None => Err(EquityError::NoChartData),
    }
}

/// Without a previous close above zero, and so with one that is zero, the
/// move in hundredths is zero: nothing is divided. Where a ratio is asked
/// for, its divisor is a number above zero.
pub proof fn lemma_percent_needs_positive_close(change: Change, previous_close: Amount)
    ensures
        previous_close.is_zero() ==> percent_of(change, previous_close) == ChangePercent::Zero,
        !previous_close.is_positive() <==> percent_of(change, previous_close)
            == ChangePercent::Zero,
        percent_of(change, previous_close) matches ChangePercent::Ratio {
            previous_close: divisor,
            ..
        } ==> divisor == previous_close && divisor.is_positive() && !divisor.is_nan()
            && !divisor.is_zero(),
{
}

/// A quote whose previous close is zero has a move of zero hundredths,
/// whatever the session and the prices.
pub proof fn lemma_quote_percent_zero(data: ChartDataModel, symbol: Seq<char>, now: int)
    requires
        data.meta.previous_close matches Some(close) && close.is_zero(),
    ensures
        result_quote(data, symbol, now).change_percent == ChangePercent::Zero,
{
}

/// In regular hours and when the market is closed, the price is the regular
/// price and the move is its difference from the previous close, whatever
/// the provider reports for the hours before and after.
pub proof fn lemma_regular_and_closed_use_regular_price(
    session: TradingSession,
    regular_price: Amount,
    previous_close: Amount,
    post_price: Option<Amount>,
    pre_price: Option<Amount>,
    post_change: Option<Amount>,
    pre_change: Option<Amount>,
    last_close: Amount,
)
    requires
        session == TradingSession::Regular || session == TradingSession::Closed,
    ensures
        selection(
            session,
            regular_price,
            previous_close,
            post_price,
            pre_price,
            post_change,
            pre_change,
            last_close,
        ) == (Selection {
            price: regular_price,
            change: Change::Difference { price: regular_price, previous_close },
        }),
{
}

/// The latest close is the close of a row that has one and after which no
/// row has one; it is the fallback exactly when no row has a close.
pub proof fn lemma_latest_close_is_last_present(
    closes: Seq<Option<Amount>>,
    rows: int,
    fallback: Amount,
) -> (at: int)
    requires
        0 <= rows,
    ensures
        -1 <= at < rows,
        at >= 0 ==> entry(closes, at) == Some(latest_close(closes, rows, fallback)),
        at < 0 ==> latest_close(closes, rows, fallback) == fallback,
        forall|row: int| at < row < rows ==> (#[trigger] entry(closes, row)) is None,
    decreases rows,
{
    if rows == 0 {
        -1
    } else if entry(closes, rows - 1) is Some {
        rows - 1
    } else {
        lemma_latest_close_is_last_present(closes, rows - 1, fallback)
    }
}

} // verus!
