use price_resolver::amount::Amount;
use price_resolver::equity::{
    can_chart, change_percent, chart_of, last_close, quote_of, select, Change, ChangePercent,
    ChartData, ChartMeta, ChartReply, EquityError, QuoteColumns, Selection,
};
use price_resolver::session::{TradingPeriod, TradingPeriodCalendar, TradingSession};

fn n(value: f64) -> Amount {
    Amount::from_bits(value.to_bits())
}

fn value_of(amount: Amount) -> f64 {
    f64::from_bits(amount.to_bits())
}

fn change_value(change: Change) -> f64 {
    match change {
        Change::Reported(c) => value_of(c),
        Change::Difference { price, previous_close } => value_of(price) - value_of(previous_close),
    }
}

fn percent_value(percent: ChangePercent) -> f64 {
    match percent {
        ChangePercent::Zero => 0.0,
        ChangePercent::Ratio { change, previous_close } => {
            change_value(change) / value_of(previous_close) * 100.0
        }
    }
}

fn blank_meta() -> ChartMeta {
    ChartMeta {
        symbol: None,
        regular_market_price: None,
        previous_close: None,
        regular_market_day_high: None,
        regular_market_day_low: None,
        regular_market_volume: None,
        post_market_price: None,
        pre_market_price: None,
        post_market_change: None,
        pre_market_change: None,
        current_trading_period: None,
    }
}

fn day() -> TradingPeriodCalendar {
    TradingPeriodCalendar {
        pre: TradingPeriod { start: 100, end: 200 },
        regular: TradingPeriod { start: 200, end: 300 },
        post: TradingPeriod { start: 300, end: 400 },
    }
}

fn columns(close: Vec<Option<Amount>>) -> QuoteColumns {
    let filled: Vec<Option<Amount>> = close.iter().map(|_| Some(n(1.0))).collect();
    QuoteColumns {
        open: filled.clone(),
        high: filled.clone(),
        low: filled,
        volume: close.iter().map(|_| Some(5)).collect(),
        close,
    }
}

fn reply_with(meta: ChartMeta, timestamp: Option<Vec<i64>>, quote: Vec<QuoteColumns>) -> ChartReply {
    ChartReply { result: Some(vec![ChartData { meta, timestamp, quote }]) }
}

#[test]
fn quote_in_regular_session() {
    let mut meta = blank_meta();
    meta.symbol = Some("ACME".to_string());
    meta.regular_market_price = Some(n(100.0));
    meta.previous_close = Some(n(98.0));
    meta.current_trading_period = Some(day());
    let reply = reply_with(meta, None, Vec::new());
    let quote = quote_of(&reply, "acme", 250).unwrap();
    assert_eq!(quote.session, TradingSession::Regular);
    assert_eq!(quote.symbol, "ACME");
    assert_eq!(value_of(quote.price), 100.0);
    assert_eq!(quote.change, Change::Difference { price: n(100.0), previous_close: n(98.0) });
    assert_eq!(change_value(quote.change), 2.0);
    assert_eq!(
        quote.change_percent,
        ChangePercent::Ratio { change: quote.change, previous_close: n(98.0) }
    );
    let percent = percent_value(quote.change_percent);
    assert!((percent - 2.0408163265306123).abs() < 1e-12);
}

#[test]
fn quote_without_calendar_is_regular() {
    let mut meta = blank_meta();
    meta.regular_market_price = Some(n(10.0));
    meta.post_market_price = Some(n(11.0));
    meta.pre_market_price = Some(n(9.0));
    let quote = quote_of(&reply_with(meta, None, Vec::new()), "X", 0).unwrap();
    assert_eq!(quote.session, TradingSession::Regular);
    assert_eq!(quote.price, n(10.0));
    assert_eq!(quote.symbol, "X");
}

#[test]
fn quote_zero_previous_close_has_zero_percent() {
    for close in [0.0, -0.0] {
        for now in [150, 250, 350, 450] {
            let mut meta = blank_meta();
            meta.regular_market_price = Some(n(42.0));
            meta.previous_close = Some(n(close));
            meta.post_market_price = Some(n(43.0));
            meta.pre_market_change = Some(n(0.5));
            meta.current_trading_period = Some(day());
            let quote = quote_of(&reply_with(meta, None, Vec::new()), "Z", now).unwrap();
            assert_eq!(quote.change_percent, ChangePercent::Zero);
            let percent = percent_value(quote.change_percent);
            assert_eq!(percent, 0.0);
            assert!(percent.is_finite());
        }
    }
}

#[test]
fn quote_missing_previous_close_defaults_to_regular_price() {
    let mut meta = blank_meta();
    meta.regular_market_price = Some(n(50.0));
    let quote = quote_of(&reply_with(meta, None, Vec::new()), "Q", 0).unwrap();
    assert_eq!(quote.change, Change::Difference { price: n(50.0), previous_close: n(50.0) });
    assert_eq!(change_value(quote.change), 0.0);
    assert_eq!(
        quote.change_percent,
        ChangePercent::Ratio { change: quote.change, previous_close: n(50.0) }
    );
    assert_eq!(percent_value(quote.change_percent), 0.0);
}

#[test]
fn quote_with_nothing_known_is_all_zero() {
    let quote = quote_of(&reply_with(blank_meta(), None, Vec::new()), "NEW", 0).unwrap();
    assert_eq!(quote.price, n(0.0));
    assert_eq!(quote.change_percent, ChangePercent::Zero);
    assert_eq!(quote.high, n(0.0));
    assert_eq!(quote.low, n(0.0));
    assert_eq!(quote.volume, 0);
    assert_eq!(quote.symbol, "NEW");
}

#[test]
fn quote_negative_or_nan_previous_close_has_zero_percent() {
    for close in [-5.0, f64::NAN, f64::NEG_INFINITY] {
        let mut meta = blank_meta();
        meta.regular_market_price = Some(n(42.0));
        meta.previous_close = Some(n(close));
        let quote = quote_of(&reply_with(meta, None, Vec::new()), "Z", 0).unwrap();
        assert_eq!(quote.change_percent, ChangePercent::Zero);
    }
}

#[test]
fn quote_post_session_uses_post_fields() {
    let mut meta = blank_meta();
    meta.regular_market_price = Some(n(100.0));
    meta.previous_close = Some(n(90.0));
    meta.post_market_price = Some(n(101.5));
    meta.post_market_change = Some(n(1.5));
    meta.pre_market_price = Some(n(7.0));
    meta.pre_market_change = Some(n(8.0));
    meta.current_trading_period = Some(day());
    let quote = quote_of(&reply_with(meta, None, Vec::new()), "P", 300).unwrap();
    assert_eq!(quote.session, TradingSession::Post);
    assert_eq!(quote.price, n(101.5));
    assert_eq!(quote.change, Change::Reported(n(1.5)));
    let percent = percent_value(quote.change_percent);
    assert!((percent - 1.5 / 90.0 * 100.0).abs() < 1e-12);
}

#[test]
fn quote_post_session_falls_back_to_last_candle_close() {
    let mut meta = blank_meta();
    meta.regular_market_price = Some(n(100.0));
    meta.previous_close = Some(n(90.0));
    meta.current_trading_period = Some(day());
    let reply = reply_with(
        meta,
        Some(vec![1, 2, 3, 4]),
        vec![columns(vec![Some(n(95.0)), Some(n(96.0)), None, None])],
    );
    let quote = quote_of(&reply, "P", 399).unwrap();
    assert_eq!(quote.session, TradingSession::Post);
    assert_eq!(quote.price, n(96.0));
    assert_eq!(quote.change, Change::Difference { price: n(96.0), previous_close: n(90.0) });
    assert_eq!(change_value(quote.change), 6.0);
}

#[test]
fn quote_pre_session_is_symmetric_to_post() {
    let mut meta = blank_meta();
    meta.regular_market_price = Some(n(100.0));
    meta.previous_close = Some(n(90.0));
    meta.pre_market_price = Some(n(99.0));
    meta.post_market_price = Some(n(1.0));
    meta.post_market_change = Some(n(2.0));
    meta.current_trading_period = Some(day());
    let quote = quote_of(&reply_with(meta.clone(), None, Vec::new()), "P", 100).unwrap();
    assert_eq!(quote.session, TradingSession::Pre);
    assert_eq!(quote.price, n(99.0));
    assert_eq!(quote.change, Change::Difference { price: n(99.0), previous_close: n(90.0) });

    meta.pre_market_price = None;
    meta.pre_market_change = Some(n(-0.25));
    let quote = quote_of(&reply_with(meta, None, Vec::new()), "P", 199).unwrap();
    assert_eq!(quote.price, n(100.0));
    assert_eq!(quote.change, Change::Reported(n(-0.25)));
}

#[test]
fn quote_closed_session_uses_regular_price() {
    let mut meta = blank_meta();
    meta.regular_market_price = Some(n(100.0));
    meta.previous_close = Some(n(80.0));
    meta.post_market_price = Some(n(120.0));
    meta.post_market_change = Some(n(20.0));
    meta.pre_market_price = Some(n(70.0));
    meta.current_trading_period = Some(day());
    let reply = reply_with(meta, Some(vec![1]), vec![columns(vec![Some(n(119.0))])]);
    let quote = quote_of(&reply, "C", 400).unwrap();
    assert_eq!(quote.session, TradingSession::Closed);
    assert_eq!(quote.price, n(100.0));
    assert_eq!(quote.change, Change::Difference { price: n(100.0), previous_close: n(80.0) });
    assert_eq!(percent_value(quote.change_percent), 25.0);
}

#[test]
fn quote_carries_day_summary() {
    let mut meta = blank_meta();
    meta.regular_market_price = Some(n(10.0));
    meta.regular_market_day_high = Some(n(12.0));
    meta.regular_market_day_low = Some(n(9.0));
    meta.regular_market_volume = Some(123_456);
    let quote = quote_of(&reply_with(meta, None, Vec::new()), "D", 0).unwrap();
    assert_eq!(quote.high, n(12.0));
    assert_eq!(quote.low, n(9.0));
    assert_eq!(quote.volume, 123_456);
}

#[test]
fn quote_fails_without_result() {
    assert_eq!(quote_of(&ChartReply { result: None }, "A", 0), Err(EquityError::NoQuoteData));
    assert_eq!(
        quote_of(&ChartReply { result: Some(Vec::new()) }, "A", 0),
        Err(EquityError::NoQuoteData)
    );
    assert_eq!(EquityError::NoQuoteData.message(), "No quote data returned from Yahoo Finance");
    assert_eq!(EquityError::NoChartData.message(), "No data returned from Yahoo Finance");
}

#[test]
fn quote_reads_only_the_first_result() {
    let mut first = blank_meta();
    first.regular_market_price = Some(n(1.0));
    let mut second = blank_meta();
    second.regular_market_price = Some(n(2.0));
    let reply = ChartReply {
        result: Some(vec![
            ChartData { meta: first, timestamp: None, quote: Vec::new() },
            ChartData { meta: second, timestamp: None, quote: Vec::new() },
        ]),
    };
    assert_eq!(quote_of(&reply, "A", 0).unwrap().price, n(1.0));
}

#[test]
fn last_close_scans_backward() {
    let closes = vec![Some(n(1.0)), Some(n(2.0)), None, Some(n(4.0)), None];
    assert_eq!(last_close(&closes, 5, n(9.0)), n(4.0));
    assert_eq!(last_close(&closes, 4, n(9.0)), n(4.0));
    assert_eq!(last_close(&closes, 3, n(9.0)), n(2.0));
    assert_eq!(last_close(&closes, 1, n(9.0)), n(1.0));
    assert_eq!(last_close(&closes, 0, n(9.0)), n(9.0));
}

#[test]
fn last_close_falls_back_when_no_close_is_present() {
    let closes = vec![None, None];
    assert_eq!(last_close(&closes, 2, n(9.0)), n(9.0));
    assert_eq!(last_close(&Vec::new(), 3, n(9.0)), n(9.0));
}

#[test]
fn last_close_tolerates_more_rows_than_closes() {
    let closes = vec![Some(n(1.0)), Some(n(2.0))];
    assert_eq!(last_close(&closes, 10, n(9.0)), n(2.0));
}

#[test]
fn select_covers_every_session() {
    let regular = n(100.0);
    let previous = n(90.0);
    let last = n(95.0);
    let differ = |price: Amount| Change::Difference { price, previous_close: previous };
    assert_eq!(
        select(TradingSession::Regular, regular, previous, Some(n(1.0)), Some(n(2.0)), Some(n(3.0)), Some(n(4.0)), last),
        Selection { price: regular, change: differ(regular) }
    );
    assert_eq!(
        select(TradingSession::Closed, regular, previous, Some(n(1.0)), Some(n(2.0)), Some(n(3.0)), Some(n(4.0)), last),
        Selection { price: regular, change: differ(regular) }
    );
    assert_eq!(
        select(TradingSession::Post, regular, previous, Some(n(1.0)), Some(n(2.0)), Some(n(3.0)), Some(n(4.0)), last),
        Selection { price: n(1.0), change: Change::Reported(n(3.0)) }
    );
    assert_eq!(
        select(TradingSession::Pre, regular, previous, Some(n(1.0)), Some(n(2.0)), Some(n(3.0)), Some(n(4.0)), last),
        Selection { price: n(2.0), change: Change::Reported(n(4.0)) }
    );
    assert_eq!(
        select(TradingSession::Post, regular, previous, None, Some(n(2.0)), None, Some(n(4.0)), last),
        Selection { price: last, change: differ(last) }
    );
    assert_eq!(
        select(TradingSession::Pre, regular, previous, Some(n(1.0)), None, Some(n(3.0)), None, last),
        Selection { price: last, change: differ(last) }
    );
    assert_eq!(
        select(TradingSession::Post, regular, previous, Some(n(1.0)), None, None, None, last),
        Selection { price: n(1.0), change: differ(n(1.0)) }
    );
}

#[test]
fn change_percent_needs_a_positive_previous_close() {
    let change = Change::Reported(n(2.0));
    assert_eq!(change_percent(change, n(0.0)), ChangePercent::Zero);
    assert_eq!(change_percent(change, n(-0.0)), ChangePercent::Zero);
    assert_eq!(change_percent(change, n(-1.0)), ChangePercent::Zero);
    assert_eq!(change_percent(change, n(f64::NAN)), ChangePercent::Zero);
    assert_eq!(
        change_percent(change, n(4.0)),
        ChangePercent::Ratio { change, previous_close: n(4.0) }
    );
    assert_eq!(percent_value(change_percent(change, n(4.0))), 50.0);
}

#[test]
fn chart_collects_candles_and_summary() {
    let mut meta = blank_meta();
    meta.regular_market_price = Some(n(10.0));
    meta.previous_close = Some(n(9.0));
    meta.regular_market_day_high = Some(n(11.0));
    meta.regular_market_day_low = Some(n(8.0));
    meta.regular_market_volume = Some(77);
    let reply = reply_with(
        meta,
        Some(vec![10, 20, 30]),
        vec![columns(vec![Some(n(1.0)), None, Some(n(3.0))])],
    );
    assert!(can_chart(&reply));
    let chart = chart_of(&reply).unwrap();
    assert_eq!(chart.candles.len(), 2);
    assert_eq!(chart.candles[0].time, 10_000);
    assert_eq!(chart.candles[0].close, n(1.0));
    assert_eq!(chart.candles[1].time, 30_000);
    assert_eq!(chart.candles[1].close, n(3.0));
    assert_eq!(chart.candles[1].volume, 5);
    assert_eq!(chart.current_price, n(10.0));
    assert_eq!(chart.previous_close, n(9.0));
    assert_eq!(chart.day_high, n(11.0));
    assert_eq!(chart.day_low, n(8.0));
    assert_eq!(chart.volume, 77);
}

#[test]
fn chart_current_price_prefers_extended_hours() {
    let mut meta = blank_meta();
    meta.regular_market_price = Some(n(10.0));
    meta.pre_market_price = Some(n(11.0));
    let reply = reply_with(meta.clone(), Some(Vec::new()), vec![columns(Vec::new())]);
    assert_eq!(chart_of(&reply).unwrap().current_price, n(11.0));
    meta.post_market_price = Some(n(12.0));
    let reply = reply_with(meta, Some(Vec::new()), vec![columns(Vec::new())]);
    let chart = chart_of(&reply).unwrap();
    assert_eq!(chart.current_price, n(12.0));
    assert_eq!(chart.previous_close, n(0.0));
    assert!(chart.candles.is_empty());
}

#[test]
fn chart_fails_without_data() {
    assert_eq!(chart_of(&ChartReply { result: None }), Err(EquityError::NoChartData));
    assert_eq!(chart_of(&ChartReply { result: Some(Vec::new()) }), Err(EquityError::NoChartData));
    let no_stamps = reply_with(blank_meta(), None, vec![columns(Vec::new())]);
    assert_eq!(chart_of(&no_stamps), Err(EquityError::NoChartData));
    let no_quote = reply_with(blank_meta(), Some(vec![1]), Vec::new());
    assert_eq!(chart_of(&no_quote), Err(EquityError::NoChartData));
    assert!(can_chart(&no_quote));
}

#[test]
fn can_chart_rejects_overflowing_timestamps() {
    let reply = reply_with(blank_meta(), Some(vec![i64::MAX]), vec![columns(vec![Some(n(1.0))])]);
    assert!(!can_chart(&reply));
    let skipped = reply_with(blank_meta(), Some(vec![i64::MAX]), vec![columns(vec![None])]);
    assert!(can_chart(&skipped));
    assert!(chart_of(&skipped).unwrap().candles.is_empty());
}
