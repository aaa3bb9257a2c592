use price_resolver::session::{classify, TradingPeriod, TradingPeriodCalendar, TradingSession};

fn calendar() -> TradingPeriodCalendar {
    TradingPeriodCalendar {
        pre: TradingPeriod { start: 1_000, end: 2_000 },
        regular: TradingPeriod { start: 2_000, end: 3_000 },
        post: TradingPeriod { start: 3_000, end: 4_000 },
    }
}

#[test]
fn classify_without_calendar_is_regular() {
    assert_eq!(classify(0, None), TradingSession::Regular);
    assert_eq!(classify(i64::MAX, None), TradingSession::Regular);
}

#[test]
fn classify_boundaries_are_half_open() {
    let c = Some(calendar());
    assert_eq!(classify(999, c), TradingSession::Closed);
    assert_eq!(classify(1_000, c), TradingSession::Pre);
    assert_eq!(classify(1_999, c), TradingSession::Pre);
    assert_eq!(classify(2_000, c), TradingSession::Regular);
    assert_eq!(classify(2_999, c), TradingSession::Regular);
    assert_eq!(classify(3_000, c), TradingSession::Post);
    assert_eq!(classify(3_999, c), TradingSession::Post);
    assert_eq!(classify(4_000, c), TradingSession::Closed);
}

#[test]
fn classify_at_regular_end_is_never_regular() {
    let c = calendar();
    assert_ne!(classify(c.regular.end, Some(c)), TradingSession::Regular);
    assert_ne!(classify(c.pre.end, Some(c)), TradingSession::Pre);
    assert_ne!(classify(c.post.end, Some(c)), TradingSession::Post);
    let gap = TradingPeriodCalendar {
        pre: TradingPeriod { start: 10, end: 20 },
        regular: TradingPeriod { start: 30, end: 40 },
        post: TradingPeriod { start: 50, end: 60 },
    };
    assert_eq!(classify(20, Some(gap)), TradingSession::Closed);
    assert_eq!(classify(40, Some(gap)), TradingSession::Closed);
    assert_eq!(classify(45, Some(gap)), TradingSession::Closed);
    assert_eq!(classify(60, Some(gap)), TradingSession::Closed);
}

#[test]
fn classify_gives_the_covering_period_for_every_instant() {
    let c = calendar();
    for now in 900..4_100 {
        let session = classify(now, Some(c));
        let covering = [
            (c.pre.contains(now), TradingSession::Pre),
            (c.regular.contains(now), TradingSession::Regular),
            (c.post.contains(now), TradingSession::Post),
        ];
        let hits: Vec<TradingSession> =
            covering.iter().filter(|(hit, _)| *hit).map(|(_, s)| *s).collect();
        assert!(hits.len() <= 1);
        match hits.first() {
            Some(expected) => assert_eq!(session, *expected),
            None => assert_eq!(session, TradingSession::Closed),
        }
    }
}

#[test]
fn classify_prefers_earlier_period_when_periods_overlap() {
    let overlapping = TradingPeriodCalendar {
        pre: TradingPeriod { start: 0, end: 100 },
        regular: TradingPeriod { start: 50, end: 150 },
        post: TradingPeriod { start: 120, end: 200 },
    };
    assert_eq!(classify(75, Some(overlapping)), TradingSession::Pre);
    assert_eq!(classify(130, Some(overlapping)), TradingSession::Regular);
    assert_eq!(classify(150, Some(overlapping)), TradingSession::Post);
}

#[test]
fn classify_with_empty_or_reversed_period() {
    let odd = TradingPeriodCalendar {
        pre: TradingPeriod { start: 10, end: 10 },
        regular: TradingPeriod { start: 30, end: 20 },
        post: TradingPeriod { start: i64::MIN, end: 0 },
    };
    assert_eq!(classify(10, Some(odd)), TradingSession::Closed);
    assert_eq!(classify(25, Some(odd)), TradingSession::Closed);
    assert_eq!(classify(-1, Some(odd)), TradingSession::Post);
    assert_eq!(classify(i64::MIN, Some(odd)), TradingSession::Post);
    assert_eq!(classify(0, Some(odd)), TradingSession::Closed);
}

#[test]
fn session_labels() {
    assert_eq!(TradingSession::Pre.label(), "pre");
    assert_eq!(TradingSession::Regular.label(), "regular");
    assert_eq!(TradingSession::Post.label(), "post");
    assert_eq!(TradingSession::Closed.label(), "closed");
}

#[test]
fn period_contains_is_half_open() {
    let p = TradingPeriod { start: 5, end: 8 };
    assert!(!p.contains(4));
    assert!(p.contains(5));
    assert!(p.contains(7));
    assert!(!p.contains(8));
}
