//! Which trading session an instant falls in.

use vstd::prelude::*;

verus! {

/// The four sessions of a trading day.
#[derive(Clone, Copy, Debug, PartialEq, Eq, Structural)]
pub enum TradingSession {
    Pre,
    Regular,
    Post,
    Closed,
}

/// A half-open interval `[start, end)` of epoch seconds.
#[derive(Clone, Copy, Debug, PartialEq, Eq, Structural)]
pub struct TradingPeriod {
    pub start: i64,
    pub end: i64,
}

/// The three periods a provider reports with a request.
#[derive(Clone, Copy, Debug, PartialEq, Eq, Structural)]
pub struct TradingPeriodCalendar {
    pub pre: TradingPeriod,
    pub regular: TradingPeriod,
    pub post: TradingPeriod,
}

impl TradingPeriod {
    /// `now` lies in `[start, end)`.
    pub open spec fn covers(self, now: int) -> bool {
        self.start <= now < self.end
    }

    /// No instant lies in both periods.
    pub open spec fn disjoint_from(self, other: TradingPeriod) -> bool {
        forall|t: int| !(#[trigger] self.covers(t) && other.covers(t))
    }

    /// Whether `now` lies in the period.
    pub fn contains(&self, now: i64) -> (r: bool)
        ensures
            r == self.covers(now as int),
    {
        self.start <= now && now < self.end
    }
}

impl TradingPeriodCalendar {
    /// The three periods share no instant.
    pub open spec fn non_overlapping(self) -> bool {
        &&& self.pre.disjoint_from(self.regular)
        &&& self.pre.disjoint_from(self.post)
        &&& self.regular.disjoint_from(self.post)
    }
}

/// The session at `now`: without a calendar, regular; with one, the first of
/// pre, regular, post whose period covers `now`, else closed.
pub open spec fn session_at(now: int, calendar: Option<TradingPeriodCalendar>) -> TradingSession {
    match calendar {
        None => TradingSession::Regular,
        Some(c) => if c.pre.covers(now) {
            TradingSession::Pre
        } else if c.regular.covers(now) {
            TradingSession::Regular
        } else if c.post.covers(now) {
            TradingSession::Post
        } else {
            TradingSession::Closed
        },
    }
}

/// The period of the calendar that belongs to a session; closed has none.
pub open spec fn period_of(calendar: TradingPeriodCalendar, session: TradingSession) -> Option<
    TradingPeriod,
> {
    match session {
        TradingSession::Pre => Some(calendar.pre),
        TradingSession::Regular => Some(calendar.regular),
        TradingSession::Post => Some(calendar.post),
        TradingSession::Closed => None,
    }
}

/// The lower-case word for a session.
pub open spec fn session_label(session: TradingSession) -> Seq<char> {
    match session {
        TradingSession::Pre => "pre"@,
        TradingSession::Regular => "regular"@,
        TradingSession::Post => "post"@,
        TradingSession::Closed => "closed"@,
    }
}

/// Classifies `now` against the calendar of the request.
pub fn classify(now: i64, calendar: Option<TradingPeriodCalendar>) -> (session: TradingSession)
    ensures
        session == session_at(now as int, calendar),
{
    match calendar {
        None => TradingSession::Regular,
        Some(c) => {
            if c.pre.contains(now) {
                TradingSession::Pre
            } else if c.regular.contains(now) {
                TradingSession::Regular
            } else if c.post.contains(now) {
                TradingSession::Post
            } else {
                TradingSession::Closed
            }
        },
    }
}

impl TradingSession {
    /// The lower-case word for the session.
    pub fn label(&self) -> (r: &'static str)
        ensures
            r@ == session_label(*self),
    {
        match self {
            TradingSession::Pre => "pre",
            TradingSession::Regular => "regular",
            TradingSession::Post => "post",
            TradingSession::Closed => "closed",
        }
    }
}

/// A session is reported only for an instant inside its period, and closed
/// only for an instant outside all three. An instant equal to a period's end
/// is never given that period's session.
pub proof fn lemma_session_within_period(now: int, calendar: TradingPeriodCalendar)
    ensures
        match period_of(calendar, session_at(now, Some(calendar))) {
            Some(p) => p.covers(now),
            None => !calendar.pre.covers(now) && !calendar.regular.covers(now)
                && !calendar.post.covers(now),
        },
        now == calendar.pre.end ==> session_at(now, Some(calendar)) != TradingSession::Pre,
        now == calendar.regular.end ==> session_at(now, Some(calendar)) != TradingSession::Regular,
        now == calendar.post.end ==> session_at(now, Some(calendar)) != TradingSession::Post,
{
}

/// With periods that do not overlap, the session is the one whose period
/// covers the instant: each instant has exactly one session, and the
/// precedence among periods never decides.
pub proof fn lemma_session_exclusive(now: int, calendar: TradingPeriodCalendar)
    requires
        calendar.non_overlapping(),
    ensures
        session_at(now, Some(calendar)) == TradingSession::Pre <==> calendar.pre.covers(now),
        session_at(now, Some(calendar)) == TradingSession::Regular <==> calendar.regular.covers(
            now,
        ),
        session_at(now, Some(calendar)) == TradingSession::Post <==> calendar.post.covers(now),
        session_at(now, Some(calendar)) == TradingSession::Closed <==> !calendar.pre.covers(now)
            && !calendar.regular.covers(now) && !calendar.post.covers(now),
{
    assert(!(calendar.pre.covers(now) && calendar.regular.covers(now)));
    assert(!(calendar.pre.covers(now) && calendar.post.covers(now)));
    assert(!(calendar.regular.covers(now) && calendar.post.covers(now)));
}

} // verus!
