//! Candles from the parallel arrays of a chart reply.

use vstd::prelude::*;
use crate::amount::Amount;

verus! {

/// One bar of a chart. `time` is in epoch milliseconds.
#[derive(Clone, Copy, Debug, PartialEq, Eq, Structural)]
pub struct Candle {
    pub time: i64,
    pub open: Amount,
    pub high: Amount,
    pub low: Amount,
    pub close: Amount,
    pub volume: i64,
}

/// The entry of an array at a row; a row past the array's end has none.
pub open spec fn entry<T>(column: Seq<Option<T>>, row: int) -> Option<T> {
    if 0 <= row < column.len() {
        column[row]
    } else {
        None
    }
}

/// The four prices of the row are all present.
pub open spec fn row_complete(
    open: Seq<Option<Amount>>,
    high: Seq<Option<Amount>>,
    low: Seq<Option<Amount>>,
    close: Seq<Option<Amount>>,
    row: int,
) -> bool {
    entry(open, row) is Some && entry(high, row) is Some && entry(low, row) is Some && entry(
        close,
        row,
    ) is Some
}

/// The candle of a complete row: the timestamp in milliseconds, the four
/// prices, and the volume, 0 where it is absent.
pub open spec fn row_candle(
    timestamps: Seq<i64>,
    open: Seq<Option<Amount>>,
    high: Seq<Option<Amount>>,
    low: Seq<Option<Amount>>,
    close: Seq<Option<Amount>>,
    volume: Seq<Option<i64>>,
    row: int,
) -> Candle {
    Candle {
        time: (timestamps[row] * 1000) as i64,
        open: entry(open, row)->0,
        high: entry(high, row)->0,
        low: entry(low, row)->0,
        close: entry(close, row)->0,
        volume: match entry(volume, row) {
            Some(v) => v,
            None => 0,
        },
    }
}

/// The candles of the first `rows` rows, in row order: one for each
/// complete row, none for the others.
pub open spec fn candles_of(
    timestamps: Seq<i64>,
    open: Seq<Option<Amount>>,
    high: Seq<Option<Amount>>,
    low: Seq<Option<Amount>>,
    close: Seq<Option<Amount>>,
    volume: Seq<Option<i64>>,
    rows: int,
) -> Seq<Candle>
    decreases rows,
{
    if rows <= 0 {
        Seq::empty()
    } else {
        let earlier = candles_of(timestamps, open, high, low, close, volume, rows - 1);
        if row_complete(open, high, low, close, rows - 1) {
            earlier.push(row_candle(timestamps, open, high, low, close, volume, rows - 1))
        } else {
            earlier
        }
    }
}

/// Every complete row has a timestamp whose milliseconds fit in 64 bits.
pub open spec fn timestamps_fit(
    timestamps: Seq<i64>,
    open: Seq<Option<Amount>>,
    high: Seq<Option<Amount>>,
    low: Seq<Option<Amount>>,
    close: Seq<Option<Amount>>,
) -> bool {
    forall|row: int|
        0 <= row < timestamps.len() && #[trigger] row_complete(open, high, low, close, row)
            ==> i64::MIN <= timestamps[row] * 1000 <= i64::MAX
}

fn cell<T: Copy>(column: &Vec<Option<T>>, row: usize) -> (r: Option<T>)
    ensures
        r == entry(column@, row as int),
{
    if row < column.len() {
        column[row]
    } else {
        None
    }
}

/// Whether [`aggregate`] may be called on these arrays.
pub fn can_aggregate(
    timestamps: &Vec<i64>,
    open: &Vec<Option<Amount>>,
    high: &Vec<Option<Amount>>,
    low: &Vec<Option<Amount>>,
    close: &Vec<Option<Amount>>,
) -> (r: bool)
    ensures
        r == timestamps_fit(timestamps@, open@, high@, low@, close@),
{
    let mut row: usize = 0;
    while row < timestamps.len()
        invariant
            row <= timestamps.len(),
            forall|k: int|
                0 <= k < row && #[trigger] row_complete(open@, high@, low@, close@, k)
                    ==> i64::MIN <= timestamps@[k] * 1000 <= i64::MAX,
        decreases timestamps.len() - row,
    {
        let complete: bool = cell(open, row).is_some() && cell(high, row).is_some() && cell(
            low,
            row,
        ).is_some() && cell(close, row).is_some();
        if complete {
            let t: i64 = timestamps[row];
            if t.checked_mul(1000).is_none() {
                assert(row_complete(open@, high@, low@, close@, row as int));
                return false;
            }
        }
        row = row + 1;
    }
    true
}

/// Turns the parallel arrays of a chart into candles: one per row whose
/// open, high, low and close are all present, in row order. A column shorter
/// than the timestamps counts as absent from its end on.
pub fn aggregate(
    timestamps: &Vec<i64>,
    open: &Vec<Option<Amount>>,
    high: &Vec<Option<Amount>>,
    low: &Vec<Option<Amount>>,
    close: &Vec<Option<Amount>>,
    volume: &Vec<Option<i64>>,
) -> (candles: Vec<Candle>)
    requires
        timestamps_fit(timestamps@, open@, high@, low@, close@),
    ensures
        candles@ == candles_of(
            timestamps@,
            open@,
            high@,
            low@,
            close@,
            volume@,
            timestamps.len() as int,
        ),
        candles@.len() <= timestamps@.len(),
{
    proof {
        lemma_candles_come_from_complete_rows(
            timestamps@,
            open@,
            high@,
            low@,
            close@,
            volume@,
            timestamps.len() as int,
        );
    }
    let mut candles: Vec<Candle> = Vec::new();
    let mut row: usize = 0;
    while row < timestamps.len()
        invariant
            row <= timestamps.len(),
            timestamps_fit(timestamps@, open@, high@, low@, close@),
            candles@ == candles_of(timestamps@, open@, high@, low@, close@, volume@, row as int),
        decreases timestamps.len() - row,
    {
        match (cell(open, row), cell(high, row), cell(low, row), cell(close, row)) {
            (Some(o), Some(h), Some(l), Some(c)) => {
                assert(row_complete(open@, high@, low@, close@, row as int));
                let v: i64 = match cell(volume, row) {
                    Some(v) => v,
                    None => 0,
                };
                candles.push(
                    Candle { time: timestamps[row] * 1000, open: o, high: h, low: l, close: c, volume: v },
                );
            },
            _ => {},
        }
        row = row + 1;
    }
    candles
}

/// The aggregate never has more candles than rows were read, and each of
/// its candles is the candle of a complete row; candles keep the order of
/// their rows.
pub proof fn lemma_candles_come_from_complete_rows(
    timestamps: Seq<i64>,
    open: Seq<Option<Amount>>,
    high: Seq<Option<Amount>>,
    low: Seq<Option<Amount>>,
    close: Seq<Option<Amount>>,
    volume: Seq<Option<i64>>,
    rows: int,
) -> (origin: Seq<int>)
    requires
        0 <= rows,
    ensures
        candles_of(timestamps, open, high, low, close, volume, rows).len() <= rows,
        origin.len() == candles_of(timestamps, open, high, low, close, volume, rows).len(),
        forall|k: int|
            0 <= k < origin.len() ==> 0 <= #[trigger] origin[k] < rows && row_complete(
                open,
                high,
                low,
                close,
                origin[k],
            ) && candles_of(timestamps, open, high, low, close, volume, rows)[k] == row_candle(
                timestamps,
                open,
                high,
                low,
                close,
                volume,
                origin[k],
            ),
        forall|j: int, k: int| 0 <= j < k < origin.len() ==> origin[j] < origin[k],
        forall|row: int|
            0 <= row < rows && #[trigger] row_complete(open, high, low, close, row)
                ==> origin.contains(row),
    decreases rows,
{
    if rows == 0 {
        Seq::empty()
    } else {
        let earlier = lemma_candles_come_from_complete_rows(
            timestamps,
            open,
            high,
            low,
            close,
            volume,
            rows - 1,
        );
        if row_complete(open, high, low, close, rows - 1) {
            let origin = earlier.push(rows - 1);
            assert(origin[origin.len() - 1] == rows - 1);
            assert forall|row: int|
                0 <= row < rows && row_complete(open, high, low, close, row) implies origin.contains(
                row,
            ) by {
                if row < rows - 1 {
                    assert(earlier.contains(row));
                    let k = earlier.index_of(row);
                    assert(origin[k] == row);
                } else {
                    assert(origin[origin.len() - 1] == row);
                }
            }
            origin
        } else {
            earlier
        }
    }
}

/// Candles mirror the order of the provider: where the timestamps of the
/// complete rows rise from row to row, the times of the candles rise from
/// candle to candle.
pub proof fn lemma_candles_keep_time_order(
    timestamps: Seq<i64>,
    open: Seq<Option<Amount>>,
    high: Seq<Option<Amount>>,
    low: Seq<Option<Amount>>,
    close: Seq<Option<Amount>>,
    volume: Seq<Option<i64>>,
)
    requires
        timestamps_fit(timestamps, open, high, low, close),
        forall|i: int, j: int|
            0 <= i < j < timestamps.len() && row_complete(open, high, low, close, i)
                && row_complete(open, high, low, close, j) ==> timestamps[i] < timestamps[j],
    ensures
        forall|j: int, k: int|
            0 <= j < k < candles_of(
                timestamps,
                open,
                high,
                low,
                close,
                volume,
                timestamps.len() as int,
            ).len() ==> candles_of(
                timestamps,
                open,
                high,
                low,
                close,
                volume,
                timestamps.len() as int,
            )[j].time < candles_of(
                timestamps,
                open,
                high,
                low,
                close,
                volume,
                timestamps.len() as int,
            )[k].time,
{
    let rows = timestamps.len() as int;
    let candles = candles_of(timestamps, open, high, low, close, volume, rows);
    let origin = lemma_candles_come_from_complete_rows(
        timestamps,
        open,
        high,
        low,
        close,
        volume,
        rows,
    );
    assert forall|j: int, k: int| 0 <= j < k < candles.len() implies candles[j].time
        < candles[k].time by {
        assert(origin[j] < origin[k]);
        assert(row_complete(open, high, low, close, origin[j]));
        assert(row_complete(open, high, low, close, origin[k]));
        assert(timestamps[origin[j]] < timestamps[origin[k]]);
    }
}

/// Where the provider reports no volume below zero, no candle has one.
pub proof fn lemma_candle_volumes_not_negative(
    timestamps: Seq<i64>,
    open: Seq<Option<Amount>>,
    high: Seq<Option<Amount>>,
    low: Seq<Option<Amount>>,
    close: Seq<Option<Amount>>,
    volume: Seq<Option<i64>>,
)
    requires
        forall|row: int|
            0 <= row < volume.len() ==> (#[trigger] volume[row] matches Some(v) ==> v >= 0),
    ensures
        forall|k: int|
            0 <= k < candles_of(
                timestamps,
                open,
                high,
                low,
                close,
                volume,
                timestamps.len() as int,
            ).len() ==> (#[trigger] candles_of(
                timestamps,
                open,
                high,
                low,
                close,
                volume,
                timestamps.len() as int,
            )[k]).volume >= 0,
{
    let rows = timestamps.len() as int;
    let candles = candles_of(timestamps, open, high, low, close, volume, rows);
    let origin = lemma_candles_come_from_complete_rows(
        timestamps,
        open,
        high,
        low,
        close,
        volume,
        rows,
    );
    assert forall|k: int| 0 <= k < candles.len() implies (#[trigger] candles[k]).volume >= 0 by {
        let row = origin[k];
        assert(candles[k] == row_candle(timestamps, open, high, low, close, volume, row));
        if 0 <= row < volume.len() {
            assert(volume[row] matches Some(v) ==> v >= 0);
        }
    }
}

} // verus!
