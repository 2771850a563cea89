use vstd::prelude::*;

verus! {

/// Nanoseconds in one second.
pub const NANOS_PER_SECOND: u32 = 1_000_000_000;

/// An instant in UTC: whole seconds since the Unix epoch and the nanoseconds
/// past that second. During a leap second the nanoseconds run on past one
/// second, up to just under two.
#[derive(Clone, Copy, Debug, PartialEq, Eq, Structural)]
pub struct Timestamp {
    pub seconds: i64,
    pub nanos: u32,
}

impl Timestamp {
    /// The nanoseconds stay under two seconds.
    pub open spec fn wf(self) -> bool {
        self.nanos < 2 * NANOS_PER_SECOND
    }

    /// The instant `nanos` nanoseconds after second `seconds` of the epoch, or
    /// `None` where `nanos` reaches two seconds.
    pub fn new(seconds: i64, nanos: u32) -> (r: Option<Timestamp>)
        ensures
            r is Some <==> nanos < 2 * NANOS_PER_SECOND,
            r matches Some(t) ==> t.wf() && t.seconds == seconds && t.nanos == nanos,
    {
        if nanos < 2 * NANOS_PER_SECOND {
            Some(Timestamp { seconds, nanos })
        } else {
            None
        }
    }

}

/// Prices of one candlestick: open, high, low and close, as the API writes
/// them, in decimal text.
#[derive(Clone, Debug)]
pub struct CandlestickData {
    pub o: String,
    pub h: String,
    pub l: String,
    pub c: String,
}

/// One candlestick of an instrument's price history.
#[derive(Clone, Debug)]
pub struct Candlestick {
    /// The start time of the candlestick
    pub time: Timestamp,
    /// The candlestick data based on bids. Only provided if bid-based candles
    /// were requested.
    pub bid: Option<CandlestickData>,
    /// The candlestick data based on asks. Only provided if ask-based candles
    /// were requested.
    pub ask: Option<CandlestickData>,
    /// The candlestick data based on midpoints. Only provided if midpoint-based
    /// candles were requested.
    pub mid: Option<CandlestickData>,
    /// The number of prices created during the time-range represented by the
    /// candlestick.
    pub volume: i32,
    /// A flag indicating if the candlestick is complete. A complete candlestick
    /// is one whose ending time is not in the future.
    pub complete: bool,
}

} // verus!
