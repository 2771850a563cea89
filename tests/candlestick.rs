use oanda_v20::instrument::candlestick::{Candlestick, CandlestickData, Timestamp};

#[test]
fn timestamp_keeps_its_parts() {
    let t = Timestamp::new(1431648000, 500).unwrap();
    assert_eq!(t.seconds, 1431648000);
    assert_eq!(t.nanos, 500);
}

#[test]
fn timestamp_admits_a_leap_second() {
    let t = Timestamp::new(-1, 1_999_999_999).unwrap();
    assert_eq!(t.seconds, -1);
    assert_eq!(t.nanos, 1_999_999_999);
}

#[test]
fn timestamp_refuses_two_seconds_of_nanos() {
    assert!(Timestamp::new(0, 2_000_000_000).is_none());
    assert!(Timestamp::new(0, u32::MAX).is_none());
}

#[test]
fn candlestick_carries_its_prices() {
    let mid = CandlestickData {
        o: "1.10".to_string(),
        h: "1.12".to_string(),
        l: "1.09".to_string(),
        c: "1.11".to_string(),
    };
    let candle = Candlestick {
        time: Timestamp::new(1431648000, 0).unwrap(),
        bid: None,
        ask: None,
        mid: Some(mid),
        volume: 42,
        complete: true,
    };
    let copy = candle.clone();
    assert_eq!(copy.time, candle.time);
    assert_eq!(copy.mid.unwrap().h, "1.12");
    assert_eq!(copy.volume, 42);
}
