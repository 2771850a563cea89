pub mod candlestick;
