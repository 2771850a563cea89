pub mod account;
pub mod client;
pub mod instrument;
