//! Verified core of a battery-less sensor node: the single-wire sensor
//! decoder, the debounced input sources, the shared configuration and the
//! decisions of the broker session that relays readings.
pub mod config;
pub mod dht;
pub mod input;
pub mod mqtt;
pub mod ui;
