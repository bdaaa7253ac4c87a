//! Verified core of a Windows Runtime Bluetooth LE backend: identifier
//! conversions between GUIDs and UUIDs, GATT property and status mapping,
//! and the decision logic that drives reads, writes, subscriptions and
//! automatic pairing.
pub mod ble;
pub mod model;
pub mod pairing;
pub mod text;
pub mod utils;
pub mod winrt;
