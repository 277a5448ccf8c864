//! Pairing and recording control for a capture box: the rules by which a
//! client pairs with the host, starts and stops a recording and unpairs,
//! together with the helpers that generate pairing keys and format times.

pub mod utils;
pub mod models;
pub mod client_handlers;
pub mod recorder;
pub mod laws;
