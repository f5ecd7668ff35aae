//! Coordination of validation requests: many concurrent callers ask for a
//! yes/no decision, one operator answers them one at a time, and each caller
//! receives exactly one answer.

pub mod channel;
pub mod coordinator;
pub mod database;
pub mod http;
pub mod laws;
pub mod model;
pub mod paths;
pub mod ports;
pub mod reply;
