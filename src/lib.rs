//! A UDP load generator's dispatch-and-retry engine: batch planning, the
//! per-destination worker state machine, all-or-nothing socket start-up,
//! payload checks and the parsing of numeric options.

pub mod config;
pub mod dispatch;
pub mod logging;
pub mod packet;
pub mod plan;
pub mod worker;
