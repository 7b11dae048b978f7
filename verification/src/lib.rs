//! Closed-loop climate control for a small growing chamber.
//!
//! The crate holds the rules of the control loop: the append-only store of
//! measurements and of target settings, the sampler that turns three channel
//! reads into one stored row, the controller that switches ventilation,
//! heating and lighting, the fixed-rate timer that paces both, and the
//! mapping of operator requests onto the store.
//!
//! Drivers, sockets and disks stay with the caller, which hands their
//! results in as plain values. Numbers come in as single-precision words and
//! are held as whole thousandths from then on.

pub mod quantity;
pub mod binary32;
pub mod timestamp;
pub mod database;
pub mod schedule;
pub mod sensors;
pub mod control;
pub mod api;
