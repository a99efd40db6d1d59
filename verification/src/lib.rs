//! Wheel-speed sensing library: an edge-triggered rate estimator with
//! short-window smoothing, a sensing-loop state machine with graceful
//! shutdown, and a FIFO snapshot queue feeding a status publisher.
//!
//! Rates are carried as integer milli-RPM (one RPM = 1000 units) so that
//! every computation is exact integer arithmetic. Timestamps are
//! milliseconds of process monotonic time.
pub mod controller;
pub mod estimator;
pub mod laws;
pub mod publisher;
pub mod snapshot;
