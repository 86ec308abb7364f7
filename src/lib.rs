//! A host monitor's anomaly detector: debounced, cooled-down alerts over
//! per-core CPU usage and memory usage, with its laws proved.
pub mod config;
pub mod detector;
pub mod monitor;
pub mod stream;
pub mod text;
