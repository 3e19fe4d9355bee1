//! Synthetic Kubernetes-style log records for storage-engine benchmarks.
//!
//! Everything that decides what a record, a log line, a request body or a
//! batch schedule looks like lives here and is verified; the command-line
//! driver, the HTTP fan-out and the float-based Zipf sampler live in `app/`.

pub mod batch;
pub mod record;
mod rng;
pub mod sampling;
pub mod stamps;
pub mod target;
pub mod templates;
pub mod text;
pub mod vocab;
