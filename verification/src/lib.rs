//! Reconciling a photo's recorded creation time with timestamp evidence
//! embedded in its filename, against a known-valid time window.

pub mod calendar;
pub mod extract;
pub mod instant;
pub mod range;
pub mod reconcile;
pub mod zone;
