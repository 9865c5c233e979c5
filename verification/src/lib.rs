//! Exit-condition monitor: watches a stream of balance observations for a
//! single account and decides when to fire a one-shot exit action.
//!
//! The decision logic is pure: a threshold evaluator classifies each
//! observation against a baseline, and a state machine owns the watch
//! lifecycle, guaranteeing exactly one trigger invocation and exactly one
//! subscription release per watch, on every exit path.

pub mod errors;
pub mod monitor;
pub mod request;
pub mod subscription;
pub mod threshold;
