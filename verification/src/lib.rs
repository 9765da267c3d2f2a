//! Fail-closed packet admission control: a pure signature validator and an
//! offset-probing dispatcher that turns one raw frame into a pass/drop verdict.
//!
//! Admission is granted only when a fixed-size region carrying a fixed magic
//! tag is found at one of two candidate byte offsets inside the frame; every
//! other outcome, including a truncated or empty frame, collapses to a drop.

pub mod dispatch;
pub mod signature;
