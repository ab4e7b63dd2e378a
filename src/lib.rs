//! Failure reporting for a graph-algorithms library: one error type, tagged
//! with a closed set of failure categories and a free-form message, with a
//! deterministic textual rendering.

pub mod error;
