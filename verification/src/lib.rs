//! Differential hunting of compiler crashes.
//!
//! A worker draws two lists of marker-type tags, renders them into a small
//! program whose call site may disagree with its function signature, has the
//! program compiled by two builds of a compiler, and classifies the pair of
//! exit statuses. Everything that decides or computes lives here and is
//! verified. Files, child processes and threads are the caller's: the worker
//! is a state machine that says what is to be done next and is told what
//! came of it.

pub mod case;
pub mod counter;
pub mod decimal;
pub mod generator;
pub mod invocation;
pub mod outcome;
pub mod random;
pub mod render;
pub mod report;
pub mod tags;
pub mod worker;
