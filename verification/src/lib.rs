//! Wordle tournament evaluation library.
//!
//! Two engines: a duplicate-letter-aware grading engine that turns a guess and
//! an answer into positional feedback, and a bounded-round evaluation harness
//! that drives a guessing policy against a set of target words and aggregates
//! the per-word guess counts into a score.

use vstd::prelude::*;

pub mod backend;
pub mod common;
pub mod corpus;
pub mod error;
pub mod grade;
pub mod hint;
pub mod wordle_bot_base;
pub mod words;

verus! {

} // verus!
