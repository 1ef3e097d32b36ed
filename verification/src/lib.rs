//! Sorts incoming mail: a message is tried on an ordered list of rules, and the
//! first rule that matches says what is done with it.
//!
//! The library decides; it starts no program and reads no file. [`handle`] and
//! [`resume`] find the rule that takes a message, asking the caller to run one
//! filter at a time. [`Rule::evaluate`] is the predicate matcher behind them.
//! [`Config::test`] checks a configuration without any message.

pub mod display;
pub mod engine;
pub mod job;
pub mod laws;
pub mod matcher;
pub mod message;
pub mod pattern;
pub mod problem;
pub mod rule;
pub mod validate;

pub use crate::engine::{handle, resume, Outcome, Step};
pub use crate::job::{ExitOutcome, Job};
pub use crate::matcher::{Evaluation, Match};
pub use crate::message::MessageView;
pub use crate::problem::{Part, Problem};
pub use crate::rule::{Config, HeaderGroup, Rule};
