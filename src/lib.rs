//! Re-run a command until it first fails: the argument parser, the outcome
//! of one run and the decisions of the run loop, with their contracts.

mod args;
mod decimal;
mod outcome;
mod run_loop;

pub use args::{parse_args, wait_notice, Cmd, ParseError, WAIT_VAR};
pub use decimal::{int_to_text, parse_decimal};
pub use outcome::{outcome, Launch, RunError};
pub use run_loop::{lemma_stops_at_first_failure, step, Effect, LoopState, BELL};
