//! Running configured external commands as content filters: a command
//! template is tokenized into a program and its arguments, and the
//! decisions of an execution (pass-through, strategy, waiting, outcome) are
//! made by verified functions that a thin driver feeds with what the child
//! process did.

pub mod command;
pub mod error;
pub mod executor;
pub mod filter;
pub mod text;

pub use error::{FilterError, IoStage};
pub use executor::{
    next_wait_action, plan_command, select_strategy, settle, settle_with_text, Completion,
    ExitPoll, Invocation, Limits, Strategy, WaitAction, DEFAULT_TIMEOUT_MS, POLL_INTERVAL_MS,
    STREAM_THRESHOLD,
};
pub use filter::{clean_key, filter_attribute, smudge_key, Direction, ProcessFilter};
