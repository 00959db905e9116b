//! The verified core of a script host's `stdio` builtin: signal subscriptions and
//! their receive loops, the planning and completion of interactive prompts, and the
//! script representation of prompt results.

pub mod bridge;
pub mod prompt;
pub mod script;
pub mod signal;
