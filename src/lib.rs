//! A single-threaded task and timer scheduler.
//!
//! The library holds the decisions of a cooperative event loop: which tasks
//! are registered, which identifiers are ready to run, how many timers are
//! still counting down, and what the loop must do next. The work itself
//! (sleeping timers, invoking a script engine) is done by the host, which
//! reports back through the scheduler's operations.
pub mod laws;
pub mod scheduler;
pub mod tasks;
