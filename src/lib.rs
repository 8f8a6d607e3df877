//! A periodic task creator: each tick it draws a task name and submits it as
//! one transaction to the task manager contract. The decisions of every step
//! are verified here; the timer, the file system and the chain client are
//! driven by the caller.

pub mod address;
pub mod deployment;
pub mod name;
pub mod scheduler;
pub mod submission;
