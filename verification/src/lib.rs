//! A command-line stopwatch as a library: it sorts the command line into
//! options, command and arguments, decides what the timer does next, and
//! words what it reports.

pub mod classify;
pub mod message;
pub mod paint;
pub mod stopwatch;
pub mod text;
pub mod unit;
