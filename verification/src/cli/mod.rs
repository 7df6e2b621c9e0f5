//! The command-line front end: argument values, the decisions each command makes, and
//! the line-oriented shell of earlier releases.
pub mod args;
pub mod session;
pub mod input;
pub mod bootstrap;
pub mod prompt;
pub mod dispatch;
