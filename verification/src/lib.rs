//! The core of `mycli`, a small command-line tool that emits a fixed greeting
//! as plain text, JSON or CSV, either into a file or onto standard output.
//!
//! Everything here is free of input and output: the surrounding program reads
//! the flags, hands their values in, and performs the write that the run asks
//! for.

pub mod config;
pub mod format;
pub mod payload;
pub mod rectangle;
pub mod request;
pub mod run;
