//! Decision logic of a remote firmware runner for Cortex-M targets: what
//! an image tells a run, the steps that launch it, the loop that follows
//! the program, the report of a crash, and what server and client make of
//! requests and answers.

pub mod api;
pub mod auth;
pub mod client;
pub mod config;
pub mod defmt;
pub mod elf;
pub mod logutil;
pub mod numfmt;
pub mod probe;
pub mod rtt;
pub mod run;
pub mod server;
pub mod text;
pub mod util;
