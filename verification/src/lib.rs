//! Verified core of the p2a command-line analytics front end and chat client.

mod text;
pub mod edit_distance;
pub mod output;
pub mod shell;
pub mod script;
pub mod chat;
pub mod common;
pub mod discrete;
pub mod regression;
pub mod panel;
pub mod spatial;
pub mod munge;
pub mod stats;
pub mod causal;
pub mod timeseries;
pub mod survival;
pub mod data;
pub mod viz;
pub mod ml;
pub mod cli;
