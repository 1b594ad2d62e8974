//! Event routing between message-bus inputs and outputs: trigger filters on
//! ingest, a routing table from triggers to actions, and payload transforms on
//! egress.

pub mod action;
pub mod config;
pub mod data;
pub mod dispatcher;
pub mod input;
pub mod json_filter;
pub mod output;
pub mod trigger;
pub mod utils;
