//! The audio callback subsystem: per-invocation buffer views, the
//! commands the engine hands a callback, and the registration
//! lifecycle.

pub mod buffer_abstraction;
pub mod commands;
pub mod data;
pub mod input;
pub mod main;
pub mod output;
pub mod register;
pub mod start_stop;
