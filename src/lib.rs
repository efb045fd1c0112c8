//! A live GPU dashboard: device discovery that tolerates partial failure,
//! per-frame panel models with severity colouring, the dashboard's key
//! handling, and a logging pipeline that keeps diagnostics off the terminal.

pub mod stylers;
pub mod errors;
pub mod numfmt;
pub mod panels;
pub mod termite;
pub mod provider;
pub mod gpu;
pub mod controller;
pub mod nvtop_args;
