//! Team coordination: member health, retries and the supervisor's modes.

pub mod circuit_breaker;
pub mod retry;
pub mod modes;
pub mod mode_runs;
pub mod supervisor;
pub mod selector;
pub mod supervisor_tools;
pub mod event_listener;
pub mod shared_state;
