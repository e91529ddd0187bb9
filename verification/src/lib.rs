//! Verified decision logic of the torque harness service layer: retry budgets,
//! circuit breakers, team modes, recovery planning, the virtual file system
//! router and scratch store, and the supervisor tools' argument handling.

pub mod clock;
pub mod ids;
pub mod team;
pub mod text;
pub mod vfs;
pub mod recovery;
pub mod event_replay;
pub mod run;
pub mod gating;
pub mod services;
pub mod delegation;
pub mod webhook;
pub mod merge_strategy;
pub mod candidates;
pub mod session;
pub mod reflexion;
pub mod notification;
pub mod governed_tool;
