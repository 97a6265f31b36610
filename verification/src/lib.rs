//! Package maintenance dispatcher: decides which package-manager command a
//! maintenance action runs, whether it needs privilege escalation, and how the
//! resulting process is invoked. All decisions are pure functions with
//! machine-checked contracts; performing the side effects is left to the caller.

pub mod action;
pub mod bridge;
pub mod command;
pub mod config;
pub mod dispatcher;
pub mod environment;
pub mod launcher;
pub mod menu;
pub mod reaper;
pub mod wrapper;
