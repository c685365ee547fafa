//! The command interpreter of a router-style shell: the mode state machine, the command
//! registry, the dispatcher with its per-mode gating, the `enable` authentication protocol,
//! NTP configuration state, and the rendering of configuration and status text.
//!
//! Commands never touch the machine themselves: a command that needs outside work (running
//! a program, reading a password, writing a file) returns an `Outcome` describing it, and the
//! caller performs it and hands any result back (`CliContext::complete_enable`,
//! `CliContext::store_credential`, `CliContext::apply_update`, `dispatch::confirm_reply`).

pub mod clicommands;
pub mod context;
pub mod dispatch;
pub mod errors;
pub mod ip_cmds;
pub mod laws;
pub mod messages;
pub mod mode;
pub mod network_config;
pub mod ntp;
pub mod outcome;
pub mod run_config;
pub mod show_c;
pub mod text;
