//! Pomotui: a Pomodoro timer whose product rules are verified with Verus.
//!
//! The library holds the Timer state machine, Tasks and Session History, the
//! wire protocol's values and rules, the Timer Service's decisions, and the
//! pure parts of the command-line, tray and terminal frontends.

pub mod domain;
pub mod text;
pub mod tasks;
pub mod recovery;
pub mod protocol;
pub mod tray;
pub mod animation;
pub mod outbox;
pub mod service;
pub mod calendar;
pub mod cli;
pub mod tui;
pub mod screen;
pub mod config;
pub mod settings;
