//! Verified core of the EnaOS desktop runtime: the action model, the
//! orchestration engine's plan logic, workspace restoration planning,
//! ambient suggestion rules, intent classification and the bar's
//! interaction state machines.
pub mod actions;
pub mod executor;
pub mod process;
pub mod handlers;
pub mod ids;
pub mod orchestration;
pub mod engine;
pub mod snapshot;
pub mod restore;
pub mod suggestion;
pub mod suggestion_engine;
pub mod first_run;
pub mod text;
pub mod lines;
pub mod desktop;
pub mod sound;
pub mod context;
pub mod server;
pub mod queries;
pub mod audio;
pub mod config;
pub mod timing;
pub mod events;
pub mod memory;
pub mod restoration_ui;
pub mod orchestration_ui;
pub mod bar;
pub mod command_palette;
pub mod ipc;
pub mod resolver;
pub mod ranker;
pub mod network;
pub mod upower;
pub mod notifications;
pub mod clipboard;
