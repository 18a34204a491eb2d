//! Verified core of Kucheat, a CHZZK live-stream notifier: the configuration
//! model, the persisted per-channel state, the decisions of the live-check
//! daemon, the requests and replies of the CHZZK API, and the content of the
//! notifications and of the tray menu.

pub mod api;
pub mod autolaunch;
pub mod config;
pub mod monitor;
pub mod notification;
pub mod state;
pub mod status;
pub mod text;
pub mod tray;
