//! Verified core of the juicebox-plus tray client: configuration handling,
//! the tray's decision logic, the device WebSocket and upload protocols'
//! decisions, firewall and connectivity classification, and the text
//! formatting the client shows or sends.

pub mod text;
pub mod config;
pub mod state;
pub mod firewall;
pub mod http;
pub mod connection;
pub mod json;
pub mod device;
pub mod ipc;
pub mod progress;
pub mod pairing;
pub mod token;
pub mod tray;
pub mod dialogs;
pub mod app_id;
