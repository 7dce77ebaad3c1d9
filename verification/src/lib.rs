//! Verified core of a Logitech mouse remapper: action registry, device
//! catalogue, configuration profiles, HID++ protocol decoding, gesture
//! detection and the decisions the event engine takes.

pub mod text;
pub mod hid_gesture;
pub mod mouse_hook;
pub mod config;
pub mod devices;
pub mod engine;
pub mod actions;
pub mod key_simulator;
pub mod locale;
pub mod app_catalog;
pub mod device_layouts;
pub mod logging;
pub mod ui;
pub mod settings_window;
pub mod tray;
pub mod cli;
pub mod daemon;
pub mod app_detector;
pub mod startup;
