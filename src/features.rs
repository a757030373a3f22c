//! The features reachable from the main menu.

pub mod ports;
pub mod target;
pub mod services;
pub mod engine;
pub mod report;
pub mod scanner;
pub mod placeholder;
pub mod usage_viewer;
pub mod process_manager;
pub mod alias_manager;
pub mod bookmark_manager;
