//! A lightweight system monitor: the verified core.
//!
//! Everything here works on plain values: the program around it reads the
//! machine, formats the floating-point percentages, draws and prints.
pub mod cli;
pub mod process;
pub mod text;
pub mod units;
pub mod metrics;
pub mod tui;
pub mod config;
pub mod settings;
pub mod render;
pub mod dashboard;
pub mod interactive;
