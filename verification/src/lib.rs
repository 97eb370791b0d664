//! Bluetooth device handoff between machines on a LAN: the device registry,
//! alias bookkeeping, the agent protocol decisions and the reports that the
//! command line and the graphical front end show.

pub mod text;
pub mod error;
pub mod config;
pub mod protocol;
pub mod lookup;
pub mod report;
pub mod json;
pub mod backend;
pub mod agent;
pub mod ui;
pub mod cli;

