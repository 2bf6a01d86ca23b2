//! Volume lifecycle and write-activity logic for a USB upload stick.

pub mod text;
pub mod command;
pub mod parted;
pub mod monitor;
pub mod ledger;
pub mod names;
pub mod lifecycle;
pub mod orchestrator;
pub mod upload;
