//! Control layer for the pm2 process supervisor: discovery of the pm2
//! executable, command templates and outcomes, and the reading of its
//! process listing into display records.

pub mod display;
pub mod error;
pub mod command;
pub mod locator;
pub mod json;
pub mod records;
pub mod logs;
