//! Transfer logic for programming and backing up the flash memory of a
//! Miuchiz handheld: the flash image model, the registry of connected
//! handhelds, the flashing and dumping procedures with their slow-page
//! policy, and the worker and driver state machines that coordinate them.
//!
//! Nothing in this crate performs I/O. The worker is a state machine that
//! names the next outside action and consumes its outcome; a thin host
//! program performs the actions.

pub mod error;
pub mod image;
pub mod text;
pub mod handheld;
pub mod process;
pub mod flash;
pub mod dump;
pub mod driver;
pub mod protocol;
pub mod flash_run;
pub mod dump_run;
pub mod worker;
