//! Verified core of a command-line front end for a multi-axis manipulator.
//!
//! The manipulator is driven through a vendor's library with seven entry
//! points. Loading that library, calling into it, allocating raw memory and
//! reading the command line are the work of a driver outside this crate.
//! What the driver is to do next, and what follows from each thing that
//! comes back, is decided here and proved:
//!
//! - [`session`] leads one run of the program from initialisation through
//!   one command to its end;
//! - [`exchange`] leads the reading of positions and speeds through two
//!   buffers that the caller allocates and the library fills;
//! - [`discipline`] and [`conduct`] state what holds of every exchange and of
//!   every session;
//! - [`outcome`] reads the integers that the library returns;
//! - [`present`] and [`text`] lay out what the program shows;
//! - [`command`] and [`sample`] hold the values that are handed around.
//!
//! Double-precision values are carried as bit patterns: they pass through
//! unchanged, and nothing here computes with them.

pub mod command;
pub mod conduct;
pub mod discipline;
pub mod exchange;
pub mod outcome;
pub mod present;
pub mod sample;
pub mod session;
pub mod text;
