//! Configuration overlay and command synthesis for building an operating-system
//! kernel image with a cross-compiling build tool and launching it under an
//! emulator.
//!
//! Everything here computes on plain values: the embedding program parses the
//! command line, touches the file system and spawns the processes.

pub mod commands;
pub mod config;
pub mod options;
pub mod platforms;
pub mod qemu;
pub mod text;
