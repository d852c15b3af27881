//! Core of a minimal desktop-application shell.
//!
//! The shell's host framework supplies window management, plugin hosting and
//! command dispatch; the operating system performs the actual file writes.
//! This library holds everything the shell itself decides and promises: which
//! plugins the bootstrap registers, which commands the frontend may invoke,
//! and the exact effect of its one command — a whole-file write of a byte
//! buffer to a path.

pub mod bootstrap;
pub mod command;
pub mod fs_model;
pub mod string_map;
