//! Oxiwake keeps a machine awake: it asks the platform's power service for a
//! wake lock and holds it for as long as a small background daemon lives.
//!
//! This library holds the rules of that tool. Everything that decides, renders
//! or parses stands here and is verified; talking to the bus, the display
//! server, the file system and the kernel is left to the program around it,
//! which hands plain values in and carries the library's answers out.

pub mod backend;
pub mod cli;
pub mod daemon;
pub mod doctor;
pub mod error;
pub mod ipc;
pub mod json;
pub mod laws;
pub mod model;
pub mod output;
pub mod paths;
pub mod platform;
pub mod state;
pub mod text;
pub mod wide;
