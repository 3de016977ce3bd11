//! The host side of a bridge to a guest module that runs in a sandboxed
//! linear memory and keeps its strings as UTF-16 behind a length header.
//!
//! `utf16` and `layout` say what a guest string is; `codec` reads one out of
//! the guest memory and puts one into it; `env` holds the guest's memory and
//! allocation functions, each bound once; `imports` decides what the host
//! functions `log` and `abort` hand on; `orchestrator` fills the environment
//! from the guest's exports and calls the guest from string to string;
//! `guest` holds the calls into the virtual machine, which are trusted.
pub mod codec;
pub mod env;
pub mod error;
pub mod guest;
pub mod imports;
pub mod layout;
pub mod orchestrator;
pub mod utf16;
