//! What the host functions that the guest imports decide: `log` hands a
//! diagnostic on, `abort` reports the guest's fault. Both may be called
//! before the environment is filled, so the view of the memory may be absent.
use crate::codec::read_string_wasm;
use crate::error::{HostError, Slot};
use crate::guest::view_bytes;
use crate::layout::{address, string_at, string_fits};
use vstd::prelude::*;
use wasmer::MemoryView;

verus! {

/// What `log` hands to the diagnostics sink.
#[derive(Clone, Debug, PartialEq, Eq)]
pub enum Diagnostic {
    /// The guest's message.
    Message(String),
    /// The message could not be read. This is reported, and the guest's
    /// call goes on.
    Undecodable(HostError),
}

/// What the guest said when it gave up.
#[derive(Clone, Debug, PartialEq, Eq)]
pub struct AbortReport {
    /// The guest's message, if it could be read.
    pub message: Option<String>,
    /// The guest's source file, if it could be read.
    pub file: Option<String>,
    pub line: i32,
    pub col: i32,
}

/// The text of a string that may be absent.
pub open spec fn text_of(s: Option<String>) -> Option<Seq<char>> {
    match s {
        Some(s) => Some(s@),
        None => None,
    }
}

/// The string at the guest pointer, if there is a view and the string lies
/// inside it.
pub open spec fn readable(view: Option<&MemoryView>, ptr: i32) -> Option<Seq<char>> {
    match view {
        Some(view) => if string_fits(view_bytes(*view), address(ptr)) {
            Some(string_at(view_bytes(*view), address(ptr)))
        } else {
            None
        },
        None => None,
    }
}

/// The guest's diagnostic at the pointer, or why it could not be read: the
/// memory is not set yet, or the string does not lie inside it.
pub fn log(view: Option<&MemoryView>, string_ptr: i32) -> (d: Diagnostic)
    ensures
        match d {
            Diagnostic::Message(text) => readable(view, string_ptr) == Some(text@),
            Diagnostic::Undecodable(e) => {
                &&& readable(view, string_ptr) is None
                &&& e == if view is None {
                    HostError::NotReady(Slot::Memory)
                } else {
                    HostError::OutOfBounds
                }
            },
        },
{
    match view {
        None => Diagnostic::Undecodable(HostError::NotReady(Slot::Memory)),
        Some(view) => match read_string_wasm(view, string_ptr) {
            Ok(text) => Diagnostic::Message(text),
            Err(e) => Diagnostic::Undecodable(e),
        },
    }
}

/// The string at the guest pointer, if it can be read.
fn read_if_possible(view: Option<&MemoryView>, ptr: i32) -> (s: Option<String>)
    ensures
        text_of(s) == readable(view, ptr),
{
    match view {
        None => None,
        Some(view) => match read_string_wasm(view, ptr) {
            Ok(text) => Some(text),
            Err(_) => None,
        },
    }
}

/// The report of a guest that gave up: line and column as the guest gave
/// them, message and file as far as they can be read.
pub fn abort(view: Option<&MemoryView>, msg: i32, file: i32, line: i32, col: i32) -> (report:
    AbortReport)
    ensures
        text_of(report.message) == readable(view, msg),
        text_of(report.file) == readable(view, file),
        report.line == line,
        report.col == col,
{
    AbortReport {
        message: read_if_possible(view, msg),
        file: read_if_possible(view, file),
        line,
        col,
    }
}

} // verus!
