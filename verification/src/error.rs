//! What can go wrong on the host side of the bridge, and how grave it is.
use vstd::prelude::*;

verus! {

/// One of the handles that the shared environment holds.
#[derive(Clone, Copy, Debug, PartialEq, Eq)]
pub enum Slot {
    /// The guest's linear memory.
    Memory,
    /// The guest's allocator.
    Allocate,
    /// The guest's pin function.
    Pin,
    /// The guest's unpin function.
    Unpin,
}

/// Why an export could not be had from an instance.
#[derive(Clone, Copy, Debug, PartialEq, Eq)]
pub enum ExportFault {
    /// The instance exports nothing under the name.
    Missing,
    /// The export under the name is of another kind.
    WrongKind,
}

/// How grave an error is.
#[derive(Clone, Copy, Debug, PartialEq, Eq)]
pub enum Severity {
    /// A sequencing bug of the host: the guest instance's life ends here.
    Fatal,
    /// The guest gave up the call: the call has failed for good.
    Trap,
    /// The caller may go on.
    Recoverable,
}

#[derive(Clone, Debug, PartialEq, Eq)]
pub enum HostError {
    /// A handle of the shared environment was asked for before it was set.
    NotReady(Slot),
    /// A handle of the shared environment was set a second time.
    AlreadySet(Slot),
    /// The instance has no export for the handle.
    MissingExport(Slot),
    /// The instance's export for the handle is of another kind.
    WrongExportKind(Slot),
    /// A handle was used with a store that it does not belong to.
    ForeignStore,
    /// A guest function ended in a runtime fault, with this message.
    GuestTrap(String),
    /// A string's header or payload does not lie inside the guest memory.
    OutOfBounds,
    /// A guest function returned no value, or one that is no 32-bit integer.
    MissingPointer,
    /// The payload's length in bytes is no signed 32-bit number.
    TooLong,
}

impl HostError {
    pub open spec fn spec_severity(self) -> Severity {
        match self {
            HostError::NotReady(_) => Severity::Fatal,
            HostError::AlreadySet(_) => Severity::Fatal,
            HostError::MissingExport(_) => Severity::Fatal,
            HostError::WrongExportKind(_) => Severity::Fatal,
            HostError::ForeignStore => Severity::Fatal,
            HostError::GuestTrap(_) => Severity::Trap,
            HostError::OutOfBounds => Severity::Recoverable,
            HostError::MissingPointer => Severity::Recoverable,
            HostError::TooLong => Severity::Recoverable,
        }
    }

    pub fn severity(&self) -> (s: Severity)
        ensures
            s == self.spec_severity(),
    {
        match self {
            HostError::NotReady(_) => Severity::Fatal,
            HostError::AlreadySet(_) => Severity::Fatal,
            HostError::MissingExport(_) => Severity::Fatal,
            HostError::WrongExportKind(_) => Severity::Fatal,
            HostError::ForeignStore => Severity::Fatal,
            HostError::GuestTrap(_) => Severity::Trap,
            HostError::OutOfBounds => Severity::Recoverable,
            HostError::MissingPointer => Severity::Recoverable,
            HostError::TooLong => Severity::Recoverable,
        }
    }
}

} // verus!
