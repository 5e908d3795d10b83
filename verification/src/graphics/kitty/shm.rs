//! Payloads in shared memory.
//!
//! A [`ShmRead`] decides what to do with a POSIX shared memory object, step by step: each step
//! takes what came out of the last action and gives the next one.

use vstd::prelude::*;
use vstd::string::StringExecFns;

use crate::graphics::kitty::decode::payload_view;
use crate::graphics::kitty::error::{DecodeError, ErrorView};
use crate::text::{decimal, joined, push_decimal};

verus! {

/// What has been done so far.
#[derive(Debug)]
pub enum ShmPhase {
    /// Nothing.
    Start,
    /// The object is being opened.
    Opening,
    /// The object is open, and its size is being looked up.
    Sizing,
    /// The object of `total` bytes is open, and is being mapped.
    Mapping { total: usize },
    /// The object is open and mapped, and is being closed.
    ClosingMapped { total: usize },
    /// The object is mapped, and is being copied from.
    Copying { total: usize },
    /// The object is mapped, and is being unmapped.
    Unmapping { outcome: Result<Vec<u8>, DecodeError> },
    /// The object is open, and is being closed; it is to be unlinked after that, or left alone.
    Closing { unlink: bool, outcome: Result<Vec<u8>, DecodeError> },
    /// The object is being unlinked.
    Unlinking { outcome: Result<Vec<u8>, DecodeError> },
    /// Everything.
    Finished,
}

/// What has been done so far, as a mathematical value.
#[verifier::ext_equal]
pub enum ShmPhaseView {
    Start,
    Opening,
    Sizing,
    Mapping { total: nat },
    ClosingMapped { total: nat },
    Copying { total: nat },
    Unmapping { outcome: Result<Seq<u8>, ErrorView> },
    Closing { unlink: bool, outcome: Result<Seq<u8>, ErrorView> },
    Unlinking { outcome: Result<Seq<u8>, ErrorView> },
    Finished,
}

impl View for ShmPhase {
    type V = ShmPhaseView;

    open spec fn view(&self) -> ShmPhaseView {
        match self {
            ShmPhase::Start => ShmPhaseView::Start,
            ShmPhase::Opening => ShmPhaseView::Opening,
            ShmPhase::Sizing => ShmPhaseView::Sizing,
            ShmPhase::Mapping { total } => ShmPhaseView::Mapping { total: *total as nat },
            ShmPhase::ClosingMapped { total } => ShmPhaseView::ClosingMapped {
                total: *total as nat,
            },
            ShmPhase::Copying { total } => ShmPhaseView::Copying { total: *total as nat },
            ShmPhase::Unmapping { outcome } => ShmPhaseView::Unmapping {
                outcome: payload_view(*outcome),
            },
            ShmPhase::Closing { unlink, outcome } => ShmPhaseView::Closing {
                unlink: *unlink,
                outcome: payload_view(*outcome),
            },
            ShmPhase::Unlinking { outcome } => ShmPhaseView::Unlinking {
                outcome: payload_view(*outcome),
            },
            ShmPhase::Finished => ShmPhaseView::Finished,
        }
    }
}

/// What to do next.
#[derive(Debug)]
pub enum ShmAction {
    /// Open the object of this name for reading.
    Open(String),
    /// Look up the size of the object.
    Size,
    /// Map the object, of this many bytes, for reading.
    MapWhole(usize),
    /// Close the object.
    Close,
    /// Copy `len` bytes of the mapping, `offset` bytes after its start.
    Copy { offset: usize, len: usize },
    /// Unmap the mapping of this many bytes.
    Unmap(usize),
    /// Unlink the object of this name. A failure is worth a warning or is not, and changes nothing.
    Unlink { name: String, warn: bool },
    /// Stop with this result.
    Finish(Result<Vec<u8>, DecodeError>),
}

/// What to do next, as a mathematical value.
#[verifier::ext_equal]
pub enum ShmActionView {
    Open(Seq<char>),
    Size,
    MapWhole(nat),
    Close,
    Copy { offset: nat, len: nat },
    Unmap(nat),
    Unlink { name: Seq<char>, warn: bool },
    Finish(Result<Seq<u8>, ErrorView>),
}

impl View for ShmAction {
    type V = ShmActionView;

    open spec fn view(&self) -> ShmActionView {
        match self {
            ShmAction::Open(name) => ShmActionView::Open(name@),
            ShmAction::Size => ShmActionView::Size,
            ShmAction::MapWhole(total) => ShmActionView::MapWhole(*total as nat),
            ShmAction::Close => ShmActionView::Close,
            ShmAction::Copy { offset, len } => ShmActionView::Copy {
                offset: *offset as nat,
                len: *len as nat,
            },
            ShmAction::Unmap(total) => ShmActionView::Unmap(*total as nat),
            ShmAction::Unlink { name, warn } => ShmActionView::Unlink { name: name@, warn: *warn },
            ShmAction::Finish(result) => ShmActionView::Finish(payload_view(*result)),
        }
    }
}

/// What came out of an action.
#[derive(Debug)]
pub enum ShmEvent {
    /// No object can have the name.
    InvalidName { error: String },
    /// The object was opened.
    Opened,
    /// The size of the object.
    Sized(usize),
    /// The object was mapped.
    Mapped,
    /// The object was closed.
    Closed,
    /// The bytes of the object.
    Copied(Vec<u8>),
    /// The object was unmapped.
    Unmapped,
    /// An attempt to unlink the object was made.
    Unlinked,
    /// The action failed.
    Failed { error: String },
}

/// Which bytes of which object to read.
pub struct ShmTarget {
    pub name: Seq<char>,
    /// Where to start.
    pub offset: u32,
    /// How many bytes to read, zero for all that follow.
    pub size: u32,
}

impl ShmTarget {
    /// How many bytes to read of an object of `total` bytes.
    pub open spec fn len(self, total: nat) -> nat {
        if self.size > 0 {
            self.size as nat
        } else if total > self.offset {
            (total - self.offset) as nat
        } else {
            0
        }
    }

    /// Whether an object of `total` bytes holds the bytes to read.
    pub open spec fn fits(self, total: nat) -> bool {
        self.offset + self.len(total) <= total
    }

    /// `what`, followed by the name in quotes.
    pub open spec fn named(self, what: Seq<char>) -> Seq<char> {
        what + "'"@ + self.name + "'"@
    }

    /// The complaint about too short an object.
    pub open spec fn range_complaint(self, total: nat) -> Seq<char> {
        self.named("shm "@) + ": offset("@ + decimal(self.offset as nat) + ") + size("@ + decimal(
            self.len(total),
        ) + ") exceeds total("@ + decimal(total) + ")"@
    }
}

/// Whether `event` can come out of the action that `phase` waits for. A copy gives as many bytes as
/// were asked for.
pub open spec fn shm_expects(target: ShmTarget, phase: ShmPhaseView, event: ShmEvent) -> bool {
    match phase {
        ShmPhaseView::Start => false,
        ShmPhaseView::Opening => event is Opened || event is InvalidName || event is Failed,
        ShmPhaseView::Sizing => event is Sized || event is Failed,
        ShmPhaseView::Mapping { .. } => event is Mapped || event is Failed,
        ShmPhaseView::ClosingMapped { .. } => event is Closed,
        ShmPhaseView::Copying { total } => {
            event matches ShmEvent::Copied(data) && data@.len() == target.len(total)
        },
        ShmPhaseView::Unmapping { .. } => event is Unmapped,
        ShmPhaseView::Closing { .. } => event is Closed,
        ShmPhaseView::Unlinking { .. } => event is Unlinked,
        ShmPhaseView::Finished => false,
    }
}

/// The end, with this result.
pub open spec fn shm_end(outcome: Result<Seq<u8>, ErrorView>) -> (ShmPhaseView, ShmActionView) {
    (ShmPhaseView::Finished, ShmActionView::Finish(outcome))
}

/// What follows when `event` has come out of the action that `phase` waits for. An event that cannot
/// come out of it is an error.
pub open spec fn shm_step(target: ShmTarget, phase: ShmPhaseView, event: ShmEvent) -> (
    ShmPhaseView,
    ShmActionView,
) {
    match (phase, event) {
        (ShmPhaseView::Opening, ShmEvent::InvalidName { error }) => shm_end(
            Err(ErrorView::IoError("invalid shm name: "@ + error@)),
        ),
        (ShmPhaseView::Opening, ShmEvent::Failed { error }) => shm_end(
            Err(ErrorView::IoError(target.named("shm_open "@) + ": "@ + error@)),
        ),
        (ShmPhaseView::Opening, ShmEvent::Opened) => (ShmPhaseView::Sizing, ShmActionView::Size),
        (ShmPhaseView::Sizing, ShmEvent::Failed { error }) => (
            ShmPhaseView::Closing {
                unlink: false,
                outcome: Err(ErrorView::IoError(target.named("fstat shm "@) + ": "@ + error@)),
            },
            ShmActionView::Close,
        ),
        (ShmPhaseView::Sizing, ShmEvent::Sized(total)) => if total == 0 {
            (
                ShmPhaseView::Closing {
                    unlink: true,
                    outcome: Err(ErrorView::IoError(target.named("shm "@) + " has zero size"@)),
                },
                ShmActionView::Close,
            )
        } else {
            (ShmPhaseView::Mapping { total: total as nat }, ShmActionView::MapWhole(total as nat))
        },
        (ShmPhaseView::Mapping { .. }, ShmEvent::Failed { error }) => (
            ShmPhaseView::Closing {
                unlink: true,
                outcome: Err(ErrorView::IoError(target.named("mmap shm "@) + ": "@ + error@)),
            },
            ShmActionView::Close,
        ),
        // The mapping keeps the memory accessible when the object is closed.
        (ShmPhaseView::Mapping { total }, ShmEvent::Mapped) => (
            ShmPhaseView::ClosingMapped { total },
            ShmActionView::Close,
        ),
        (ShmPhaseView::ClosingMapped { total }, ShmEvent::Closed) => if target.fits(total) {
            (
                ShmPhaseView::Copying { total },
                ShmActionView::Copy { offset: target.offset as nat, len: target.len(total) },
            )
        } else {
            (
                ShmPhaseView::Unmapping {
                    outcome: Err(ErrorView::IoError(target.range_complaint(total))),
                },
                ShmActionView::Unmap(total),
            )
        },
        (ShmPhaseView::Copying { total }, ShmEvent::Copied(data)) => (
            ShmPhaseView::Unmapping {
                outcome: if data@.len() == target.len(total) {
                    Ok(data@)
                } else {
                    Err(ErrorView::IoError("unexpected event"@))
                },
            },
            ShmActionView::Unmap(total),
        ),
        (ShmPhaseView::Unmapping { outcome }, ShmEvent::Unmapped) => (
            ShmPhaseView::Unlinking { outcome },
            ShmActionView::Unlink { name: target.name, warn: true },
        ),
        (ShmPhaseView::Closing { unlink, outcome }, ShmEvent::Closed) => if unlink {
            (ShmPhaseView::Unlinking { outcome }, ShmActionView::Unlink { name: target.name, warn: false })
        } else {
            shm_end(outcome)
        },
        (ShmPhaseView::Unlinking { outcome }, ShmEvent::Unlinked) => shm_end(outcome),
        _ => shm_end(Err(ErrorView::IoError("unexpected event"@))),
    }
}

/// Reads a payload from a POSIX shared memory object.
///
/// The object is opened, its size determined and all of it mapped; the requested range is copied,
/// and then the object is unmapped, closed and unlinked.
///
/// It is mapped rather than read because macOS shm file descriptors do not support regular file
/// I/O.
#[derive(Debug)]
pub struct ShmRead {
    name: String,
    offset: u32,
    size: u32,
    phase: ShmPhase,
}

impl ShmRead {
    /// Which bytes of which object to read.
    pub closed spec fn target(&self) -> ShmTarget {
        ShmTarget { name: self.name@, offset: self.offset, size: self.size }
    }

    /// What has been done so far.
    pub closed spec fn phase(&self) -> ShmPhaseView {
        self.phase@
    }

    pub fn new(name: String, offset: u32, size: u32) -> (read: ShmRead)
        ensures
            read.target() == (ShmTarget { name: name@, offset, size }),
            read.phase() == ShmPhaseView::Start,
    {
        ShmRead { name, offset, size, phase: ShmPhase::Start }
    }

    /// The machine in its next phase, and what to do.
    fn go(self, phase: ShmPhase, action: ShmAction) -> (next: (ShmRead, ShmAction))
        ensures
            next.0.target() == self.target(),
            next.0.phase() == phase@,
            next.1 == action,
    {
        let mut read = self;
        read.phase = phase;
        (read, action)
    }

    /// The end, with this result.
    fn end(self, outcome: Result<Vec<u8>, DecodeError>) -> (next: (ShmRead, ShmAction))
        ensures
            next.0.target() == self.target(),
            (next.0.phase(), next.1@) == shm_end(payload_view(outcome)),
    {
        self.go(ShmPhase::Finished, ShmAction::Finish(outcome))
    }

    /// `what`, followed by the name in quotes.
    fn named(&self, what: &str) -> (text: String)
        ensures
            text@ == self.target().named(what@),
    {
        let mut text: String = joined(what, "'");
        text.append(self.name.as_str());
        text.append("'");
        text
    }

    /// A message about a failed action.
    fn failure(&self, what: &str, error: &String) -> (text: String)
        ensures
            text@ == self.target().named(what@) + ": "@ + error@,
    {
        let mut text: String = self.named(what);
        text.append(": ");
        text.append(error.as_str());
        text
    }

    /// How many bytes to read of an object of `total` bytes.
    fn len(&self, total: usize) -> (len: usize)
        ensures
            len == self.target().len(total as nat),
    {
        if self.size > 0 {
            self.size as usize
        } else {
            total.saturating_sub(self.offset as usize)
        }
    }

    /// The complaint about too short an object.
    fn range_message(&self, total: usize) -> (text: String)
        ensures
            text@ == self.target().range_complaint(total as nat),
    {
        let mut text: String = self.named("shm ");
        text.append(": offset(");
        push_decimal(&mut text, self.offset as u128);
        text.append(") + size(");
        push_decimal(&mut text, self.len(total) as u128);
        text.append(") exceeds total(");
        push_decimal(&mut text, total as u128);
        text.append(")");
        text
    }

    /// Begin.
    pub fn start(self) -> (next: (ShmRead, ShmAction))
        requires
            self.phase() == ShmPhaseView::Start,
        ensures
            next.0.target() == self.target(),
            next.0.phase() == ShmPhaseView::Opening,
            next.1@ == ShmActionView::Open(self.target().name),
    {
        let name: String = self.name.clone();
        self.go(ShmPhase::Opening, ShmAction::Open(name))
    }

    /// Go on with what came out of the last action.
    pub fn step(self, event: ShmEvent) -> (next: (ShmRead, ShmAction))
        ensures
            next.0.target() == self.target(),
            (next.0.phase(), next.1@) == shm_step(self.target(), self.phase(), event),
    {
        let mut read = self;
        let mut phase = ShmPhase::Finished;
        std::mem::swap(&mut phase, &mut read.phase);
        match (phase, event) {
            (ShmPhase::Opening, ShmEvent::InvalidName { error }) => {
                let message: String = joined("invalid shm name: ", error.as_str());
                read.end(Err(DecodeError::IoError(message)))
            },
            (ShmPhase::Opening, ShmEvent::Failed { error }) => {
                let message: String = read.failure("shm_open ", &error);
                read.end(Err(DecodeError::IoError(message)))
            },
            (ShmPhase::Opening, ShmEvent::Opened) => read.go(ShmPhase::Sizing, ShmAction::Size),
            (ShmPhase::Sizing, ShmEvent::Failed { error }) => {
                let message: String = read.failure("fstat shm ", &error);
                let outcome = Err(DecodeError::IoError(message));
                read.go(ShmPhase::Closing { unlink: false, outcome }, ShmAction::Close)
            },
            (ShmPhase::Sizing, ShmEvent::Sized(total)) => {
                if total == 0 {
                    let mut message: String = read.named("shm ");
                    message.append(" has zero size");
                    let outcome = Err(DecodeError::IoError(message));
                    read.go(ShmPhase::Closing { unlink: true, outcome }, ShmAction::Close)
                } else {
                    read.go(ShmPhase::Mapping { total }, ShmAction::MapWhole(total))
                }
            },
            (ShmPhase::Mapping { total: _ }, ShmEvent::Failed { error }) => {
                let message: String = read.failure("mmap shm ", &error);
                let outcome = Err(DecodeError::IoError(message));
                read.go(ShmPhase::Closing { unlink: true, outcome }, ShmAction::Close)
            },
            (ShmPhase::Mapping { total }, ShmEvent::Mapped) => read.go(
                ShmPhase::ClosingMapped { total },
                ShmAction::Close,
            ),
            (ShmPhase::ClosingMapped { total }, ShmEvent::Closed) => {
                let offset: usize = read.offset as usize;
                let len: usize = read.len(total);
                if offset as u128 + len as u128 > total as u128 {
                    let message: String = read.range_message(total);
                    let outcome = Err(DecodeError::IoError(message));
                    read.go(ShmPhase::Unmapping { outcome }, ShmAction::Unmap(total))
                } else {
                    read.go(ShmPhase::Copying { total }, ShmAction::Copy { offset, len })
                }
            },
            (ShmPhase::Copying { total }, ShmEvent::Copied(data)) => {
                let outcome = if data.len() == read.len(total) {
                    Ok(data)
                } else {
                    Err(DecodeError::IoError("unexpected event".to_owned()))
                };
                read.go(ShmPhase::Unmapping { outcome }, ShmAction::Unmap(total))
            },
            // Unlink regardless of whether the copy succeeded.
            (ShmPhase::Unmapping { outcome }, ShmEvent::Unmapped) => {
                let name: String = read.name.clone();
                read.go(ShmPhase::Unlinking { outcome }, ShmAction::Unlink { name, warn: true })
            },
            (ShmPhase::Closing { unlink, outcome }, ShmEvent::Closed) => {
                if unlink {
                    let name: String = read.name.clone();
                    read.go(ShmPhase::Unlinking { outcome }, ShmAction::Unlink { name, warn: false })
                } else {
                    read.end(outcome)
                }
            },
            (ShmPhase::Unlinking { outcome }, ShmEvent::Unlinked) => read.end(outcome),
            _ => read.end(Err(DecodeError::IoError("unexpected event".to_owned()))),
        }
    }
}

} // verus!
