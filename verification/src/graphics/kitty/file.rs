//! Payloads in files.
//!
//! A [`FileRead`] decides what to do with a file, step by step: each step takes what came out of
//! the last action and gives the next one.

use vstd::prelude::*;
use vstd::string::StringExecFns;

use crate::graphics::kitty::decode::payload_view;
use crate::graphics::kitty::error::{DecodeError, ErrorView};
use crate::graphics::kitty::paths::{within, ResolvedPath};
use crate::text::{contains, contains_text, joined};

verus! {

/// What has been done so far.
#[derive(Debug)]
pub enum FilePhase {
    /// Nothing.
    Start,
    /// The path is being resolved.
    Resolving,
    /// The path is resolved, and the directories for temporary files are being listed.
    Vetting { path: ResolvedPath, shown: String },
    /// The file is being looked up.
    Stating { resolved: Option<ResolvedPath> },
    /// The file is being opened.
    Opening { resolved: Option<ResolvedPath> },
    /// The place to start at is being sought.
    Seeking { resolved: Option<ResolvedPath> },
    /// The file is being read.
    Reading { resolved: Option<ResolvedPath> },
    /// The file is read, and the directories for temporary files are being listed.
    Sweeping { path: ResolvedPath, data: Vec<u8> },
    /// The file is read, and is being removed.
    Removing { path: ResolvedPath, data: Vec<u8> },
    /// Everything.
    Finished,
}

impl FilePhase {
    /// The resolved path of the file that is being looked up, read or removed, if it had to be
    /// resolved.
    pub open spec fn place(self) -> Option<ResolvedPath> {
        match self {
            FilePhase::Stating { resolved } => resolved,
            FilePhase::Opening { resolved } => resolved,
            FilePhase::Seeking { resolved } => resolved,
            FilePhase::Reading { resolved } => resolved,
            FilePhase::Sweeping { path, .. } => Some(path),
            FilePhase::Removing { path, .. } => Some(path),
            _ => None,
        }
    }
}

/// What to do next.
#[derive(Debug)]
pub enum FileAction {
    /// Resolve the path, which is relative to the system's directory for temporary files or
    /// absolute.
    Canonicalize { path: String, below_temp_dir: bool },
    /// List the known directories for temporary files.
    ListTempDirs,
    /// Look up what kind of file it is. This is about the file at [`FileRead::resolved_path`], or
    /// at [`FileRead::path`] if there is none, and so are the actions that follow.
    Stat,
    /// Open the file.
    Open,
    /// Move this many bytes on from the start of the file.
    Seek(u64),
    /// Read this many bytes.
    ReadExact(usize),
    /// Read up to the end of the file.
    ReadToEnd,
    /// Remove the file. It does not matter whether this works.
    Remove,
    /// Stop with this result.
    Finish(Result<Vec<u8>, DecodeError>),
}

/// What came out of an action.
#[derive(Debug)]
pub enum FileEvent {
    /// The path was resolved; `shown` is how to write it in messages.
    Resolved { path: ResolvedPath, shown: String },
    /// The known directories for temporary files.
    TempDirs(Vec<ResolvedPath>),
    /// The file exists.
    Stat { is_file: bool, shown: String },
    /// The file was opened.
    Opened,
    /// The place to start at was found.
    Sought,
    /// The bytes of the file.
    Data(Vec<u8>),
    /// An attempt to remove the file was made.
    Removed,
    /// The action failed; `shown` is how to write the path in messages.
    Failed { shown: String, error: String },
}

/// What to do next, as a mathematical value.
#[verifier::ext_equal]
pub enum FileActionView {
    Canonicalize { path: Seq<char>, below_temp_dir: bool },
    ListTempDirs,
    Stat,
    Open,
    Seek(nat),
    ReadExact(nat),
    ReadToEnd,
    Remove,
    Finish(Result<Seq<u8>, ErrorView>),
}

impl View for FileAction {
    type V = FileActionView;

    open spec fn view(&self) -> FileActionView {
        match self {
            FileAction::Canonicalize { path, below_temp_dir } => FileActionView::Canonicalize {
                path: path@,
                below_temp_dir: *below_temp_dir,
            },
            FileAction::ListTempDirs => FileActionView::ListTempDirs,
            FileAction::Stat => FileActionView::Stat,
            FileAction::Open => FileActionView::Open,
            FileAction::Seek(offset) => FileActionView::Seek(*offset as nat),
            FileAction::ReadExact(size) => FileActionView::ReadExact(*size as nat),
            FileAction::ReadToEnd => FileActionView::ReadToEnd,
            FileAction::Remove => FileActionView::Remove,
            FileAction::Finish(result) => FileActionView::Finish(payload_view(*result)),
        }
    }
}

/// Which bytes of which file to read.
pub struct FileTarget {
    pub path: Seq<char>,
    /// Where to start.
    pub offset: u32,
    /// How many bytes to read, zero for all.
    pub size: u32,
    /// Whether the file has to be a temporary one.
    pub is_temp: bool,
}

impl FileTarget {
    /// Whether the file is removed after reading, if it lies where temporary files do.
    pub open spec fn removable(self) -> bool {
        self.is_temp && contains(self.path, "tty-graphics-protocol"@)
    }

    /// How to read the bytes.
    pub open spec fn read_action(self) -> FileActionView {
        if self.size > 0 {
            FileActionView::ReadExact(self.size as nat)
        } else {
            FileActionView::ReadToEnd
        }
    }

    /// What to do at first, if the path is absolute or is not.
    pub open spec fn start(self, absolute: bool) -> (FilePhase, FileActionView) {
        if self.is_temp {
            (
                FilePhase::Resolving,
                FileActionView::Canonicalize { path: self.path, below_temp_dir: !absolute },
            )
        } else {
            (FilePhase::Stating { resolved: None }, FileActionView::Stat)
        }
    }
}

/// The end, with an I/O error.
pub open spec fn io_failure(message: Seq<char>) -> (FilePhase, FileActionView) {
    (FilePhase::Finished, FileActionView::Finish(Err(ErrorView::IoError(message))))
}

/// The end, with the bytes of the file.
pub open spec fn file_success(data: Seq<u8>) -> (FilePhase, FileActionView) {
    (FilePhase::Finished, FileActionView::Finish(Ok(data)))
}

/// Whether `event` can come out of the action that `phase` waits for. A read of a given size gives
/// that many bytes.
pub open spec fn file_expects(target: FileTarget, phase: FilePhase, event: FileEvent) -> bool {
    match phase {
        FilePhase::Start => false,
        FilePhase::Resolving => event is Resolved || event is Failed,
        FilePhase::Vetting { .. } => event is TempDirs,
        FilePhase::Stating { .. } => event is Stat || event is Failed,
        FilePhase::Opening { .. } => event is Opened || event is Failed,
        FilePhase::Seeking { .. } => event is Sought || event is Failed,
        FilePhase::Reading { .. } => match event {
            FileEvent::Data(data) => target.size > 0 ==> data@.len() == target.size,
            _ => event is Failed,
        },
        FilePhase::Sweeping { .. } => event is TempDirs,
        FilePhase::Removing { .. } => event is Removed,
        FilePhase::Finished => false,
    }
}

/// What follows when `event` has come out of the action that `phase` waits for. An event that cannot
/// come out of it is an error.
pub open spec fn file_step(target: FileTarget, phase: FilePhase, event: FileEvent) -> (
    FilePhase,
    FileActionView,
) {
    match (phase, event) {
        (FilePhase::Resolving, FileEvent::Resolved { path, shown }) => (
            FilePhase::Vetting { path, shown },
            FileActionView::ListTempDirs,
        ),
        (FilePhase::Resolving, FileEvent::Failed { shown, error }) => io_failure(
            "canonicalize "@ + shown@ + ": "@ + error@,
        ),
        (FilePhase::Vetting { path, shown }, FileEvent::TempDirs(dirs)) => if within(
            path@,
            dirs@,
        ) {
            (FilePhase::Stating { resolved: Some(path) }, FileActionView::Stat)
        } else {
            (
                FilePhase::Finished,
                FileActionView::Finish(
                    Err(
                        ErrorView::PathTraversal(
                            "temp file resolves outside temp dir: "@ + shown@,
                        ),
                    ),
                ),
            )
        },
        (FilePhase::Stating { resolved }, FileEvent::Stat { is_file, shown }) => if is_file {
            (FilePhase::Opening { resolved }, FileActionView::Open)
        } else {
            io_failure("not a regular file: "@ + shown@)
        },
        (FilePhase::Stating { .. }, FileEvent::Failed { shown, error }) => io_failure(
            "stat "@ + shown@ + ": "@ + error@,
        ),
        (FilePhase::Opening { resolved }, FileEvent::Opened) => if target.offset > 0 {
            (FilePhase::Seeking { resolved }, FileActionView::Seek(target.offset as nat))
        } else {
            (FilePhase::Reading { resolved }, target.read_action())
        },
        (FilePhase::Opening { .. }, FileEvent::Failed { shown, error }) => io_failure(
            "open "@ + shown@ + ": "@ + error@,
        ),
        (FilePhase::Seeking { resolved }, FileEvent::Sought) => (
            FilePhase::Reading { resolved },
            target.read_action(),
        ),
        (FilePhase::Seeking { .. }, FileEvent::Failed { shown, error }) => io_failure(
            "seek: "@ + error@,
        ),
        (FilePhase::Reading { resolved }, FileEvent::Data(data)) => if target.size > 0
            && data@.len() != target.size {
            io_failure("unexpected event"@)
        } else {
            match resolved {
                Some(path) if target.removable() => (
                    FilePhase::Sweeping { path, data },
                    FileActionView::ListTempDirs,
                ),
                _ => file_success(data@),
            }
        },
        (FilePhase::Reading { .. }, FileEvent::Failed { shown, error }) => io_failure(
            (if target.size > 0 {
                "read_exact: "@
            } else {
                "read_to_end: "@
            }) + error@,
        ),
        (FilePhase::Sweeping { path, data }, FileEvent::TempDirs(dirs)) => if within(
            path@,
            dirs@,
        ) {
            (FilePhase::Removing { path, data }, FileActionView::Remove)
        } else {
            file_success(data@)
        },
        (FilePhase::Removing { data, .. }, FileEvent::Removed) => file_success(data@),
        _ => io_failure("unexpected event"@),
    }
}

/// Reads a payload from a file.
///
/// Temporary files have to lie in a known directory for such files once their path is resolved.
/// They are removed only when the path contains `"tty-graphics-protocol"` and the file lies in such
/// a directory.
#[derive(Debug)]
pub struct FileRead {
    path: String,
    offset: u32,
    size: u32,
    is_temp: bool,
    phase: FilePhase,
}

impl FileRead {
    /// Which bytes of which file to read.
    pub closed spec fn target(&self) -> FileTarget {
        FileTarget {
            path: self.path@,
            offset: self.offset,
            size: self.size,
            is_temp: self.is_temp,
        }
    }

    /// What has been done so far.
    pub closed spec fn phase(&self) -> FilePhase {
        self.phase
    }

    pub fn new(path: String, offset: u32, size: u32, is_temp: bool) -> (read: FileRead)
        ensures
            read.target() == (FileTarget { path: path@, offset, size, is_temp }),
            read.phase() == FilePhase::Start,
    {
        FileRead { path, offset, size, is_temp, phase: FilePhase::Start }
    }

    /// The path of the file, as it was given.
    pub fn path(&self) -> (path: &str)
        ensures
            path@ == self.target().path,
    {
        self.path.as_str()
    }

    /// The resolved path of the file that is being looked up, read or removed, if it had to be
    /// resolved.
    pub fn resolved_path(&self) -> (path: Option<&ResolvedPath>)
        ensures
            path is Some <==> self.phase().place() is Some,
            path matches Some(path) ==> self.phase().place() == Some(*path),
    {
        match &self.phase {
            FilePhase::Stating { resolved } => resolved.as_ref(),
            FilePhase::Opening { resolved } => resolved.as_ref(),
            FilePhase::Seeking { resolved } => resolved.as_ref(),
            FilePhase::Reading { resolved } => resolved.as_ref(),
            FilePhase::Sweeping { path, data: _ } => Some(path),
            FilePhase::Removing { path, data: _ } => Some(path),
            _ => None,
        }
    }

    /// The machine in its next phase, and what to do.
    fn go(self, phase: FilePhase, action: FileAction) -> (next: (FileRead, FileAction))
        ensures
            next.0.target() == self.target(),
            next.0.phase() == phase,
            next.1 == action,
    {
        let mut read = self;
        read.phase = phase;
        (read, action)
    }

    /// The end, with an I/O error.
    fn fail(self, message: String) -> (next: (FileRead, FileAction))
        ensures
            next.0.target() == self.target(),
            (next.0.phase(), next.1@) == io_failure(message@),
    {
        self.go(FilePhase::Finished, FileAction::Finish(Err(DecodeError::IoError(message))))
    }

    /// The end, with the bytes of the file.
    fn succeed(self, data: Vec<u8>) -> (next: (FileRead, FileAction))
        ensures
            next.0.target() == self.target(),
            (next.0.phase(), next.1@) == file_success(data@),
    {
        self.go(FilePhase::Finished, FileAction::Finish(Ok(data)))
    }

    /// How to read the bytes.
    fn read_action(&self) -> (action: FileAction)
        ensures
            action@ == self.target().read_action(),
    {
        if self.size > 0 {
            FileAction::ReadExact(self.size as usize)
        } else {
            FileAction::ReadToEnd
        }
    }

    /// Begin. `absolute` tells whether the path is absolute, by the rules of the system.
    pub fn start(self, absolute: bool) -> (next: (FileRead, FileAction))
        requires
            self.phase() == FilePhase::Start,
        ensures
            next.0.target() == self.target(),
            (next.0.phase(), next.1@) == self.target().start(absolute),
    {
        if self.is_temp {
            let path: String = self.path.clone();
            self.go(
                FilePhase::Resolving,
                FileAction::Canonicalize { path, below_temp_dir: !absolute },
            )
        } else {
            self.go(FilePhase::Stating { resolved: None }, FileAction::Stat)
        }
    }

    /// Go on with what came out of the last action.
    pub fn step(self, event: FileEvent) -> (next: (FileRead, FileAction))
        ensures
            next.0.target() == self.target(),
            (next.0.phase(), next.1@) == file_step(self.target(), self.phase(), event),
    {
        let mut read = self;
        let mut phase = FilePhase::Finished;
        std::mem::swap(&mut phase, &mut read.phase);
        match (phase, event) {
            (FilePhase::Resolving, FileEvent::Resolved { path, shown }) => read.go(
                FilePhase::Vetting { path, shown },
                FileAction::ListTempDirs,
            ),
            (FilePhase::Resolving, FileEvent::Failed { shown, error }) => {
                let message: String = path_message("canonicalize ", &shown, &error);
                read.fail(message)
            },
            (FilePhase::Vetting { path, shown }, FileEvent::TempDirs(dirs)) => {
                if path.is_within(&dirs) {
                    read.go(FilePhase::Stating { resolved: Some(path) }, FileAction::Stat)
                } else {
                    let message: String = joined(
                        "temp file resolves outside temp dir: ",
                        shown.as_str(),
                    );
                    read.go(
                        FilePhase::Finished,
                        FileAction::Finish(Err(DecodeError::PathTraversal(message))),
                    )
                }
            },
            (FilePhase::Stating { resolved }, FileEvent::Stat { is_file, shown }) => {
                if is_file {
                    read.go(FilePhase::Opening { resolved }, FileAction::Open)
                } else {
                    let message: String = joined("not a regular file: ", shown.as_str());
                    read.fail(message)
                }
            },
            (FilePhase::Stating { resolved: _ }, FileEvent::Failed { shown, error }) => {
                let message: String = path_message("stat ", &shown, &error);
                read.fail(message)
            },
            (FilePhase::Opening { resolved }, FileEvent::Opened) => {
                if read.offset > 0 {
                    let offset: u64 = read.offset as u64;
                    read.go(FilePhase::Seeking { resolved }, FileAction::Seek(offset))
                } else {
                    let action = read.read_action();
                    read.go(FilePhase::Reading { resolved }, action)
                }
            },
            (FilePhase::Opening { resolved: _ }, FileEvent::Failed { shown, error }) => {
                let message: String = path_message("open ", &shown, &error);
                read.fail(message)
            },
            (FilePhase::Seeking { resolved }, FileEvent::Sought) => {
                let action = read.read_action();
                read.go(FilePhase::Reading { resolved }, action)
            },
            (FilePhase::Seeking { resolved: _ }, FileEvent::Failed { shown: _, error }) => {
                let message: String = joined("seek: ", error.as_str());
                read.fail(message)
            },
            (FilePhase::Reading { resolved }, FileEvent::Data(data)) => {
                if read.size > 0 && data.len() != read.size as usize {
                    return read.fail("unexpected event".to_owned());
                }
                // Delete only when the path contains "tty-graphics-protocol" and is within
                // a known temp dir.
                match resolved {
                    Some(path) => {
                        if read.is_temp && contains_text(
                            read.path.as_str(),
                            "tty-graphics-protocol",
                        ) {
                            read.go(
                                FilePhase::Sweeping { path, data },
                                FileAction::ListTempDirs,
                            )
                        } else {
                            read.succeed(data)
                        }
                    },
                    None => read.succeed(data),
                }
            },
            (FilePhase::Reading { resolved: _ }, FileEvent::Failed { shown: _, error }) => {
                let message: String = if read.size > 0 {
                    joined("read_exact: ", error.as_str())
                } else {
                    joined("read_to_end: ", error.as_str())
                };
                read.fail(message)
            },
            (FilePhase::Sweeping { path, data }, FileEvent::TempDirs(dirs)) => {
                if path.is_within(&dirs) {
                    read.go(FilePhase::Removing { path, data }, FileAction::Remove)
                } else {
                    read.succeed(data)
                }
            },
            (FilePhase::Removing { path: _, data }, FileEvent::Removed) => read.succeed(data),
            _ => read.fail("unexpected event".to_owned()),
        }
    }
}

/// A message about a path.
fn path_message(what: &str, shown: &String, error: &String) -> (message: String)
    ensures
        message@ == what@ + shown@ + ": "@ + error@,
{
    let mut message: String = joined(what, shown.as_str());
    message.append(": ");
    message.append(error.as_str());
    message
}

} // verus!
