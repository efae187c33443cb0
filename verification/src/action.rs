//! The boundary between a tool call and the operating system.
//!
//! A tool never performs an operation itself. It names one as an [`Action`],
//! and whoever drives the call performs it and reports an [`Outcome`].

use crate::env::EnvMap;
use crate::system::process::ProcessCallOutput;
use crate::system::process::ProcessOutputView;
use vstd::prelude::*;

verus! {

/// One primitive operation that a tool asks for.
#[derive(Debug, PartialEq, Eq)]
pub enum Action {
    /// Read the whole file.
    ReadFile { path: String },
    /// Create the file if it is missing, empty it, then store `data` from
    /// byte `offset` on.
    WriteFile { path: String, offset: u64, data: String },
    /// Create the file, emptying one that exists.
    CreateFile { path: String },
    /// Set the permission bits of a file or directory.
    SetPermissions { path: String, mode: u32 },
    /// Delete a file.
    RemoveFile { path: String },
    /// Rename or move a file.
    Rename { from: String, to: String },
    /// Copy a file.
    Copy { from: String, to: String },
    /// List the entries of a directory.
    ReadDir { path: String },
    /// Create one directory.
    CreateDir { path: String },
    /// Remove an empty directory.
    RemoveDir { path: String },
    /// Remove a directory and everything below it.
    RemoveDirAll { path: String },
    /// Look up a file's metadata.
    Metadata { path: String },
    /// Change the owner and group of a file.
    Chown { path: String, user_id: u32, group_id: u32 },
    /// Run a command to completion, without a shell: the arguments are
    /// handed over as a vector.
    Spawn { command: String, args: Vec<String>, envs: EnvMap },
}

/// The mathematical value of an [`Action`].
pub ghost enum ActionView {
    ReadFile { path: Seq<char> },
    WriteFile { path: Seq<char>, offset: u64, data: Seq<char> },
    CreateFile { path: Seq<char> },
    SetPermissions { path: Seq<char>, mode: u32 },
    RemoveFile { path: Seq<char> },
    Rename { from: Seq<char>, to: Seq<char> },
    Copy { from: Seq<char>, to: Seq<char> },
    ReadDir { path: Seq<char> },
    CreateDir { path: Seq<char> },
    RemoveDir { path: Seq<char> },
    RemoveDirAll { path: Seq<char> },
    Metadata { path: Seq<char> },
    Chown { path: Seq<char>, user_id: u32, group_id: u32 },
    Spawn { command: Seq<char>, args: Seq<Seq<char>>, envs: Seq<(Seq<char>, Seq<char>)> },
}

impl View for Action {
    type V = ActionView;

    open spec fn view(&self) -> ActionView {
        match self {
            Action::ReadFile { path } => ActionView::ReadFile { path: path@ },
            Action::WriteFile { path, offset, data } => ActionView::WriteFile {
                path: path@,
                offset: *offset,
                data: data@,
            },
            Action::CreateFile { path } => ActionView::CreateFile { path: path@ },
            Action::SetPermissions { path, mode } => ActionView::SetPermissions {
                path: path@,
                mode: *mode,
            },
            Action::RemoveFile { path } => ActionView::RemoveFile { path: path@ },
            Action::Rename { from, to } => ActionView::Rename { from: from@, to: to@ },
            Action::Copy { from, to } => ActionView::Copy { from: from@, to: to@ },
            Action::ReadDir { path } => ActionView::ReadDir { path: path@ },
            Action::CreateDir { path } => ActionView::CreateDir { path: path@ },
            Action::RemoveDir { path } => ActionView::RemoveDir { path: path@ },
            Action::RemoveDirAll { path } => ActionView::RemoveDirAll { path: path@ },
            Action::Metadata { path } => ActionView::Metadata { path: path@ },
            Action::Chown { path, user_id, group_id } => ActionView::Chown {
                path: path@,
                user_id: *user_id,
                group_id: *group_id,
            },
            Action::Spawn { command, args, envs } => ActionView::Spawn {
                command: command@,
                args: args.deep_view(),
                envs: envs@,
            },
        }
    }
}

/// What the metadata of a file says.
#[derive(Debug, Clone, Copy, PartialEq, Eq, Structural)]
pub struct FileInfo {
    /// Size in bytes.
    pub size: u64,
    /// Time of the last change, in seconds since the Unix epoch, where the
    /// platform tells it.
    pub modified: Option<u64>,
    pub is_dir: bool,
    pub is_file: bool,
    /// Unix permission bits.
    pub permissions: u32,
}

/// What came of performing an [`Action`].
#[derive(Debug, PartialEq, Eq)]
pub enum Outcome {
    /// The operation succeeded and has nothing to report.
    Done,
    /// The bytes of the file that was read.
    Bytes(Vec<u8>),
    /// The paths of a directory's entries, in the order they were listed.
    Entries(Vec<String>),
    /// The metadata that was looked up.
    Info(FileInfo),
    /// The process ran to completion, with whatever exit status.
    Exited(ProcessCallOutput),
    /// The operation failed; carries the system's error text.
    Failed(String),
    /// The operation does not exist on this platform.
    Unsupported,
}

/// The mathematical value of an [`Outcome`].
pub ghost enum OutcomeView {
    Done,
    Bytes(Seq<u8>),
    Entries(Seq<Seq<char>>),
    Info(FileInfo),
    Exited(ProcessOutputView),
    Failed(Seq<char>),
    Unsupported,
}

impl View for Outcome {
    type V = OutcomeView;

    open spec fn view(&self) -> OutcomeView {
        match self {
            Outcome::Done => OutcomeView::Done,
            Outcome::Bytes(bytes) => OutcomeView::Bytes(bytes@),
            Outcome::Entries(paths) => OutcomeView::Entries(paths.deep_view()),
            Outcome::Info(info) => OutcomeView::Info(*info),
            Outcome::Exited(output) => OutcomeView::Exited(output@),
            Outcome::Failed(text) => OutcomeView::Failed(text@),
            Outcome::Unsupported => OutcomeView::Unsupported,
        }
    }
}

/// The bytes that a file holds once [`Action::WriteFile`] was performed on
/// it: zero bytes up to the offset, then the data in UTF-8.
pub open spec fn written(offset: u64, data: Seq<char>) -> Seq<u8> {
    Seq::new(offset as nat, |i: int| 0u8) + vstd::utf8::encode_utf8(data)
}

} // verus!
