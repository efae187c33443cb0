//! A tool call in progress.
//!
//! A call is a short exchange. The tool names an operation, the driver
//! performs it and reports the outcome, and the tool either names the next
//! operation or gives the call's result.

use crate::action::Action;
use crate::action::ActionView;
use crate::action::Outcome;
use crate::action::OutcomeView;
use crate::content::Content;
use crate::content::ToolError;
use crate::content::ToolErrorView;
use crate::content::ToolResult;
use crate::content::result_view;
use crate::json::json_object_text;
use crate::system::fs::ChangeOwnershipParams;
use crate::system::fs::CopyParams;
use crate::system::fs::CreateParams;
use crate::system::fs::DeleteParams;
use crate::system::fs::FsChangeOwnership;
use crate::system::fs::FsCopy;
use crate::system::fs::FsCreate;
use crate::system::fs::FsDelete;
use crate::system::fs::FsGetFileInfo;
use crate::system::fs::FsListDirectory;
use crate::system::fs::FsMakeDirectory;
use crate::system::fs::FsMove;
use crate::system::fs::FsRead;
use crate::system::fs::FsRemoveDirectory;
use crate::system::fs::FsRename;
use crate::system::fs::FsSetPermissions;
use crate::system::fs::FsWrite;
use crate::system::fs::GetFileInfoParams;
use crate::system::fs::ListDirectoryParams;
use crate::system::fs::MakeDirectoryParams;
use crate::system::fs::MoveParams;
use crate::system::fs::ReadParams;
use crate::system::fs::RemoveDirectoryParams;
use crate::system::fs::RenameParams;
use crate::system::fs::SetFilePermissionsParams;
use crate::system::fs::WriteParams;
use crate::system::fs::file_info_members;
use crate::system::process::Process;
use crate::system::process::ProcessCallParam;
use crate::system::process::process_report;
use crate::text::lossy_text;
use vstd::prelude::*;

verus! {

/// The tools that run in this process.
#[derive(Debug, Clone, Copy, PartialEq, Eq, Structural)]
pub enum LocalTool {
    Process,
    FsRead,
    FsWrite,
    FsCreate,
    FsDelete,
    FsRename,
    FsMove,
    FsCopy,
    FsListDirectory,
    FsMakeDirectory,
    FsRemoveDirectory,
    FsGetFileInfo,
    FsSetPermissions,
    FsChangeOwnership,
}

/// What a call remembers between two operations.
#[derive(Debug, PartialEq, Eq)]
pub struct ToolRun {
    /// The tool that is being called.
    pub tool: LocalTool,
    /// The path or command that the call is about.
    pub subject: String,
    /// The operation that follows the one under way, if any.
    pub next: Option<Action>,
}

/// The mathematical value of a [`ToolRun`].
pub ghost struct ToolRunView {
    pub tool: LocalTool,
    pub subject: Seq<char>,
    pub next: Option<ActionView>,
}

impl View for ToolRun {
    type V = ToolRunView;

    open spec fn view(&self) -> ToolRunView {
        ToolRunView {
            tool: self.tool,
            subject: self.subject@,
            next: match self.next {
                Some(action) => Some(action@),
                None => None,
            },
        }
    }
}

/// What a call asks of its driver next.
#[derive(Debug, PartialEq, Eq)]
pub enum Step {
    /// Perform the operation, then resume the call with its outcome.
    Perform(Action, ToolRun),
    /// The tool lives in a remote session: send the call there, under the
    /// tool's name, and return the reply as it comes.
    Forward { session: u64, tool: String },
    /// The call is over, with this result.
    Finished(ToolResult),
}

/// The mathematical value of a [`Step`].
pub ghost enum StepView {
    Perform(ActionView, ToolRunView),
    Forward { session: u64, tool: Seq<char> },
    Finished(Result<Seq<Seq<char>>, ToolErrorView>),
}

impl View for Step {
    type V = StepView;

    open spec fn view(&self) -> StepView {
        match self {
            Step::Perform(action, run) => StepView::Perform(action@, run@),
            Step::Forward { session, tool } => StepView::Forward { session: *session, tool: tool@ },
            Step::Finished(result) => StepView::Finished(result_view(*result)),
        }
    }
}

/// The parameters of a call, by the tool they are meant for.
#[derive(Debug, PartialEq, Eq)]
pub enum ToolParams {
    Process(ProcessCallParam),
    Read(ReadParams),
    Write(WriteParams),
    Create(CreateParams),
    Delete(DeleteParams),
    Rename(RenameParams),
    Move(MoveParams),
    Copy(CopyParams),
    ListDirectory(ListDirectoryParams),
    MakeDirectory(MakeDirectoryParams),
    RemoveDirectory(RemoveDirectoryParams),
    GetFileInfo(GetFileInfoParams),
    SetPermissions(SetFilePermissionsParams),
    ChangeOwnership(ChangeOwnershipParams),
    /// The parameters stay with the driver, which sends them on as they
    /// came: for a tool that lives in a remote session.
    Forwarded,
}

impl ToolParams {
    /// The local tool that these parameters are meant for, if any.
    pub open spec fn spec_tool(&self) -> Option<LocalTool> {
        match self {
            ToolParams::Process(_) => Some(LocalTool::Process),
            ToolParams::Read(_) => Some(LocalTool::FsRead),
            ToolParams::Write(_) => Some(LocalTool::FsWrite),
            ToolParams::Create(_) => Some(LocalTool::FsCreate),
            ToolParams::Delete(_) => Some(LocalTool::FsDelete),
            ToolParams::Rename(_) => Some(LocalTool::FsRename),
            ToolParams::Move(_) => Some(LocalTool::FsMove),
            ToolParams::Copy(_) => Some(LocalTool::FsCopy),
            ToolParams::ListDirectory(_) => Some(LocalTool::FsListDirectory),
            ToolParams::MakeDirectory(_) => Some(LocalTool::FsMakeDirectory),
            ToolParams::RemoveDirectory(_) => Some(LocalTool::FsRemoveDirectory),
            ToolParams::GetFileInfo(_) => Some(LocalTool::FsGetFileInfo),
            ToolParams::SetPermissions(_) => Some(LocalTool::FsSetPermissions),
            ToolParams::ChangeOwnership(_) => Some(LocalTool::FsChangeOwnership),
            ToolParams::Forwarded => None,
        }
    }

    /// The local tool that these parameters are meant for, if any.
    pub fn tool(&self) -> (tool: Option<LocalTool>)
        ensures
            tool == self.spec_tool(),
    {
        match self {
            ToolParams::Process(_) => Some(LocalTool::Process),
            ToolParams::Read(_) => Some(LocalTool::FsRead),
            ToolParams::Write(_) => Some(LocalTool::FsWrite),
            ToolParams::Create(_) => Some(LocalTool::FsCreate),
            ToolParams::Delete(_) => Some(LocalTool::FsDelete),
            ToolParams::Rename(_) => Some(LocalTool::FsRename),
            ToolParams::Move(_) => Some(LocalTool::FsMove),
            ToolParams::Copy(_) => Some(LocalTool::FsCopy),
            ToolParams::ListDirectory(_) => Some(LocalTool::FsListDirectory),
            ToolParams::MakeDirectory(_) => Some(LocalTool::FsMakeDirectory),
            ToolParams::RemoveDirectory(_) => Some(LocalTool::FsRemoveDirectory),
            ToolParams::GetFileInfo(_) => Some(LocalTool::FsGetFileInfo),
            ToolParams::SetPermissions(_) => Some(LocalTool::FsSetPermissions),
            ToolParams::ChangeOwnership(_) => Some(LocalTool::FsChangeOwnership),
            ToolParams::Forwarded => None,
        }
    }
}

/// The first step of a call with the given parameters: the operation the
/// tool asks for, and what it remembers.
pub open spec fn first_step(params: ToolParams) -> StepView {
    match params {
        ToolParams::Process(p) => StepView::Perform(
            ActionView::Spawn { command: p.command@, args: p.args.deep_view(), envs: p.envs@ },
            ToolRunView { tool: LocalTool::Process, subject: p.command@, next: None },
        ),
        ToolParams::Read(p) => StepView::Perform(
            ActionView::ReadFile { path: p.path@ },
            ToolRunView { tool: LocalTool::FsRead, subject: p.path@, next: None },
        ),
        ToolParams::Write(p) => StepView::Perform(
            ActionView::WriteFile { path: p.path@, offset: p.offset, data: p.data@ },
            ToolRunView { tool: LocalTool::FsWrite, subject: p.path@, next: None },
        ),
        ToolParams::Create(p) => StepView::Perform(
            ActionView::CreateFile { path: p.path@ },
            ToolRunView { tool: LocalTool::FsCreate, subject: p.path@, next: Some(ActionView::SetPermissions { path: p.path@, mode: p.permissions }) },
        ),
        ToolParams::Delete(p) => StepView::Perform(
            ActionView::RemoveFile { path: p.path@ },
            ToolRunView { tool: LocalTool::FsDelete, subject: p.path@, next: None },
        ),
        ToolParams::Rename(p) => StepView::Perform(
            ActionView::Rename { from: p.old_path@, to: p.new_path@ },
            ToolRunView { tool: LocalTool::FsRename, subject: p.old_path@, next: None },
        ),
        ToolParams::Move(p) => StepView::Perform(
            ActionView::Rename { from: p.source_path@, to: p.destination_path@ },
            ToolRunView { tool: LocalTool::FsMove, subject: p.source_path@, next: None },
        ),
        ToolParams::Copy(p) => StepView::Perform(
            ActionView::Copy { from: p.source_path@, to: p.destination_path@ },
            ToolRunView { tool: LocalTool::FsCopy, subject: p.source_path@, next: None },
        ),
        ToolParams::ListDirectory(p) => StepView::Perform(
            ActionView::ReadDir { path: p.path@ },
            ToolRunView { tool: LocalTool::FsListDirectory, subject: p.path@, next: None },
        ),
        ToolParams::MakeDirectory(p) => StepView::Perform(
            ActionView::CreateDir { path: p.path@ },
            ToolRunView { tool: LocalTool::FsMakeDirectory, subject: p.path@, next: Some(ActionView::SetPermissions { path: p.path@, mode: p.permissions }) },
        ),
        ToolParams::RemoveDirectory(p) => StepView::Perform(
            if p.recursive {
                    ActionView::RemoveDirAll { path: p.path@ }
                } else {
                    ActionView::RemoveDir { path: p.path@ }
                },
            ToolRunView { tool: LocalTool::FsRemoveDirectory, subject: p.path@, next: None },
        ),
        ToolParams::GetFileInfo(p) => StepView::Perform(
            ActionView::Metadata { path: p.path@ },
            ToolRunView { tool: LocalTool::FsGetFileInfo, subject: p.path@, next: None },
        ),
        ToolParams::SetPermissions(p) => StepView::Perform(
            ActionView::SetPermissions { path: p.path@, mode: p.permissions },
            ToolRunView { tool: LocalTool::FsSetPermissions, subject: p.path@, next: None },
        ),
        ToolParams::ChangeOwnership(p) => StepView::Perform(
            ActionView::Chown { path: p.path@, user_id: p.user_id, group_id: p.group_id },
            ToolRunView { tool: LocalTool::FsChangeOwnership, subject: p.path@, next: None },
        ),
        ToolParams::Forwarded => StepView::Finished(
            Err(ToolErrorView::InvalidParameters(wrong_parameters())),
        ),
    }
}

/// The text of the error for parameters that were meant for another tool.
pub open spec fn wrong_parameters() -> Seq<char> {
    "the parameters belong to another tool"@
}

/// The text of the error for an outcome that the operation under way cannot
/// have.
pub open spec fn unexpected_outcome() -> Seq<char> {
    "the operation reported an outcome of another kind"@
}

/// The text of the error for an operation that the platform lacks.
pub open spec fn unsupported(tool: LocalTool) -> Seq<char> {
    if tool == LocalTool::FsChangeOwnership {
        "Changing ownership is only supported on Unix systems"@
    } else {
        "This operation is not supported on this system"@
    }
}

/// How a call begins: with the tool's first step, or with an error where the
/// parameters are those of another tool.
pub open spec fn spec_start(tool: LocalTool, params: ToolParams) -> StepView {
    if params.spec_tool() == Some(tool) {
        first_step(params)
    } else {
        StepView::Finished(Err(ToolErrorView::InvalidParameters(wrong_parameters())))
    }
}

/// The result of a call whose last operation had the given outcome.
pub open spec fn conclusion(tool: LocalTool, subject: Seq<char>, outcome: OutcomeView) -> Result<
    Seq<Seq<char>>,
    ToolErrorView,
> {
    match (tool, outcome) {
        (_, OutcomeView::Failed(text)) => Err(ToolErrorView::ExecutionError(text)),
        (_, OutcomeView::Unsupported) => Err(ToolErrorView::ValidationError(unsupported(tool))),
        (LocalTool::Process, OutcomeView::Exited(output)) => Ok(process_report(output)),
        (LocalTool::Process, _) => Err(ToolErrorView::ExecutionError(unexpected_outcome())),
        (LocalTool::FsRead, OutcomeView::Bytes(bytes)) => Ok(seq![lossy_text(bytes)]),
        (LocalTool::FsRead, _) => Err(ToolErrorView::ExecutionError(unexpected_outcome())),
        (LocalTool::FsListDirectory, OutcomeView::Entries(paths)) => Ok(paths),
        (LocalTool::FsListDirectory, _) => Err(
            ToolErrorView::ExecutionError(unexpected_outcome()),
        ),
        (LocalTool::FsGetFileInfo, OutcomeView::Info(info)) => Ok(
            seq![json_object_text(file_info_members(subject, info))],
        ),
        (LocalTool::FsGetFileInfo, _) => Err(ToolErrorView::ExecutionError(unexpected_outcome())),
        (_, OutcomeView::Done) => Ok(Seq::empty()),
        (_, _) => Err(ToolErrorView::ExecutionError(unexpected_outcome())),
    }
}

/// How a call goes on after an operation.
///
/// A failure ends the call at once, with the system's error text. An
/// operation that the platform lacks ends it with a validation error. After a
/// success the call either asks for the operation that was to follow, or, if
/// none was, ends with the tool's result.
pub open spec fn spec_resume(run: ToolRunView, outcome: OutcomeView) -> StepView {
    match (run.next, outcome) {
        (_, OutcomeView::Failed(text)) => StepView::Finished(
            Err(ToolErrorView::ExecutionError(text)),
        ),
        (_, OutcomeView::Unsupported) => StepView::Finished(
            Err(ToolErrorView::ValidationError(unsupported(run.tool))),
        ),
        (Some(action), OutcomeView::Done) => StepView::Perform(
            action,
            ToolRunView { tool: run.tool, subject: run.subject, next: None },
        ),
        (Some(_), _) => StepView::Finished(
            Err(ToolErrorView::ExecutionError(unexpected_outcome())),
        ),
        (None, _) => StepView::Finished(conclusion(run.tool, run.subject, outcome)),
    }
}

impl LocalTool {
    /// The name under which the tool is registered.
    pub open spec fn spec_name(self) -> Seq<char> {
        match self {
            LocalTool::Process => "process"@,
            LocalTool::FsRead => "fs.read"@,
            LocalTool::FsWrite => "fs.write"@,
            LocalTool::FsCreate => "fs.create"@,
            LocalTool::FsDelete => "fs.delete"@,
            LocalTool::FsRename => "fs.rename"@,
            LocalTool::FsMove => "fs.move"@,
            LocalTool::FsCopy => "fs.copy"@,
            LocalTool::FsListDirectory => "fs.list_directory"@,
            LocalTool::FsMakeDirectory => "fs.make_directory"@,
            LocalTool::FsRemoveDirectory => "fs.remove_directory"@,
            LocalTool::FsGetFileInfo => "fs.get_file_info"@,
            LocalTool::FsSetPermissions => "fs.set_permissions"@,
            LocalTool::FsChangeOwnership => "fs.change_ownership"@,
        }
    }

    /// What the tool does, in a sentence.
    pub open spec fn spec_description(self) -> Seq<char> {
        match self {
            LocalTool::Process => "execute a process, output[0]: status code, output[1]: stdout, output[2]: stderr"@,
            LocalTool::FsRead => "Read data from a file."@,
            LocalTool::FsWrite => "Write data to a file."@,
            LocalTool::FsCreate => "Create a new file with specified permissions."@,
            LocalTool::FsDelete => "Delete a file."@,
            LocalTool::FsRename => "Rename a file."@,
            LocalTool::FsMove => "Move a file to a new location."@,
            LocalTool::FsCopy => "Copy a file to a new location."@,
            LocalTool::FsListDirectory => "List contents of a directory."@,
            LocalTool::FsMakeDirectory => "Create a new directory with specified permissions."@,
            LocalTool::FsRemoveDirectory => "Remove a directory and optionally its contents."@,
            LocalTool::FsGetFileInfo => "Get metadata information about a file."@,
            LocalTool::FsSetPermissions => "Set file permissions."@,
            LocalTool::FsChangeOwnership => "Change file ownership (Unix only)."@,
        }
    }

    /// The name under which the tool is registered.
    pub fn name(self) -> (name: &'static str)
        ensures
            name@ == self.spec_name(),
    {
        match self {
            LocalTool::Process => (Process {}).name(),
            LocalTool::FsRead => (FsRead).name(),
            LocalTool::FsWrite => (FsWrite).name(),
            LocalTool::FsCreate => (FsCreate).name(),
            LocalTool::FsDelete => (FsDelete).name(),
            LocalTool::FsRename => (FsRename).name(),
            LocalTool::FsMove => (FsMove).name(),
            LocalTool::FsCopy => (FsCopy).name(),
            LocalTool::FsListDirectory => (FsListDirectory).name(),
            LocalTool::FsMakeDirectory => (FsMakeDirectory).name(),
            LocalTool::FsRemoveDirectory => (FsRemoveDirectory).name(),
            LocalTool::FsGetFileInfo => (FsGetFileInfo).name(),
            LocalTool::FsSetPermissions => (FsSetPermissions).name(),
            LocalTool::FsChangeOwnership => (FsChangeOwnership).name(),
        }
    }

    /// What the tool does, in a sentence.
    pub fn description(self) -> (text: &'static str)
        ensures
            text@ == self.spec_description(),
    {
        match self {
            LocalTool::Process => (Process {}).description(),
            LocalTool::FsRead => (FsRead).description(),
            LocalTool::FsWrite => (FsWrite).description(),
            LocalTool::FsCreate => (FsCreate).description(),
            LocalTool::FsDelete => (FsDelete).description(),
            LocalTool::FsRename => (FsRename).description(),
            LocalTool::FsMove => (FsMove).description(),
            LocalTool::FsCopy => (FsCopy).description(),
            LocalTool::FsListDirectory => (FsListDirectory).description(),
            LocalTool::FsMakeDirectory => (FsMakeDirectory).description(),
            LocalTool::FsRemoveDirectory => (FsRemoveDirectory).description(),
            LocalTool::FsGetFileInfo => (FsGetFileInfo).description(),
            LocalTool::FsSetPermissions => (FsSetPermissions).description(),
            LocalTool::FsChangeOwnership => (FsChangeOwnership).description(),
        }
    }

    /// Begins a call of this tool.
    ///
    /// Parameters that were meant for another tool end the call at once with
    /// `InvalidParameters`. Otherwise the result is the tool's first step.
    pub fn start(self, params: ToolParams) -> (step: Step)
        ensures
            step@ == spec_start(self, params),
    {
        let fits = match params.tool() {
            Some(meant) => meant == self,
            None => false,
        };
        if !fits {
            return Step::Finished(
                Err(
                    ToolError::InvalidParameters(
                        String::from_str("the parameters belong to another tool"),
                    ),
                ),
            );
        }
        match params {
            ToolParams::Process(p) => (Process {}).call(p),
            ToolParams::Read(p) => (FsRead).call(p),
            ToolParams::Write(p) => (FsWrite).call(p),
            ToolParams::Create(p) => (FsCreate).call(p),
            ToolParams::Delete(p) => (FsDelete).call(p),
            ToolParams::Rename(p) => (FsRename).call(p),
            ToolParams::Move(p) => (FsMove).call(p),
            ToolParams::Copy(p) => (FsCopy).call(p),
            ToolParams::ListDirectory(p) => (FsListDirectory).call(p),
            ToolParams::MakeDirectory(p) => (FsMakeDirectory).call(p),
            ToolParams::RemoveDirectory(p) => (FsRemoveDirectory).call(p),
            ToolParams::GetFileInfo(p) => (FsGetFileInfo).call(p),
            ToolParams::SetPermissions(p) => (FsSetPermissions).call(p),
            ToolParams::ChangeOwnership(p) => (FsChangeOwnership).call(p),
            ToolParams::Forwarded => Step::Finished(
                Err(
                    ToolError::InvalidParameters(
                        String::from_str("the parameters belong to another tool"),
                    ),
                ),
            ),
        }
    }
}

fn unexpected() -> (result: ToolResult)
    ensures
        result_view(result) == Err::<Seq<Seq<char>>, ToolErrorView>(
            ToolErrorView::ExecutionError(unexpected_outcome()),
        ),
{
    Err(
        ToolError::ExecutionError(
            String::from_str("the operation reported an outcome of another kind"),
        ),
    )
}

fn not_supported(tool: LocalTool) -> (result: ToolResult)
    ensures
        result_view(result) == Err::<Seq<Seq<char>>, ToolErrorView>(
            ToolErrorView::ValidationError(unsupported(tool)),
        ),
{
    let text = if tool == LocalTool::FsChangeOwnership {
        "Changing ownership is only supported on Unix systems"
    } else {
        "This operation is not supported on this system"
    };
    Err(ToolError::ValidationError(String::from_str(text)))
}

impl ToolRun {
    /// Ends a call whose last operation had the given outcome.
    pub fn conclude(tool: LocalTool, subject: &str, outcome: Outcome) -> (result: ToolResult)
        ensures
            result_view(result) == conclusion(tool, subject@, outcome@),
    {
        match outcome {
            Outcome::Failed(text) => Err(ToolError::ExecutionError(text)),
            Outcome::Unsupported => not_supported(tool),
            Outcome::Exited(output) => match tool {
                LocalTool::Process => Ok((Process {}).finish(output)),
                _ => unexpected(),
            },
            Outcome::Bytes(bytes) => match tool {
                LocalTool::FsRead => Ok(FsRead.finish(&bytes)),
                _ => unexpected(),
            },
            Outcome::Entries(paths) => match tool {
                LocalTool::FsListDirectory => Ok(FsListDirectory.finish(&paths)),
                _ => unexpected(),
            },
            Outcome::Info(info) => match tool {
                LocalTool::FsGetFileInfo => Ok(FsGetFileInfo.finish(subject, info)),
                _ => unexpected(),
            },
            Outcome::Done => match tool {
                LocalTool::Process
                | LocalTool::FsRead
                | LocalTool::FsListDirectory
                | LocalTool::FsGetFileInfo => unexpected(),
                _ => {
                    let nothing: Vec<Content> = Vec::new();
                    assert(crate::content::texts(nothing@) =~= Seq::<Seq<char>>::empty());
                    Ok(nothing)
                },
            },
        }
    }

    /// Takes the outcome of the operation that was asked for and says how the
    /// call goes on.
    pub fn resume(self, outcome: Outcome) -> (step: Step)
        ensures
            step@ == spec_resume(self@, outcome@),
    {
        match outcome {
            Outcome::Failed(text) => Step::Finished(Err(ToolError::ExecutionError(text))),
            Outcome::Unsupported => Step::Finished(not_supported(self.tool)),
            other => match self.next {
                Some(action) => match other {
                    Outcome::Done => Step::Perform(
                        action,
                        ToolRun { tool: self.tool, subject: self.subject, next: None },
                    ),
                    _ => Step::Finished(unexpected()),
                },
                None => Step::Finished(
                    ToolRun::conclude(self.tool, self.subject.as_str(), other),
                ),
            },
        }
    }
}

} // verus!
