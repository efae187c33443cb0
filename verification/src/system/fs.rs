//! The tools that work on the local file system.
//!
//! Each tool is a unit type with a name, a description and a `call` that
//! begins the exchange with the driver. The three tools that report something
//! also have a `finish`, which turns what the driver found into content.

use crate::action::Action;
use crate::action::ActionView;
use crate::action::FileInfo;
use crate::content::Content;
use crate::content::texts;
use crate::json::JsonField;
use crate::json::JsonFieldView;
use crate::json::json_object;
use crate::json::json_object_text;
use crate::json::members;
use crate::run::LocalTool;
use crate::run::Step;
use crate::run::StepView;
use crate::run::ToolRun;
use crate::run::ToolRunView;
use crate::run::conclusion;
use crate::action::OutcomeView;
use crate::action::written;
use crate::text::lemma_decode_encoded;
use crate::text::decode_lossy;
use crate::text::lossy_text;
use crate::toolset::ToolHandler;
use crate::toolset::ToolSet;
use vstd::prelude::*;

verus! {

/// Parameters for reading from a file.
#[derive(Debug, PartialEq, Eq)]
pub struct ReadParams {
    /// Path to the file to be read.
    pub path: String,
    /// Starting position (in bytes) from which to read.
    pub offset: Option<u32>,
    /// Number of bytes to read.
    pub length: Option<u32>,
}

/// The tool `fs.read`.
#[derive(Debug, Default, Clone, Copy)]
pub struct FsRead;

impl FsRead {
    pub fn name(&self) -> (name: &'static str)
        ensures
            name@ == "fs.read"@,
    {
        "fs.read"
    }

    pub fn description(&self) -> (text: &'static str)
        ensures
            text@ == "Read data from a file."@,
    {
        "Read data from a file."
    }

    /// Begins a call: asks for the whole file. The offset and the length are
    /// accepted and not acted on.
    pub fn call(&self, params: ReadParams) -> (step: Step)
        ensures
            step@ == StepView::Perform(
                ActionView::ReadFile { path: params.path@ },
                ToolRunView { tool: LocalTool::FsRead, subject: params.path@, next: None },
            ),
    {
        let subject = params.path.clone();
        Step::Perform(Action::ReadFile { path: params.path }, ToolRun { tool: LocalTool::FsRead, subject, next: None })
    }

    /// Ends a call: the file's bytes, decoded lossily, as one text.
    pub fn finish(&self, bytes: &Vec<u8>) -> (report: Vec<Content>)
        ensures
            texts(report@) == seq![lossy_text(bytes@)],
    {
        let mut report: Vec<Content> = Vec::new();
        report.push(Content::text(decode_lossy(bytes)));
        assert(texts(report@) =~= seq![lossy_text(bytes@)]);
        report
    }
}

/// Parameters for writing to a file.
#[derive(Debug, PartialEq, Eq)]
pub struct WriteParams {
    /// Path to the file to be written to.
    pub path: String,
    /// Starting position (in bytes) at which to write.
    pub offset: u64,
    /// Data to be written to the file.
    pub data: String,
}

/// The tool `fs.write`.
#[derive(Debug, Default, Clone, Copy)]
pub struct FsWrite;

impl FsWrite {
    pub fn name(&self) -> (name: &'static str)
        ensures
            name@ == "fs.write"@,
    {
        "fs.write"
    }

    pub fn description(&self) -> (text: &'static str)
        ensures
            text@ == "Write data to a file."@,
    {
        "Write data to a file."
    }

    /// Begins a call: asks for the file to be emptied and the data stored from
    /// the given offset on.
    pub fn call(&self, params: WriteParams) -> (step: Step)
        ensures
            step@ == StepView::Perform(
                ActionView::WriteFile { path: params.path@, offset: params.offset, data: params.data@ },
                ToolRunView { tool: LocalTool::FsWrite, subject: params.path@, next: None },
            ),
    {
        let subject = params.path.clone();
        Step::Perform(Action::WriteFile { path: params.path, offset: params.offset, data: params.data }, ToolRun { tool: LocalTool::FsWrite, subject, next: None })
    }
}

/// Parameters for creating a new file.
#[derive(Debug, PartialEq, Eq)]
pub struct CreateParams {
    /// Path where the new file should be created.
    pub path: String,
    /// Unix-style file permissions (e.g., 0o644).
    pub permissions: u32,
}

/// The tool `fs.create`.
#[derive(Debug, Default, Clone, Copy)]
pub struct FsCreate;

impl FsCreate {
    pub fn name(&self) -> (name: &'static str)
        ensures
            name@ == "fs.create"@,
    {
        "fs.create"
    }

    pub fn description(&self) -> (text: &'static str)
        ensures
            text@ == "Create a new file with specified permissions."@,
    {
        "Create a new file with specified permissions."
    }

    /// Begins a call: asks for the file to be created, and for its permission
    /// bits to be set once that has succeeded.
    pub fn call(&self, params: CreateParams) -> (step: Step)
        ensures
            step@ == StepView::Perform(
                ActionView::CreateFile { path: params.path@ },
                ToolRunView { tool: LocalTool::FsCreate, subject: params.path@, next: Some(ActionView::SetPermissions { path: params.path@, mode: params.permissions }) },
            ),
    {
        let subject = params.path.clone();
        let again = params.path.clone();
        let next = Some(Action::SetPermissions { path: again, mode: params.permissions });
        Step::Perform(Action::CreateFile { path: params.path }, ToolRun { tool: LocalTool::FsCreate, subject, next })
    }
}

/// Parameters for deleting a file.
#[derive(Debug, PartialEq, Eq)]
pub struct DeleteParams {
    /// Path to the file to be deleted.
    pub path: String,
}

/// The tool `fs.delete`.
#[derive(Debug, Default, Clone, Copy)]
pub struct FsDelete;

impl FsDelete {
    pub fn name(&self) -> (name: &'static str)
        ensures
            name@ == "fs.delete"@,
    {
        "fs.delete"
    }

    pub fn description(&self) -> (text: &'static str)
        ensures
            text@ == "Delete a file."@,
    {
        "Delete a file."
    }

    /// Begins a call: asks for the file to be deleted.
    pub fn call(&self, params: DeleteParams) -> (step: Step)
        ensures
            step@ == StepView::Perform(
                ActionView::RemoveFile { path: params.path@ },
                ToolRunView { tool: LocalTool::FsDelete, subject: params.path@, next: None },
            ),
    {
        let subject = params.path.clone();
        Step::Perform(Action::RemoveFile { path: params.path }, ToolRun { tool: LocalTool::FsDelete, subject, next: None })
    }
}

/// Parameters for renaming a file.
#[derive(Debug, PartialEq, Eq)]
pub struct RenameParams {
    /// Current path of the file.
    pub old_path: String,
    /// New path for the file.
    pub new_path: String,
}

/// The tool `fs.rename`.
#[derive(Debug, Default, Clone, Copy)]
pub struct FsRename;

impl FsRename {
    pub fn name(&self) -> (name: &'static str)
        ensures
            name@ == "fs.rename"@,
    {
        "fs.rename"
    }

    pub fn description(&self) -> (text: &'static str)
        ensures
            text@ == "Rename a file."@,
    {
        "Rename a file."
    }

    /// Begins a call: asks for the file to be renamed.
    pub fn call(&self, params: RenameParams) -> (step: Step)
        ensures
            step@ == StepView::Perform(
                ActionView::Rename { from: params.old_path@, to: params.new_path@ },
                ToolRunView { tool: LocalTool::FsRename, subject: params.old_path@, next: None },
            ),
    {
        let subject = params.old_path.clone();
        Step::Perform(Action::Rename { from: params.old_path, to: params.new_path }, ToolRun { tool: LocalTool::FsRename, subject, next: None })
    }
}

/// Parameters for moving a file.
#[derive(Debug, PartialEq, Eq)]
pub struct MoveParams {
    /// Current path of the file to be moved.
    pub source_path: String,
    /// Destination path where the file should be moved to.
    pub destination_path: String,
}

/// The tool `fs.move`.
#[derive(Debug, Default, Clone, Copy)]
pub struct FsMove;

impl FsMove {
    pub fn name(&self) -> (name: &'static str)
        ensures
            name@ == "fs.move"@,
    {
        "fs.move"
    }

    pub fn description(&self) -> (text: &'static str)
        ensures
            text@ == "Move a file to a new location."@,
    {
        "Move a file to a new location."
    }

    /// Begins a call: asks for the file to be moved.
    pub fn call(&self, params: MoveParams) -> (step: Step)
        ensures
            step@ == StepView::Perform(
                ActionView::Rename { from: params.source_path@, to: params.destination_path@ },
                ToolRunView { tool: LocalTool::FsMove, subject: params.source_path@, next: None },
            ),
    {
        let subject = params.source_path.clone();
        Step::Perform(Action::Rename { from: params.source_path, to: params.destination_path }, ToolRun { tool: LocalTool::FsMove, subject, next: None })
    }
}

/// Parameters for copying a file.
#[derive(Debug, PartialEq, Eq)]
pub struct CopyParams {
    /// Path of the file to be copied.
    pub source_path: String,
    /// Destination path where the file should be copied to.
    pub destination_path: String,
}

/// The tool `fs.copy`.
#[derive(Debug, Default, Clone, Copy)]
pub struct FsCopy;

impl FsCopy {
    pub fn name(&self) -> (name: &'static str)
        ensures
            name@ == "fs.copy"@,
    {
        "fs.copy"
    }

    pub fn description(&self) -> (text: &'static str)
        ensures
            text@ == "Copy a file to a new location."@,
    {
        "Copy a file to a new location."
    }

    /// Begins a call: asks for the file to be copied.
    pub fn call(&self, params: CopyParams) -> (step: Step)
        ensures
            step@ == StepView::Perform(
                ActionView::Copy { from: params.source_path@, to: params.destination_path@ },
                ToolRunView { tool: LocalTool::FsCopy, subject: params.source_path@, next: None },
            ),
    {
        let subject = params.source_path.clone();
        Step::Perform(Action::Copy { from: params.source_path, to: params.destination_path }, ToolRun { tool: LocalTool::FsCopy, subject, next: None })
    }
}

/// Parameters for listing the contents of a directory.
#[derive(Debug, PartialEq, Eq)]
pub struct ListDirectoryParams {
    /// Path to the directory to be listed.
    pub path: String,
}

/// The tool `fs.list_directory`.
#[derive(Debug, Default, Clone, Copy)]
pub struct FsListDirectory;

impl FsListDirectory {
    pub fn name(&self) -> (name: &'static str)
        ensures
            name@ == "fs.list_directory"@,
    {
        "fs.list_directory"
    }

    pub fn description(&self) -> (text: &'static str)
        ensures
            text@ == "List contents of a directory."@,
    {
        "List contents of a directory."
    }

    /// Begins a call: asks for the directory's entries.
    pub fn call(&self, params: ListDirectoryParams) -> (step: Step)
        ensures
            step@ == StepView::Perform(
                ActionView::ReadDir { path: params.path@ },
                ToolRunView { tool: LocalTool::FsListDirectory, subject: params.path@, next: None },
            ),
    {
        let subject = params.path.clone();
        Step::Perform(Action::ReadDir { path: params.path }, ToolRun { tool: LocalTool::FsListDirectory, subject, next: None })
    }

    /// Ends a call: one text for each entry, in the order they were listed.
    pub fn finish(&self, entries: &Vec<String>) -> (report: Vec<Content>)
        ensures
            texts(report@) == entries.deep_view(),
    {
        let mut report: Vec<Content> = Vec::new();
        let mut i: usize = 0;
        while i < entries.len()
            invariant
                i <= entries.len(),
                report@.len() == i,
                forall|j: int| 0 <= j < i ==> (#[trigger] report@[j])@ == entries@[j]@,
            decreases entries.len() - i,
        {
            report.push(Content::text(entries[i].clone()));
            i += 1;
        }
        assert(texts(report@) =~= entries.deep_view());
        report
    }
}

/// Parameters for creating a new directory.
#[derive(Debug, PartialEq, Eq)]
pub struct MakeDirectoryParams {
    /// Path where the new directory should be created.
    pub path: String,
    /// Unix-style directory permissions (e.g., 0o755).
    pub permissions: u32,
}

/// The tool `fs.make_directory`.
#[derive(Debug, Default, Clone, Copy)]
pub struct FsMakeDirectory;

impl FsMakeDirectory {
    pub fn name(&self) -> (name: &'static str)
        ensures
            name@ == "fs.make_directory"@,
    {
        "fs.make_directory"
    }

    pub fn description(&self) -> (text: &'static str)
        ensures
            text@ == "Create a new directory with specified permissions."@,
    {
        "Create a new directory with specified permissions."
    }

    /// Begins a call: asks for the directory to be created, and for its
    /// permission bits to be set once that has succeeded.
    pub fn call(&self, params: MakeDirectoryParams) -> (step: Step)
        ensures
            step@ == StepView::Perform(
                ActionView::CreateDir { path: params.path@ },
                ToolRunView { tool: LocalTool::FsMakeDirectory, subject: params.path@, next: Some(ActionView::SetPermissions { path: params.path@, mode: params.permissions }) },
            ),
    {
        let subject = params.path.clone();
        let again = params.path.clone();
        let next = Some(Action::SetPermissions { path: again, mode: params.permissions });
        Step::Perform(Action::CreateDir { path: params.path }, ToolRun { tool: LocalTool::FsMakeDirectory, subject, next })
    }
}

/// Parameters for removing a directory.
#[derive(Debug, PartialEq, Eq)]
pub struct RemoveDirectoryParams {
    /// Path to the directory to be removed.
    pub path: String,
    /// Whether to recursively remove all contents of the directory.
    pub recursive: bool,
}

/// The tool `fs.remove_directory`.
#[derive(Debug, Default, Clone, Copy)]
pub struct FsRemoveDirectory;

impl FsRemoveDirectory {
    pub fn name(&self) -> (name: &'static str)
        ensures
            name@ == "fs.remove_directory"@,
    {
        "fs.remove_directory"
    }

    pub fn description(&self) -> (text: &'static str)
        ensures
            text@ == "Remove a directory and optionally its contents."@,
    {
        "Remove a directory and optionally its contents."
    }

    /// Begins a call: asks for the directory to be removed, with everything
    /// below it where `recursive` is set, and only if it is empty where not.
    pub fn call(&self, params: RemoveDirectoryParams) -> (step: Step)
        ensures
            step@ == StepView::Perform(
                if params.recursive {
                    ActionView::RemoveDirAll { path: params.path@ }
                } else {
                    ActionView::RemoveDir { path: params.path@ }
                },
                ToolRunView { tool: LocalTool::FsRemoveDirectory, subject: params.path@, next: None },
            ),
    {
        let subject = params.path.clone();
        let action = if params.recursive {
            Action::RemoveDirAll { path: params.path }
        } else {
            Action::RemoveDir { path: params.path }
        };
        Step::Perform(action, ToolRun { tool: LocalTool::FsRemoveDirectory, subject, next: None })
    }
}

/// Parameters for retrieving file information.
#[derive(Debug, PartialEq, Eq)]
pub struct GetFileInfoParams {
    /// Path to the file for which to get information.
    pub path: String,
}

/// The tool `fs.get_file_info`.
#[derive(Debug, Default, Clone, Copy)]
pub struct FsGetFileInfo;

impl FsGetFileInfo {
    pub fn name(&self) -> (name: &'static str)
        ensures
            name@ == "fs.get_file_info"@,
    {
        "fs.get_file_info"
    }

    pub fn description(&self) -> (text: &'static str)
        ensures
            text@ == "Get metadata information about a file."@,
    {
        "Get metadata information about a file."
    }

    /// Begins a call: asks for the file's metadata.
    pub fn call(&self, params: GetFileInfoParams) -> (step: Step)
        ensures
            step@ == StepView::Perform(
                ActionView::Metadata { path: params.path@ },
                ToolRunView { tool: LocalTool::FsGetFileInfo, subject: params.path@, next: None },
            ),
    {
        let subject = params.path.clone();
        Step::Perform(Action::Metadata { path: params.path }, ToolRun { tool: LocalTool::FsGetFileInfo, subject, next: None })
    }

    /// Ends a call: the metadata as the text of one JSON object.
    pub fn finish(&self, path: &str, info: FileInfo) -> (report: Vec<Content>)
        ensures
            texts(report@) == seq![json_object_text(file_info_members(path@, info))],
    {
        let modified = match info.modified {
            Some(seconds) => JsonField::Number(seconds),
            None => JsonField::Null,
        };
        let mut fields: Vec<(String, JsonField)> = Vec::new();
        fields.push((String::from_str("path"), JsonField::Text(String::from_str(path))));
        fields.push((String::from_str("size"), JsonField::Number(info.size)));
        fields.push((String::from_str("modified"), modified));
        fields.push((String::from_str("is_dir"), JsonField::Bool(info.is_dir)));
        fields.push((String::from_str("is_file"), JsonField::Bool(info.is_file)));
        fields.push((String::from_str("permissions"), JsonField::Number(info.permissions as u64)));
        assert(members(fields@) =~= file_info_members(path@, info));
        let mut report: Vec<Content> = Vec::new();
        report.push(Content::text(json_object(&fields)));
        assert(texts(report@) =~= seq![json_object_text(file_info_members(path@, info))]);
        report
    }
}

/// Parameters for setting file permissions.
#[derive(Debug, PartialEq, Eq)]
pub struct SetFilePermissionsParams {
    /// Path to the file whose permissions should be changed.
    pub path: String,
    /// New Unix-style permissions to set (e.g., 0o644).
    pub permissions: u32,
}

/// The tool `fs.set_permissions`.
#[derive(Debug, Default, Clone, Copy)]
pub struct FsSetPermissions;

impl FsSetPermissions {
    pub fn name(&self) -> (name: &'static str)
        ensures
            name@ == "fs.set_permissions"@,
    {
        "fs.set_permissions"
    }

    pub fn description(&self) -> (text: &'static str)
        ensures
            text@ == "Set file permissions."@,
    {
        "Set file permissions."
    }

    /// Begins a call: asks for the permission bits to be set.
    pub fn call(&self, params: SetFilePermissionsParams) -> (step: Step)
        ensures
            step@ == StepView::Perform(
                ActionView::SetPermissions { path: params.path@, mode: params.permissions },
                ToolRunView { tool: LocalTool::FsSetPermissions, subject: params.path@, next: None },
            ),
    {
        let subject = params.path.clone();
        Step::Perform(Action::SetPermissions { path: params.path, mode: params.permissions }, ToolRun { tool: LocalTool::FsSetPermissions, subject, next: None })
    }
}

/// Parameters for changing file ownership.
#[derive(Debug, PartialEq, Eq)]
pub struct ChangeOwnershipParams {
    /// Path to the file whose ownership should be changed.
    pub path: String,
    /// User ID to set as the file's owner.
    pub user_id: u32,
    /// Group ID to set as the file's group.
    pub group_id: u32,
}

/// The tool `fs.change_ownership`.
#[derive(Debug, Default, Clone, Copy)]
pub struct FsChangeOwnership;

impl FsChangeOwnership {
    pub fn name(&self) -> (name: &'static str)
        ensures
            name@ == "fs.change_ownership"@,
    {
        "fs.change_ownership"
    }

    pub fn description(&self) -> (text: &'static str)
        ensures
            text@ == "Change file ownership (Unix only)."@,
    {
        "Change file ownership (Unix only)."
    }

    /// Begins a call: asks for the owner and the group to be changed. Where
    /// the platform has no such operation the driver reports so, and the call
    /// ends in a validation error.
    pub fn call(&self, params: ChangeOwnershipParams) -> (step: Step)
        ensures
            step@ == StepView::Perform(
                ActionView::Chown { path: params.path@, user_id: params.user_id, group_id: params.group_id },
                ToolRunView { tool: LocalTool::FsChangeOwnership, subject: params.path@, next: None },
            ),
    {
        let subject = params.path.clone();
        Step::Perform(Action::Chown { path: params.path, user_id: params.user_id, group_id: params.group_id }, ToolRun { tool: LocalTool::FsChangeOwnership, subject, next: None })
    }
}

/// The members of the object that reports a file's metadata, in the order
/// they are inserted.
pub open spec fn file_info_members(path: Seq<char>, info: FileInfo) -> Seq<
    (Seq<char>, JsonFieldView),
> {
    seq![
        ("path"@, JsonFieldView::Text(path)),
        ("size"@, JsonFieldView::Number(info.size)),
        (
            "modified"@,
            match info.modified {
                Some(seconds) => JsonFieldView::Number(seconds),
                None => JsonFieldView::Null,
            },
        ),
        ("is_dir"@, JsonFieldView::Bool(info.is_dir)),
        ("is_file"@, JsonFieldView::Bool(info.is_file)),
        ("permissions"@, JsonFieldView::Number(info.permissions as u64)),
    ]
}

/// The file system tools, in the order they are registered.
pub open spec fn fs_tools() -> Seq<ToolHandler> {
    seq![
        ToolHandler::Local(LocalTool::FsRead),
        ToolHandler::Local(LocalTool::FsWrite),
        ToolHandler::Local(LocalTool::FsCreate),
        ToolHandler::Local(LocalTool::FsDelete),
        ToolHandler::Local(LocalTool::FsRename),
        ToolHandler::Local(LocalTool::FsMove),
        ToolHandler::Local(LocalTool::FsCopy),
        ToolHandler::Local(LocalTool::FsListDirectory),
        ToolHandler::Local(LocalTool::FsMakeDirectory),
        ToolHandler::Local(LocalTool::FsRemoveDirectory),
        ToolHandler::Local(LocalTool::FsGetFileInfo),
        ToolHandler::Local(LocalTool::FsSetPermissions),
        ToolHandler::Local(LocalTool::FsChangeOwnership),
    ]
}

/// The handlers of a sequence of local tools.
pub open spec fn locals(tools: Seq<LocalTool>) -> Seq<ToolHandler> {
    Seq::new(tools.len(), |i: int| ToolHandler::Local(tools[i]))
}

/// Registers a local tool that the registry does not hold yet: it goes to the
/// end of the listing.
fn add_local(tool_set: &mut ToolSet, tool: LocalTool, Ghost(held): Ghost<Seq<LocalTool>>)
    requires
        old(tool_set).wf(),
        old(tool_set)@ == locals(held),
        !held.contains(tool),
    ensures
        final(tool_set).wf(),
        final(tool_set)@ == locals(held.push(tool)),
{
    proof {
        lemma_names_differ();
        let names = old(tool_set).names();
        let name = ToolHandler::Local(tool).spec_name();
        if names.contains(name) {
            let k = names.index_of(name);
            assert(0 <= k < names.len() && names[k] == name);
            assert(held[k] != tool);
            assert(names[k] == held[k].spec_name());
        }
    }
    tool_set.add_tool(ToolHandler::Local(tool));
    assert(tool_set@ =~= locals(held.push(tool)));
}

/// A registry that holds the file system tools, and nothing else.
pub fn toolset() -> (tool_set: ToolSet)
    ensures
        tool_set.wf(),
        tool_set@ == fs_tools(),
{
    let mut tool_set = ToolSet::new();
    let ghost mut held: Seq<LocalTool> = Seq::empty();
    assert(tool_set@ =~= locals(held));
    add_local(&mut tool_set, LocalTool::FsRead, Ghost(held));
    proof {
        held = held.push(LocalTool::FsRead);
    }
    add_local(&mut tool_set, LocalTool::FsWrite, Ghost(held));
    proof {
        held = held.push(LocalTool::FsWrite);
    }
    add_local(&mut tool_set, LocalTool::FsCreate, Ghost(held));
    proof {
        held = held.push(LocalTool::FsCreate);
    }
    add_local(&mut tool_set, LocalTool::FsDelete, Ghost(held));
    proof {
        held = held.push(LocalTool::FsDelete);
    }
    add_local(&mut tool_set, LocalTool::FsRename, Ghost(held));
    proof {
        held = held.push(LocalTool::FsRename);
    }
    add_local(&mut tool_set, LocalTool::FsMove, Ghost(held));
    proof {
        held = held.push(LocalTool::FsMove);
    }
    add_local(&mut tool_set, LocalTool::FsCopy, Ghost(held));
    proof {
        held = held.push(LocalTool::FsCopy);
    }
    add_local(&mut tool_set, LocalTool::FsListDirectory, Ghost(held));
    proof {
        held = held.push(LocalTool::FsListDirectory);
    }
    add_local(&mut tool_set, LocalTool::FsMakeDirectory, Ghost(held));
    proof {
        held = held.push(LocalTool::FsMakeDirectory);
    }
    add_local(&mut tool_set, LocalTool::FsRemoveDirectory, Ghost(held));
    proof {
        held = held.push(LocalTool::FsRemoveDirectory);
    }
    add_local(&mut tool_set, LocalTool::FsGetFileInfo, Ghost(held));
    proof {
        held = held.push(LocalTool::FsGetFileInfo);
    }
    add_local(&mut tool_set, LocalTool::FsSetPermissions, Ghost(held));
    proof {
        held = held.push(LocalTool::FsSetPermissions);
    }
    add_local(&mut tool_set, LocalTool::FsChangeOwnership, Ghost(held));
    proof {
        held = held.push(LocalTool::FsChangeOwnership);
    }
    assert(tool_set@ =~= fs_tools());
    tool_set
}

/// What tells the name of one local tool from the names of the others: its
/// length, its first character and its fourth.
spec fn mark(name: Seq<char>) -> (nat, char, char) {
    (name.len(), name[0], name[3])
}

/// No two local tools share a name.
pub proof fn lemma_names_differ()
    ensures
        forall|a: LocalTool, b: LocalTool|
            a != b ==> #[trigger] a.spec_name() != #[trigger] b.spec_name(),
{
    reveal_strlit("process");
    reveal_strlit("fs.read");
    reveal_strlit("fs.write");
    reveal_strlit("fs.create");
    reveal_strlit("fs.delete");
    reveal_strlit("fs.rename");
    reveal_strlit("fs.move");
    reveal_strlit("fs.copy");
    reveal_strlit("fs.list_directory");
    reveal_strlit("fs.make_directory");
    reveal_strlit("fs.remove_directory");
    reveal_strlit("fs.get_file_info");
    reveal_strlit("fs.set_permissions");
    reveal_strlit("fs.change_ownership");
    assert forall|a: LocalTool, b: LocalTool| a != b implies #[trigger] a.spec_name()
        != #[trigger] b.spec_name() by {
        assert(mark(a.spec_name()) != mark(b.spec_name()));
    }
}

/// The local tools in the order a server with everything enabled lists them.
pub open spec fn local_tools() -> Seq<LocalTool> {
    seq![
        LocalTool::Process,
        LocalTool::FsRead,
        LocalTool::FsWrite,
        LocalTool::FsCreate,
        LocalTool::FsDelete,
        LocalTool::FsRename,
        LocalTool::FsMove,
        LocalTool::FsCopy,
        LocalTool::FsListDirectory,
        LocalTool::FsMakeDirectory,
        LocalTool::FsRemoveDirectory,
        LocalTool::FsGetFileInfo,
        LocalTool::FsSetPermissions,
        LocalTool::FsChangeOwnership,
    ]
}

/// The place of a local tool in [`local_tools`].
spec fn rank(tool: LocalTool) -> int {
    match tool {
        LocalTool::Process => 0,
        LocalTool::FsRead => 1,
        LocalTool::FsWrite => 2,
        LocalTool::FsCreate => 3,
        LocalTool::FsDelete => 4,
        LocalTool::FsRename => 5,
        LocalTool::FsMove => 6,
        LocalTool::FsCopy => 7,
        LocalTool::FsListDirectory => 8,
        LocalTool::FsMakeDirectory => 9,
        LocalTool::FsRemoveDirectory => 10,
        LocalTool::FsGetFileInfo => 11,
        LocalTool::FsSetPermissions => 12,
        LocalTool::FsChangeOwnership => 13,
    }
}

/// The process tool and the file system tools all have names of their own.
pub proof fn lemma_all_names_differ()
    ensures
        crate::toolset::names_of(
            seq![ToolHandler::Local(LocalTool::Process)] + fs_tools(),
        ).no_duplicates(),
{
    lemma_names_differ();
    let all = seq![ToolHandler::Local(LocalTool::Process)] + fs_tools();
    assert(all =~= locals(local_tools()));
    let names = crate::toolset::names_of(all);
    assert forall|i: int, j: int| 0 <= i < names.len() && 0 <= j < names.len() && i != j implies names[i]
        != names[j] by {
        assert(rank(local_tools()[i]) == i);
        assert(rank(local_tools()[j]) == j);
        assert(names[i] == local_tools()[i].spec_name());
        assert(names[j] == local_tools()[j].spec_name());
    }
}

/// What was written is what is read.
///
/// Once text was written to a file from offset 0 on, a call of the read
/// tool that finds the file as the write left it reports exactly that text.
pub proof fn lemma_write_then_read(path: Seq<char>, data: Seq<char>)
    ensures
        conclusion(LocalTool::FsRead, path, OutcomeView::Bytes(written(0, data))) == Ok::<
            Seq<Seq<char>>,
            crate::content::ToolErrorView,
        >(seq![data]),
{
    lemma_decode_encoded(data);
    assert(written(0, data) =~= vstd::utf8::encode_utf8(data));
}

} // verus!
