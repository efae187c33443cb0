use llmidium::action::Action;
use llmidium::action::FileInfo;
use llmidium::action::Outcome;
use llmidium::content::Content;
use llmidium::content::ToolError;
use llmidium::env::EnvMap;
use llmidium::run::LocalTool;
use llmidium::run::Step;
use llmidium::run::ToolParams;
use llmidium::run::ToolRun;
use llmidium::system::fs::ChangeOwnershipParams;
use llmidium::system::fs::CopyParams;
use llmidium::system::fs::CreateParams;
use llmidium::system::fs::DeleteParams;
use llmidium::system::fs::FsChangeOwnership;
use llmidium::system::fs::FsCopy;
use llmidium::system::fs::FsCreate;
use llmidium::system::fs::FsDelete;
use llmidium::system::fs::FsGetFileInfo;
use llmidium::system::fs::FsListDirectory;
use llmidium::system::fs::FsMakeDirectory;
use llmidium::system::fs::FsMove;
use llmidium::system::fs::FsRead;
use llmidium::system::fs::FsRemoveDirectory;
use llmidium::system::fs::FsRename;
use llmidium::system::fs::FsSetPermissions;
use llmidium::system::fs::FsWrite;
use llmidium::system::fs::GetFileInfoParams;
use llmidium::system::fs::ListDirectoryParams;
use llmidium::system::fs::MakeDirectoryParams;
use llmidium::system::fs::MoveParams;
use llmidium::system::fs::ReadParams;
use llmidium::system::fs::RemoveDirectoryParams;
use llmidium::system::fs::RenameParams;
use llmidium::system::fs::SetFilePermissionsParams;
use llmidium::system::fs::WriteParams;
use llmidium::system::process::Process;
use llmidium::system::process::ProcessCallOutput;
use llmidium::system::process::ProcessCallParam;

fn s(text: &str) -> String {
    text.to_string()
}

fn texts(result: Result<Vec<Content>, ToolError>) -> Vec<String> {
    result.unwrap().into_iter().map(|c| c.text).collect()
}

fn single(tool: LocalTool, subject: &str, action: Action) -> Step {
    Step::Perform(action, ToolRun { tool, subject: s(subject), next: None })
}

#[test]
fn names_and_descriptions_of_the_tools() {
    assert_eq!((Process {}).name(), "process");
    assert_eq!(FsRead.name(), "fs.read");
    assert_eq!(FsWrite.name(), "fs.write");
    assert_eq!(FsCreate.name(), "fs.create");
    assert_eq!(FsDelete.name(), "fs.delete");
    assert_eq!(FsRename.name(), "fs.rename");
    assert_eq!(FsMove.name(), "fs.move");
    assert_eq!(FsCopy.name(), "fs.copy");
    assert_eq!(FsListDirectory.name(), "fs.list_directory");
    assert_eq!(FsMakeDirectory.name(), "fs.make_directory");
    assert_eq!(FsRemoveDirectory.name(), "fs.remove_directory");
    assert_eq!(FsGetFileInfo.name(), "fs.get_file_info");
    assert_eq!(FsSetPermissions.name(), "fs.set_permissions");
    assert_eq!(FsChangeOwnership.name(), "fs.change_ownership");
    assert_eq!(FsWrite.description(), "Write data to a file.");
    assert_eq!(FsRemoveDirectory.description(), "Remove a directory and optionally its contents.");
    assert_eq!(LocalTool::FsMove.name(), "fs.move");
    assert_eq!(LocalTool::FsMove.description(), "Move a file to a new location.");
}

#[test]
fn read_asks_for_the_whole_file() {
    let step = FsRead.call(ReadParams { path: s("/a"), offset: Some(3), length: Some(1) });
    assert_eq!(step, single(LocalTool::FsRead, "/a", Action::ReadFile { path: s("/a") }));
}

#[test]
fn write_asks_for_data_at_offset() {
    let step = FsWrite.call(WriteParams { path: s("/a"), offset: 5, data: s("xyz") });
    assert_eq!(
        step,
        single(
            LocalTool::FsWrite,
            "/a",
            Action::WriteFile { path: s("/a"), offset: 5, data: s("xyz") }
        )
    );
}

#[test]
fn create_sets_permissions_after_creating() {
    let step = FsCreate.call(CreateParams { path: s("/a"), permissions: 0o644 });
    let run = match step {
        Step::Perform(Action::CreateFile { path }, run) => {
            assert_eq!(path, "/a");
            run
        }
        other => panic!("unexpected step: {:?}", other),
    };
    assert_eq!(run.next, Some(Action::SetPermissions { path: s("/a"), mode: 0o644 }));
    let step = run.resume(Outcome::Done);
    let run = match step {
        Step::Perform(Action::SetPermissions { path, mode }, run) => {
            assert_eq!(path, "/a");
            assert_eq!(mode, 0o644);
            run
        }
        other => panic!("unexpected step: {:?}", other),
    };
    assert_eq!(run.next, None);
    assert_eq!(run.resume(Outcome::Done), Step::Finished(Ok(vec![])));
}

#[test]
fn create_stops_at_the_first_failure() {
    let step = FsCreate.call(CreateParams { path: s("/a"), permissions: 0o600 });
    let run = match step {
        Step::Perform(_, run) => run,
        other => panic!("unexpected step: {:?}", other),
    };
    assert_eq!(
        run.resume(Outcome::Failed(s("Permission denied (os error 13)"))),
        Step::Finished(Err(ToolError::ExecutionError(s("Permission denied (os error 13)"))))
    );
}

#[test]
fn make_directory_sets_permissions_after_creating() {
    let step = FsMakeDirectory.call(MakeDirectoryParams { path: s("/d"), permissions: 0o755 });
    let run = match step {
        Step::Perform(Action::CreateDir { path }, run) => {
            assert_eq!(path, "/d");
            run
        }
        other => panic!("unexpected step: {:?}", other),
    };
    assert_eq!(
        run.resume(Outcome::Done),
        single(
            LocalTool::FsMakeDirectory,
            "/d",
            Action::SetPermissions { path: s("/d"), mode: 0o755 }
        )
    );
}

#[test]
fn simple_tools_ask_for_one_operation() {
    assert_eq!(
        FsDelete.call(DeleteParams { path: s("/a") }),
        single(LocalTool::FsDelete, "/a", Action::RemoveFile { path: s("/a") })
    );
    assert_eq!(
        FsRename.call(RenameParams { old_path: s("/a"), new_path: s("/b") }),
        single(LocalTool::FsRename, "/a", Action::Rename { from: s("/a"), to: s("/b") })
    );
    assert_eq!(
        FsMove.call(MoveParams { source_path: s("/a"), destination_path: s("/b") }),
        single(LocalTool::FsMove, "/a", Action::Rename { from: s("/a"), to: s("/b") })
    );
    assert_eq!(
        FsCopy.call(CopyParams { source_path: s("/a"), destination_path: s("/b") }),
        single(LocalTool::FsCopy, "/a", Action::Copy { from: s("/a"), to: s("/b") })
    );
    assert_eq!(
        FsListDirectory.call(ListDirectoryParams { path: s("/d") }),
        single(LocalTool::FsListDirectory, "/d", Action::ReadDir { path: s("/d") })
    );
    assert_eq!(
        FsGetFileInfo.call(GetFileInfoParams { path: s("/a") }),
        single(LocalTool::FsGetFileInfo, "/a", Action::Metadata { path: s("/a") })
    );
    assert_eq!(
        FsSetPermissions.call(SetFilePermissionsParams { path: s("/a"), permissions: 0o400 }),
        single(
            LocalTool::FsSetPermissions,
            "/a",
            Action::SetPermissions { path: s("/a"), mode: 0o400 }
        )
    );
    assert_eq!(
        FsChangeOwnership.call(ChangeOwnershipParams { path: s("/a"), user_id: 10, group_id: 20 }),
        single(
            LocalTool::FsChangeOwnership,
            "/a",
            Action::Chown { path: s("/a"), user_id: 10, group_id: 20 }
        )
    );
}

#[test]
fn remove_directory_goes_by_the_flag() {
    assert_eq!(
        FsRemoveDirectory.call(RemoveDirectoryParams { path: s("/d"), recursive: true }),
        single(LocalTool::FsRemoveDirectory, "/d", Action::RemoveDirAll { path: s("/d") })
    );
    assert_eq!(
        FsRemoveDirectory.call(RemoveDirectoryParams { path: s("/d"), recursive: false }),
        single(LocalTool::FsRemoveDirectory, "/d", Action::RemoveDir { path: s("/d") })
    );
}

#[test]
fn tools_without_report_end_empty() {
    for tool in [
        LocalTool::FsWrite,
        LocalTool::FsCreate,
        LocalTool::FsDelete,
        LocalTool::FsRename,
        LocalTool::FsMove,
        LocalTool::FsCopy,
        LocalTool::FsMakeDirectory,
        LocalTool::FsRemoveDirectory,
        LocalTool::FsSetPermissions,
        LocalTool::FsChangeOwnership,
    ] {
        assert_eq!(ToolRun::conclude(tool, "/a", Outcome::Done), Ok(vec![]));
        assert_eq!(
            ToolRun::conclude(tool, "/a", Outcome::Bytes(vec![1])),
            Err(ToolError::ExecutionError(s("the operation reported an outcome of another kind")))
        );
    }
}

#[test]
fn every_tool_passes_the_native_error_text_on() {
    for tool in [LocalTool::Process, LocalTool::FsRead, LocalTool::FsCopy, LocalTool::FsGetFileInfo] {
        assert_eq!(
            ToolRun::conclude(tool, "/a", Outcome::Failed(s("Is a directory (os error 21)"))),
            Err(ToolError::ExecutionError(s("Is a directory (os error 21)")))
        );
    }
}

#[test]
fn change_ownership_without_platform_support_is_a_validation_error() {
    let run = match FsChangeOwnership.call(ChangeOwnershipParams {
        path: s("/a"),
        user_id: 1,
        group_id: 1,
    }) {
        Step::Perform(_, run) => run,
        other => panic!("unexpected step: {:?}", other),
    };
    assert_eq!(
        run.resume(Outcome::Unsupported),
        Step::Finished(Err(ToolError::ValidationError(s(
            "Changing ownership is only supported on Unix systems"
        ))))
    );
    assert_eq!(
        ToolRun::conclude(LocalTool::FsCopy, "/a", Outcome::Unsupported),
        Err(ToolError::ValidationError(s("This operation is not supported on this system")))
    );
}

#[test]
fn read_decodes_the_bytes() {
    assert_eq!(FsRead.finish(&b"hello".to_vec()), vec![Content::text(s("hello"))]);
    assert_eq!(FsRead.finish(&vec![]), vec![Content::text(s(""))]);
    assert_eq!(
        FsRead.finish(&"gr\u{fc}n \u{1F600}".as_bytes().to_vec()),
        vec![Content::text(s("gr\u{fc}n \u{1F600}"))]
    );
}

#[test]
fn read_replaces_malformed_bytes() {
    assert_eq!(FsRead.finish(&vec![b'a', 0xff, b'b']), vec![Content::text(s("a\u{fffd}b"))]);
    assert_eq!(
        texts(ToolRun::conclude(LocalTool::FsRead, "/a", Outcome::Bytes(vec![0xc3]))),
        vec![s("\u{fffd}")]
    );
}

#[test]
fn what_was_written_is_read() {
    let data = "line one\nline two \u{2713}\n";
    let stored = match FsWrite.call(WriteParams { path: s("/a"), offset: 0, data: s(data) }) {
        Step::Perform(Action::WriteFile { offset, data, .. }, run) => {
            assert_eq!(offset, 0);
            assert_eq!(run.resume(Outcome::Done), Step::Finished(Ok(vec![])));
            data.into_bytes()
        }
        other => panic!("unexpected step: {:?}", other),
    };
    let run = match FsRead.call(ReadParams {
        path: s("/a"),
        offset: Some(0),
        length: Some(stored.len() as u32 + 10),
    }) {
        Step::Perform(Action::ReadFile { .. }, run) => run,
        other => panic!("unexpected step: {:?}", other),
    };
    assert_eq!(texts(match run.resume(Outcome::Bytes(stored)) {
        Step::Finished(result) => result,
        other => panic!("unexpected step: {:?}", other),
    }), vec![s(data)]);
}

#[test]
fn list_directory_reports_each_entry_in_order() {
    let entries = vec![s("/d/b"), s("/d/a"), s("/d/\u{e9}")];
    assert_eq!(
        FsListDirectory.finish(&entries),
        vec![Content::text(s("/d/b")), Content::text(s("/d/a")), Content::text(s("/d/\u{e9}"))]
    );
    assert_eq!(FsListDirectory.finish(&vec![]), vec![]);
    assert_eq!(
        texts(ToolRun::conclude(LocalTool::FsListDirectory, "/d", Outcome::Entries(entries))),
        vec![s("/d/b"), s("/d/a"), s("/d/\u{e9}")]
    );
}

#[test]
fn file_info_is_reported_as_json() {
    let info = FileInfo {
        size: 3,
        modified: Some(1700000000),
        is_dir: false,
        is_file: true,
        permissions: 0o100644,
    };
    let report = FsGetFileInfo.finish("/tmp/\"x\"", info);
    assert_eq!(report.len(), 1);
    let value: serde_json::Value = serde_json::from_str(&report[0].text).unwrap();
    let object = value.as_object().unwrap();
    assert_eq!(object.len(), 6);
    assert_eq!(object.get("path").unwrap().as_str(), Some("/tmp/\"x\""));
    assert_eq!(object.get("size").unwrap().as_u64(), Some(3));
    assert_eq!(object.get("modified").unwrap().as_u64(), Some(1700000000));
    assert_eq!(object.get("is_dir").unwrap().as_bool(), Some(false));
    assert_eq!(object.get("is_file").unwrap().as_bool(), Some(true));
    assert_eq!(object.get("permissions").unwrap().as_u64(), Some(0o100644));
}

#[test]
fn file_info_without_a_time_reports_null() {
    let info = FileInfo { size: 0, modified: None, is_dir: true, is_file: false, permissions: 0 };
    let text = texts(ToolRun::conclude(LocalTool::FsGetFileInfo, "/d", Outcome::Info(info)));
    let value: serde_json::Value = serde_json::from_str(&text[0]).unwrap();
    assert!(value.get("modified").unwrap().is_null());
    assert_eq!(value.get("path").unwrap().as_str(), Some("/d"));
    assert_eq!(value.get("is_dir").unwrap().as_bool(), Some(true));
}

#[test]
fn process_asks_for_the_command_as_given() {
    let mut envs = EnvMap::new();
    envs.insert(s("A"), s("1"));
    let params = ProcessCallParam { command: s("echo"), args: vec![s("a b"), s("; rm")], envs };
    let mut same = EnvMap::new();
    same.insert(s("A"), s("1"));
    assert_eq!(
        (Process {}).call(params),
        single(
            LocalTool::Process,
            "echo",
            Action::Spawn { command: s("echo"), args: vec![s("a b"), s("; rm")], envs: same }
        )
    );
}

#[test]
fn process_reports_status_stdout_stderr() {
    let output = ProcessCallOutput { status: Some(0), std_out: s("out"), std_err: s("err") };
    assert_eq!(
        (Process {}).finish(output),
        vec![Content::text(s("0")), Content::text(s("out")), Content::text(s("err"))]
    );
    let output = ProcessCallOutput { status: Some(-15), std_out: s(""), std_err: s("killed") };
    assert_eq!(
        texts(ToolRun::conclude(LocalTool::Process, "x", Outcome::Exited(output))),
        vec![s("-15"), s(""), s("killed")]
    );
}

#[test]
fn process_without_status_reports_an_empty_first_item() {
    let output = ProcessCallOutput { status: None, std_out: s("o"), std_err: s("e") };
    let report = (Process {}).finish(output);
    assert_eq!(report.len(), 3);
    assert_eq!(report[0].as_text(), "");
    assert_eq!(report[1].as_text(), "o");
    assert_eq!(report[2].as_text(), "e");
}

#[test]
fn process_output_is_decoded_lossily() {
    let output = ProcessCallOutput::from_std(Some(2), &b"ok\n".to_vec(), &vec![0xff, b'!']);
    assert_eq!(
        output,
        ProcessCallOutput { status: Some(2), std_out: s("ok\n"), std_err: s("\u{fffd}!") }
    );
}

#[test]
fn process_that_cannot_be_spawned_is_an_execution_error() {
    let params = ProcessCallParam { command: s("/no/such"), args: vec![], envs: EnvMap::new() };
    let run = match (Process {}).call(params) {
        Step::Perform(_, run) => run,
        other => panic!("unexpected step: {:?}", other),
    };
    assert_eq!(
        run.resume(Outcome::Failed(s("No such file or directory (os error 2)"))),
        Step::Finished(Err(ToolError::ExecutionError(s("No such file or directory (os error 2)"))))
    );
}

#[test]
fn start_matches_tool_and_parameters() {
    let params = ToolParams::Delete(DeleteParams { path: s("/a") });
    assert_eq!(params.tool(), Some(LocalTool::FsDelete));
    assert_eq!(ToolParams::Forwarded.tool(), None);
    assert_eq!(
        LocalTool::FsDelete.start(params),
        single(LocalTool::FsDelete, "/a", Action::RemoveFile { path: s("/a") })
    );
    let params = ToolParams::Delete(DeleteParams { path: s("/a") });
    assert_eq!(
        LocalTool::FsRead.start(params),
        Step::Finished(Err(ToolError::InvalidParameters(s("the parameters belong to another tool"))))
    );
}

#[test]
fn unexpected_outcome_before_the_last_operation_ends_the_call() {
    let run = match FsCreate.call(CreateParams { path: s("/a"), permissions: 0 }) {
        Step::Perform(_, run) => run,
        other => panic!("unexpected step: {:?}", other),
    };
    assert_eq!(
        run.resume(Outcome::Entries(vec![])),
        Step::Finished(Err(ToolError::ExecutionError(s(
            "the operation reported an outcome of another kind"
        ))))
    );
}
