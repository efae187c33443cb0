use llmidium::content::ToolError;
use llmidium::run::LocalTool;
use llmidium::run::Step;
use llmidium::run::ToolParams;
use llmidium::system::fs::DeleteParams;
use llmidium::toolset::BrokeredTool;
use llmidium::toolset::InputSchema;
use llmidium::toolset::ToolHandler;
use llmidium::toolset::ToolSet;

fn remote(session: u64, name: &str, description: &str) -> ToolHandler {
    ToolHandler::Brokered(BrokeredTool {
        session,
        name: name.to_string(),
        description: description.to_string(),
        schema: "{\"type\":\"object\"}".to_string(),
    })
}

fn names(set: &ToolSet) -> Vec<String> {
    set.list_all().into_iter().map(|d| d.name).collect()
}

#[test]
fn empty_registry_lists_nothing() {
    let set = ToolSet::new();
    assert_eq!(set.len(), 0);
    assert!(set.list_all().is_empty());
    assert_eq!(set.position("fs.read"), 0);
    assert_eq!(set.get("fs.read"), None);
}

#[test]
fn registration_appends_in_order() {
    let mut set = ToolSet::new();
    assert!(set.add_tool(ToolHandler::Local(LocalTool::FsRead)));
    assert!(set.add_tool(remote(1, "a", "first")));
    assert!(set.add_tool(ToolHandler::Local(LocalTool::Process)));
    assert_eq!(names(&set), vec!["fs.read", "a", "process"]);
    assert_eq!(set.position("a"), 1);
    assert_eq!(set.position("missing"), 3);
}

#[test]
fn second_registration_replaces_in_place() {
    let mut set = ToolSet::new();
    set.add_tool(remote(1, "a", "first"));
    set.add_tool(remote(1, "b", "other"));
    assert!(!set.add_tool(remote(2, "a", "second")));
    assert_eq!(set.len(), 2);
    let list = set.list_all();
    assert_eq!(list[0].name, "a");
    assert_eq!(list[0].description, "second");
    assert_eq!(list[1].name, "b");
    assert_eq!(list.iter().filter(|d| d.name == "a").count(), 1);
    assert_eq!(
        set.call("a", ToolParams::Forwarded),
        Step::Forward { session: 2, tool: "a".to_string() }
    );
}

#[test]
fn remote_tool_may_take_the_name_of_a_local_one() {
    let mut set = llmidium::system::fs::toolset();
    assert!(!set.add_tool(remote(9, "fs.read", "remote read")));
    assert_eq!(set.len(), 13);
    let list = set.list_all();
    assert_eq!(list[0].name, "fs.read");
    assert_eq!(list[0].description, "remote read");
    assert_eq!(list[0].input_schema, InputSchema::Json("{\"type\":\"object\"}".to_string()));
    assert_eq!(list[1].name, "fs.write");
}

#[test]
fn extend_applies_the_rule_to_each_entry() {
    let mut set = ToolSet::new();
    set.add_tool(remote(1, "a", "old a"));
    set.add_tool(remote(1, "b", "old b"));
    let mut more = ToolSet::new();
    more.add_tool(remote(2, "c", "new c"));
    more.add_tool(remote(2, "a", "new a"));
    set.extend(more);
    let list = set.list_all();
    let seen: Vec<(&str, &str)> =
        list.iter().map(|d| (d.name.as_str(), d.description.as_str())).collect();
    assert_eq!(seen, vec![("a", "new a"), ("b", "old b"), ("c", "new c")]);
}

#[test]
fn extend_by_nothing_changes_nothing() {
    let mut set = llmidium::system::fs::toolset();
    set.extend(ToolSet::new());
    assert_eq!(set, llmidium::system::fs::toolset());
}

#[test]
fn fs_toolset_has_thirteen_tools() {
    let set = llmidium::system::fs::toolset();
    assert_eq!(set.len(), 13);
    assert_eq!(set.get("fs.move"), Some(&ToolHandler::Local(LocalTool::FsMove)));
    assert_eq!(set.get("process"), None);
}

#[test]
fn call_by_unknown_name_is_not_found() {
    let set = llmidium::system::fs::toolset();
    let params = ToolParams::Delete(DeleteParams { path: "/x".to_string() });
    assert_eq!(
        set.call("fs.erase", params),
        Step::Finished(Err(ToolError::NotFound("fs.erase".to_string())))
    );
}

#[test]
fn call_with_parameters_of_another_tool_is_refused() {
    let set = llmidium::system::fs::toolset();
    let params = ToolParams::Delete(DeleteParams { path: "/x".to_string() });
    assert_eq!(
        set.call("fs.read", params),
        Step::Finished(Err(ToolError::InvalidParameters(
            "the parameters belong to another tool".to_string()
        )))
    );
    assert_eq!(
        set.call("fs.read", ToolParams::Forwarded),
        Step::Finished(Err(ToolError::InvalidParameters(
            "the parameters belong to another tool".to_string()
        )))
    );
}

#[test]
fn handler_names_and_descriptors() {
    let local = ToolHandler::Local(LocalTool::FsGetFileInfo);
    assert_eq!(local.name(), "fs.get_file_info");
    assert!(local.is_named("fs.get_file_info"));
    assert!(!local.is_named("fs.get_file_inf"));
    let d = local.descriptor();
    assert_eq!(d.description, "Get metadata information about a file.");
    assert_eq!(d.input_schema, InputSchema::Of(LocalTool::FsGetFileInfo));
    let r = remote(4, "x", "y");
    assert_eq!(r.name(), "x");
    assert_eq!(r.descriptor().description, "y");
}

#[test]
fn error_messages() {
    assert_eq!(ToolError::NotFound("t".to_string()).message(), "Tool not found: t");
    assert_eq!(ToolError::ExecutionError("e".to_string()).message(), "Execution failed: e");
    assert_eq!(ToolError::ValidationError("v".to_string()).message(), "Validation failed: v");
    assert_eq!(ToolError::InvalidParameters("p".to_string()).message(), "Invalid parameters: p");
}
