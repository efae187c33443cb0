use llmidium::content::PromptError;
use llmidium::content::ResourceError;
use llmidium::content::ToolError;
use llmidium::run::LocalTool;
use llmidium::run::Step;
use llmidium::run::ToolParams;
use llmidium::system::Backend;
use llmidium::system::ResourcesCapability;
use llmidium::system::SystemRouter;
use llmidium::system::ToolsCapability;
use llmidium::system::PromptsCapability;
use llmidium::system::fs::ReadParams;
use llmidium::toolset::BrokeredTool;
use llmidium::toolset::InputSchema;
use llmidium::toolset::ToolHandler;
use llmidium::toolset::ToolSet;

#[test]
fn unknown_tool_is_not_found() {
    let router = SystemRouter::enable_all();
    match router.call_tool("nonexistent", ToolParams::Forwarded) {
        Step::Finished(Err(ToolError::NotFound(name))) => assert_eq!(name, "nonexistent"),
        other => panic!("unexpected step: {:?}", other),
    }
}

#[test]
fn unknown_tool_is_not_found_whatever_the_parameters() {
    let router = SystemRouter::enable_all();
    let params = ToolParams::Read(ReadParams { path: "/x".to_string(), offset: None, length: None });
    assert_eq!(
        router.call_tool("fs.nothing", params),
        Step::Finished(Err(ToolError::NotFound("fs.nothing".to_string())))
    );
    assert_eq!(
        router.call_tool("", ToolParams::Forwarded),
        Step::Finished(Err(ToolError::NotFound(String::new())))
    );
}

#[test]
fn every_local_tool_is_listed_once() {
    let router = SystemRouter::enable_all();
    let list = router.list_tools();
    let names: Vec<&str> = list.iter().map(|d| d.name.as_str()).collect();
    assert_eq!(
        names,
        vec![
            "process",
            "fs.read",
            "fs.write",
            "fs.create",
            "fs.delete",
            "fs.rename",
            "fs.move",
            "fs.copy",
            "fs.list_directory",
            "fs.make_directory",
            "fs.remove_directory",
            "fs.get_file_info",
            "fs.set_permissions",
            "fs.change_ownership",
        ]
    );
    for i in 0..list.len() {
        for j in 0..i {
            assert_ne!(list[i].name, list[j].name);
        }
    }
}

#[test]
fn descriptors_carry_description_and_schema() {
    let router = SystemRouter::enable_all();
    let list = router.list_tools();
    assert_eq!(
        list[0].description,
        "execute a process, output[0]: status code, output[1]: stdout, output[2]: stderr"
    );
    assert_eq!(list[0].input_schema, InputSchema::Of(LocalTool::Process));
    assert_eq!(list[1].description, "Read data from a file.");
    assert_eq!(list[1].input_schema, InputSchema::Of(LocalTool::FsRead));
    assert_eq!(list[13].description, "Change file ownership (Unix only).");
}

#[test]
fn capabilities_are_fixed() {
    let caps = SystemRouter::enable_all().capabilities();
    assert_eq!(caps.tools, Some(ToolsCapability { list_changed: true }));
    assert_eq!(caps.resources, Some(ResourcesCapability { subscribe: true, list_changed: true }));
    assert_eq!(caps.prompts, Some(PromptsCapability { list_changed: true }));
}

#[test]
fn capabilities_do_not_depend_on_the_tools() {
    let mut tools = ToolSet::new();
    tools.add_tool(ToolHandler::Brokered(BrokeredTool {
        session: 7,
        name: "remote.echo".to_string(),
        description: "Echo".to_string(),
        schema: "{}".to_string(),
    }));
    let router = SystemRouter::with_tools(tools);
    assert_eq!(router.capabilities(), SystemRouter::enable_all().capabilities());
    assert_eq!(router.list_tools().len(), 1);
}

#[test]
fn name_and_instructions() {
    let router = SystemRouter::enable_all();
    assert_eq!(router.name(), "llmidium");
    assert!(router.instructions().contains("llmidium"));
}

#[test]
fn resource_in_the_file_namespace_is_routed() {
    let router = SystemRouter::enable_all();
    let read = router.read_resource("file:///etc/hostname").unwrap();
    assert_eq!(read.backend, Backend::FileSystem);
    assert_eq!(read.path, "/etc/hostname");
    let read = router.read_resource("file://").unwrap();
    assert_eq!(read.path, "");
}

#[test]
fn resource_outside_every_namespace_is_not_found() {
    let router = SystemRouter::enable_all();
    for uri in ["http://example.com/", "", "file:/", "file:/x", "FILE://x", " file://x", "mem://a"] {
        assert_eq!(
            router.read_resource(uri),
            Err(ResourceError::NotFound("no such resource".to_string())),
            "uri {:?}",
            uri
        );
    }
}

#[test]
fn resource_with_wide_characters_is_cut_by_characters() {
    let router = SystemRouter::enable_all();
    let read = router.read_resource("file://\u{e9}t\u{e9}/\u{1F600}").unwrap();
    assert_eq!(read.path, "\u{e9}t\u{e9}/\u{1F600}");
}

#[test]
fn routed_read_passes_text_and_wraps_failure() {
    let router = SystemRouter::enable_all();
    let read = router.read_resource("file:///a").unwrap();
    assert_eq!(read.finish(Ok("hello".to_string())), Ok("hello".to_string()));
    let read = router.read_resource("file:///a").unwrap();
    assert_eq!(
        read.finish(Err("No such file or directory (os error 2)".to_string())),
        Err(ResourceError::ExecutionError("No such file or directory (os error 2)".to_string()))
    );
}

#[test]
fn resource_list_names_the_namespace() {
    let router = SystemRouter::enable_all();
    let list = router.list_resources();
    assert_eq!(list.len(), 1);
    assert_eq!(list[0].name, "file://");
    assert_eq!(list[0].backend, Backend::FileSystem);
    assert_eq!(list[0].mime_type, "text");
}

#[test]
fn prompt_lookup() {
    let router = SystemRouter::enable_all();
    let text = router.get_prompt("llmidium").unwrap();
    assert!(text.starts_with("You operate a machine"));
    assert_eq!(Some(text), llmidium::system::prompt::get("llmidium"));
    assert_eq!(
        router.get_prompt("other"),
        Err(PromptError::NotFound("other not found".to_string()))
    );
    assert_eq!(router.get_prompt(""), Err(PromptError::NotFound(" not found".to_string())));
    assert_eq!(llmidium::system::prompt::get("Llmidium"), None);
}

#[test]
fn prompt_list_has_the_one_prompt() {
    let router = SystemRouter::enable_all();
    let list = router.list_prompts();
    assert_eq!(list.len(), 1);
    assert_eq!(list[0].name, "llmidium");
    assert!(list[0].description.is_some());
    assert_eq!(llmidium::system::prompt::prompts(), *list);
}

#[test]
fn find_tool_tells_local_from_remote() {
    let mut tools = llmidium::system::fs::toolset();
    tools.add_tool(ToolHandler::Brokered(BrokeredTool {
        session: 3,
        name: "remote.echo".to_string(),
        description: "Echo".to_string(),
        schema: "{}".to_string(),
    }));
    let router = SystemRouter::with_tools(tools);
    assert_eq!(router.find_tool("fs.copy"), Some(&ToolHandler::Local(LocalTool::FsCopy)));
    assert!(matches!(router.find_tool("remote.echo"), Some(ToolHandler::Brokered(_))));
    assert_eq!(router.find_tool("process"), None);
    assert_eq!(
        router.call_tool("remote.echo", ToolParams::Forwarded),
        Step::Forward { session: 3, tool: "remote.echo".to_string() }
    );
}
