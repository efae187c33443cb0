//! The tools, resources and prompts that the server offers, and the router
//! that answers for them.

use crate::content::PromptError;
use crate::content::PromptErrorView;
use crate::content::ResourceError;
use crate::content::ResourceErrorView;
use crate::run::LocalTool;
use crate::run::Step;
use crate::run::ToolParams;
use crate::system::prompt::Prompt;
use crate::system::prompt::PromptView;
use crate::system::prompt::own_prompts;
use crate::system::prompt::prompt_views;
use crate::text::has_prefix;
use crate::text::strip_prefix;
use crate::toolset::ToolDescriptor;
use crate::toolset::ToolHandler;
use crate::toolset::ToolSet;
use crate::toolset::merged;
use crate::toolset::spec_call;
use vstd::prelude::*;

pub mod fs;
pub mod process;
pub mod prompt;

verus! {

/// Whether an endpoint tells its peer when the list of tools changes.
#[derive(Debug, Clone, Copy, PartialEq, Eq, Structural)]
pub struct ToolsCapability {
    pub list_changed: bool,
}

/// Whether an endpoint lets its peer subscribe to resources, and whether it
/// tells when the list of resources changes.
#[derive(Debug, Clone, Copy, PartialEq, Eq, Structural)]
pub struct ResourcesCapability {
    pub subscribe: bool,
    pub list_changed: bool,
}

/// Whether an endpoint tells its peer when the list of prompts changes.
#[derive(Debug, Clone, Copy, PartialEq, Eq, Structural)]
pub struct PromptsCapability {
    pub list_changed: bool,
}

/// What an endpoint says it supports. Each side declares its own; nothing is
/// negotiated.
#[derive(Debug, Clone, Copy, PartialEq, Eq, Structural)]
pub struct CapabilitySet {
    pub tools: Option<ToolsCapability>,
    pub resources: Option<ResourcesCapability>,
    pub prompts: Option<PromptsCapability>,
}

/// Who reads the resources of a namespace.
#[derive(Debug, Clone, Copy, PartialEq, Eq, Structural)]
pub enum Backend {
    /// The rest of the identifier is a path in the local file system.
    FileSystem,
}

/// What a caller is told of a kind of resource. The name is the namespace
/// prefix: identifiers that begin with it are read by the backend.
#[derive(Debug, PartialEq, Eq)]
pub struct Resource {
    pub name: String,
    pub description: String,
    pub mime_type: String,
    pub backend: Backend,
}

/// The mathematical value of a [`Resource`].
pub ghost struct ResourceView {
    pub name: Seq<char>,
    pub description: Seq<char>,
    pub mime_type: Seq<char>,
    pub backend: Backend,
}

impl View for Resource {
    type V = ResourceView;

    open spec fn view(&self) -> ResourceView {
        ResourceView {
            name: self.name@,
            description: self.description@,
            mime_type: self.mime_type@,
            backend: self.backend,
        }
    }
}

/// A read that the router has routed: the backend that is to perform it, and
/// the part of the identifier that follows the namespace prefix.
#[derive(Debug, PartialEq, Eq)]
pub struct ResourceRead {
    pub backend: Backend,
    pub path: String,
}

/// The server's advertisement: change notifications for tools, resources
/// and prompts, and subscription to resources.
pub open spec fn own_capabilities() -> CapabilitySet {
    CapabilitySet {
        tools: Some(ToolsCapability { list_changed: true }),
        resources: Some(ResourcesCapability { subscribe: true, list_changed: true }),
        prompts: Some(PromptsCapability { list_changed: true }),
    }
}

/// The namespace prefix of the file system resources.
pub open spec fn fs_prefix() -> Seq<char> {
    "file://"@
}

/// The resources that the server offers: the files of the local file system.
pub open spec fn fs_resources() -> Seq<ResourceView> {
    seq![
        ResourceView {
            name: fs_prefix(),
            description: "Files of the local file system, by path."@,
            mime_type: "text"@,
            backend: Backend::FileSystem,
        },
    ]
}

/// The views of a sequence of resources.
pub open spec fn resource_views(resources: Seq<Resource>) -> Seq<ResourceView> {
    Seq::new(resources.len(), |i: int| resources[i]@)
}

/// The resources that the server offers.
pub fn resource_set() -> (list: Vec<Resource>)
    ensures
        resource_views(list@) == fs_resources(),
{
    let mut list: Vec<Resource> = Vec::new();
    list.push(
        Resource {
            name: String::from_str("file://"),
            description: String::from_str("Files of the local file system, by path."),
            mime_type: String::from_str("text"),
            backend: Backend::FileSystem,
        },
    );
    assert(resource_views(list@) =~= fs_resources());
    list
}

/// Whether `uri` lies in no namespace of `resources`.
pub open spec fn unrouted(resources: Seq<ResourceView>, uri: Seq<char>) -> bool {
    forall|j: int| 0 <= j < resources.len() ==> !has_prefix(uri, #[trigger] resources[j].name)
}

/// Whether the namespace at index `k` is the first that `uri` lies in.
pub open spec fn routes_to(resources: Seq<ResourceView>, uri: Seq<char>, k: int) -> bool {
    &&& 0 <= k < resources.len()
    &&& has_prefix(uri, resources[k].name)
    &&& forall|j: int| 0 <= j < k ==> !has_prefix(uri, #[trigger] resources[j].name)
}

/// The text of the error for an identifier that lies in no namespace.
pub open spec fn no_such_resource() -> Seq<char> {
    "no such resource"@
}

/// The tools that a server with everything enabled offers: the process tool,
/// then the file system tools.
pub open spec fn all_tools() -> Seq<ToolHandler> {
    seq![ToolHandler::Local(LocalTool::Process)] + fs::fs_tools()
}

/// A registry that holds every local tool: the process tool, then the file
/// system tools.
pub fn local_toolset() -> (tool_set: ToolSet)
    ensures
        tool_set.wf(),
        tool_set@ == all_tools(),
{
    let mut tool_set = ToolSet::new();
    tool_set.add_tool(ToolHandler::Local(LocalTool::Process));
    let ghost first = tool_set@;
    assert(first =~= seq![ToolHandler::Local(LocalTool::Process)]);
    let more = fs::toolset();
    tool_set.extend(more);
    proof {
        fs::lemma_all_names_differ();
        assert(first + fs::fs_tools() =~= all_tools());
        lemma_merged_fresh(first, fs::fs_tools());
    }
    tool_set
}

/// The router: one tool registry, the resource list and the prompt list.
/// It answers discovery and invocation alike for local and remote tools.
#[derive(Debug, PartialEq, Eq)]
pub struct SystemRouter {
    tool_set: ToolSet,
    resource: Vec<Resource>,
    prompt: Vec<Prompt>,
}

impl SystemRouter {
    /// The tool registry.
    pub closed spec fn tools(&self) -> Seq<ToolHandler> {
        self.tool_set@
    }

    /// The resource list.
    pub closed spec fn resources(&self) -> Seq<ResourceView> {
        resource_views(self.resource@)
    }

    /// The prompt list.
    pub closed spec fn prompt_list(&self) -> Seq<PromptView> {
        prompt_views(self.prompt@)
    }

    /// The type's invariant: no two tools share a name. Every router that
    /// this module hands out is well formed.
    pub open spec fn wf(&self) -> bool {
        crate::toolset::names_of(self.tools()).no_duplicates()
    }

    /// A router over the given registry, with the server's own resources and
    /// prompts.
    pub fn with_tools(tool_set: ToolSet) -> (router: SystemRouter)
        requires
            tool_set.wf(),
        ensures
            router.wf(),
            router.tools() == tool_set@,
            router.resources() == fs_resources(),
            router.prompt_list() == own_prompts(),
    {
        SystemRouter { tool_set, resource: resource_set(), prompt: prompt::prompts() }
    }

    /// A router with every local tool enabled: the process tool, then the
    /// file system tools.
    pub fn enable_all() -> (router: SystemRouter)
        ensures
            router.wf(),
            router.tools() == all_tools(),
            router.resources() == fs_resources(),
            router.prompt_list() == own_prompts(),
    {
        SystemRouter::with_tools(local_toolset())
    }

    /// The server's name.
    pub fn name(&self) -> (name: String)
        ensures
            name@ == "llmidium"@,
    {
        String::from_str("llmidium")
    }

    /// What a caller should know before using the server.
    pub fn instructions(&self) -> (text: String)
        ensures
            text@
                == "This server runs commands and works on files of the machine it runs on. List the tools to see what it offers, and read the prompt `llmidium` before the first call."@,
    {
        String::from_str(
            "This server runs commands and works on files of the machine it runs on. List the tools to see what it offers, and read the prompt `llmidium` before the first call.",
        )
    }

    /// What this server supports. The advertisement is fixed: it does not
    /// depend on the tools that are registered, nor on what any remote
    /// session declared.
    pub fn capabilities(&self) -> (set: CapabilitySet)
        ensures
            set == own_capabilities(),
    {
        CapabilitySet {
            tools: Some(ToolsCapability { list_changed: true }),
            resources: Some(ResourcesCapability { subscribe: true, list_changed: true }),
            prompts: Some(PromptsCapability { list_changed: true }),
        }
    }

    /// The descriptors of the registered tools, in listing order: one for
    /// each tool, and no two under one name.
    pub fn list_tools(&self) -> (list: Vec<ToolDescriptor>)
        requires
            self.wf(),
        ensures
            list@.len() == self.tools().len(),
            forall|i: int|
                0 <= i < list@.len() ==> (#[trigger] list@[i])@ == self.tools()[i].spec_descriptor(),
            forall|i: int, j: int|
                0 <= i < j < list@.len() ==> (#[trigger] list@[i]).name@ != (#[trigger] list@[j]).name@,
    {
        self.tool_set.list_all()
    }

    /// Begins a call of the tool named `tool_name`, as the registry does.
    pub fn call_tool(&self, tool_name: &str, arguments: ToolParams) -> (step: Step)
        requires
            self.wf(),
        ensures
            step@ == spec_call(self.tools(), tool_name@, arguments),
            !crate::toolset::names_of(self.tools()).contains(tool_name@) ==> step@
                == crate::run::StepView::Finished(
                Err(crate::content::ToolErrorView::NotFound(tool_name@)),
            ),
    {
        self.tool_set.call(tool_name, arguments)
    }

    /// The handler registered under `tool_name`, if there is one.
    pub fn find_tool(&self, tool_name: &str) -> (handler: Option<&ToolHandler>)
        requires
            self.wf(),
        ensures
            handler.is_some() == crate::toolset::names_of(self.tools()).contains(tool_name@),
            handler.is_some() ==> *handler.unwrap() == self.tools()[crate::toolset::names_of(
                self.tools(),
            ).index_of(tool_name@)],
    {
        self.tool_set.get(tool_name)
    }

    /// The resource list.
    pub fn list_resources(&self) -> (list: &Vec<Resource>)
        ensures
            resource_views(list@) == self.resources(),
    {
        &self.resource
    }

    /// Routes a read.
    ///
    /// The identifier is held against the namespace prefixes in listing
    /// order. The first namespace it lies in gets the read, with the rest of
    /// the identifier as the path. An identifier that lies in none is
    /// answered with `NotFound`.
    pub fn read_resource(&self, uri: &str) -> (read: Result<ResourceRead, ResourceError>)
        ensures
            unrouted(self.resources(), uri@) ==> read.is_err() && read.unwrap_err()@
                == ResourceErrorView::NotFound(no_such_resource()),
            forall|k: int| #[trigger]
                routes_to(self.resources(), uri@, k) ==> read.is_ok() && read.unwrap().backend
                    == self.resources()[k].backend && read.unwrap().path@ == uri@.subrange(
                    self.resources()[k].name.len() as int,
                    uri@.len() as int,
                ),
    {
        let mut i: usize = 0;
        while i < self.resource.len()
            invariant
                i <= self.resource.len(),
                forall|j: int| 0 <= j < i ==> !has_prefix(uri@, #[trigger] self.resources()[j].name),
            decreases self.resource.len() - i,
        {
            assert(self.resources()[i as int].name == self.resource@[i as int].name@);
            assert(self.resources()[i as int].backend == self.resource@[i as int].backend);
            match strip_prefix(uri, self.resource[i].name.as_str()) {
                Some(path) => {
                    assert(has_prefix(uri@, self.resources()[i as int].name));
                    return Ok(ResourceRead { backend: self.resource[i].backend, path });
                },
                None => {},
            }
            i += 1;
        }
        Err(ResourceError::NotFound(String::from_str("no such resource")))
    }

    /// The prompt list.
    pub fn list_prompts(&self) -> (list: &Vec<Prompt>)
        ensures
            prompt_views(list@) == self.prompt_list(),
    {
        &self.prompt
    }

    /// The text of the prompt named `prompt_name`, or `NotFound` with the
    /// name and the words ` not found`.
    pub fn get_prompt(&self, prompt_name: &str) -> (text: Result<String, PromptError>)
        ensures
            prompt_name@ == prompt::prompt_name() ==> text.is_ok() && text.unwrap()@
                == prompt::prompt_text(),
            prompt_name@ != prompt::prompt_name() ==> text.is_err() && text.unwrap_err()@
                == PromptErrorView::NotFound(prompt_name@ + " not found"@),
    {
        match prompt::get(prompt_name) {
            Some(text) => Ok(text),
            None => Err(
                PromptError::NotFound(String::from_str(prompt_name).concat(" not found")),
            ),
        }
    }
}

impl ResourceRead {
    /// Ends a routed read: the text that the backend read, or its error text
    /// as an `ExecutionError`.
    pub fn finish(self, outcome: Result<String, String>) -> (text: Result<String, ResourceError>)
        ensures
            outcome.is_ok() ==> text.is_ok() && text.unwrap()@ == outcome.unwrap()@,
            outcome.is_err() ==> text.is_err() && text.unwrap_err()@
                == ResourceErrorView::ExecutionError(outcome.unwrap_err()@),
    {
        match outcome {
            Ok(text) => Ok(text),
            Err(cause) => Err(ResourceError::ExecutionError(cause)),
        }
    }
}

/// Registering handlers whose names are new and differ from one another adds
/// them at the end, in order.
pub proof fn lemma_merged_fresh(handlers: Seq<ToolHandler>, more: Seq<ToolHandler>)
    requires
        crate::toolset::names_of(handlers + more).no_duplicates(),
    ensures
        merged(handlers, more) == handlers + more,
    decreases more.len(),
{
    if more.len() == 0 {
        assert(handlers + more =~= handlers);
    } else {
        let names = crate::toolset::names_of(handlers);
        let all = crate::toolset::names_of(handlers + more);
        let head = more[0];
        if names.contains(head.spec_name()) {
            let k = names.index_of(head.spec_name());
            assert(0 <= k < names.len() && names[k] == head.spec_name());
            assert(all[k] == (handlers + more)[k].spec_name());
            assert(all[handlers.len() as int] == (handlers + more)[handlers.len() as int].spec_name());
            assert(false);
        }
        let next = handlers.push(head);
        assert(next + more.drop_first() =~= handlers + more);
        lemma_merged_fresh(next, more.drop_first());
    }
}

} // verus!
