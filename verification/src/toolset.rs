//! The tool registry: a mapping from tool name to handler that lists its
//! tools in the order they were first registered.
//!
//! Names are unique. Registering a handler under a name that is taken
//! replaces the handler that held the name, which keeps its place in the
//! listing; nothing is ever registered twice.

use crate::content::ToolError;
use crate::content::ToolErrorView;
use crate::run::LocalTool;
use crate::run::Step;
use crate::run::StepView;
use crate::run::ToolParams;
use crate::run::spec_start;
use crate::text::same_text;
use vstd::prelude::*;

verus! {

/// The schema of a tool's parameters.
#[derive(Debug, PartialEq, Eq)]
pub enum InputSchema {
    /// The schema of the parameter type of a local tool.
    Of(LocalTool),
    /// A schema as a remote session declared it, as JSON text.
    Json(String),
}

/// The mathematical value of an [`InputSchema`].
pub ghost enum InputSchemaView {
    Of(LocalTool),
    Json(Seq<char>),
}

impl View for InputSchema {
    type V = InputSchemaView;

    open spec fn view(&self) -> InputSchemaView {
        match self {
            InputSchema::Of(tool) => InputSchemaView::Of(*tool),
            InputSchema::Json(text) => InputSchemaView::Json(text@),
        }
    }
}

/// What a caller is told of a tool.
#[derive(Debug, PartialEq, Eq)]
pub struct ToolDescriptor {
    pub name: String,
    pub description: String,
    pub input_schema: InputSchema,
}

/// The mathematical value of a [`ToolDescriptor`].
pub ghost struct ToolDescriptorView {
    pub name: Seq<char>,
    pub description: Seq<char>,
    pub input_schema: InputSchemaView,
}

impl View for ToolDescriptor {
    type V = ToolDescriptorView;

    open spec fn view(&self) -> ToolDescriptorView {
        ToolDescriptorView {
            name: self.name@,
            description: self.description@,
            input_schema: self.input_schema@,
        }
    }
}

/// A tool that a remote session offers.
#[derive(Debug, PartialEq, Eq)]
pub struct BrokeredTool {
    /// The session that answers for the tool.
    pub session: u64,
    pub name: String,
    pub description: String,
    /// The tool's schema as the session declared it, as JSON text.
    pub schema: String,
}

/// A registered tool: one that runs in this process, or one that a remote
/// session answers for.
#[derive(Debug, PartialEq, Eq)]
pub enum ToolHandler {
    Local(LocalTool),
    Brokered(BrokeredTool),
}

impl ToolHandler {
    /// The name under which the handler is registered.
    pub open spec fn spec_name(&self) -> Seq<char> {
        match self {
            ToolHandler::Local(tool) => tool.spec_name(),
            ToolHandler::Brokered(remote) => remote.name@,
        }
    }

    /// What a caller is told of the tool.
    pub open spec fn spec_descriptor(&self) -> ToolDescriptorView {
        match self {
            ToolHandler::Local(tool) => ToolDescriptorView {
                name: tool.spec_name(),
                description: tool.spec_description(),
                input_schema: InputSchemaView::Of(*tool),
            },
            ToolHandler::Brokered(remote) => ToolDescriptorView {
                name: remote.name@,
                description: remote.description@,
                input_schema: InputSchemaView::Json(remote.schema@),
            },
        }
    }

    /// How a call of the tool begins: a local tool takes its first step, a
    /// remote one has the call sent on to its session.
    pub open spec fn spec_call(&self, params: ToolParams) -> StepView {
        match self {
            ToolHandler::Local(tool) => spec_start(*tool, params),
            ToolHandler::Brokered(remote) => StepView::Forward {
                session: remote.session,
                tool: remote.name@,
            },
        }
    }

    /// Whether the handler is registered under `name`.
    pub fn is_named(&self, name: &str) -> (named: bool)
        ensures
            named == (self.spec_name() == name@),
    {
        match self {
            ToolHandler::Local(tool) => same_text(tool.name(), name),
            ToolHandler::Brokered(remote) => same_text(remote.name.as_str(), name),
        }
    }

    /// The name under which the handler is registered.
    pub fn name(&self) -> (name: String)
        ensures
            name@ == self.spec_name(),
    {
        match self {
            ToolHandler::Local(tool) => String::from_str(tool.name()),
            ToolHandler::Brokered(remote) => remote.name.clone(),
        }
    }

    /// What a caller is told of the tool.
    pub fn descriptor(&self) -> (descriptor: ToolDescriptor)
        ensures
            descriptor@ == self.spec_descriptor(),
    {
        match self {
            ToolHandler::Local(tool) => ToolDescriptor {
                name: String::from_str(tool.name()),
                description: String::from_str(tool.description()),
                input_schema: InputSchema::Of(*tool),
            },
            ToolHandler::Brokered(remote) => ToolDescriptor {
                name: remote.name.clone(),
                description: remote.description.clone(),
                input_schema: InputSchema::Json(remote.schema.clone()),
            },
        }
    }

    /// Begins a call of the tool.
    pub fn call(&self, params: ToolParams) -> (step: Step)
        ensures
            step@ == self.spec_call(params),
    {
        match self {
            ToolHandler::Local(tool) => tool.start(params),
            ToolHandler::Brokered(remote) => Step::Forward {
                session: remote.session,
                tool: remote.name.clone(),
            },
        }
    }
}

/// The names of a sequence of handlers, in order.
pub open spec fn names_of(handlers: Seq<ToolHandler>) -> Seq<Seq<char>> {
    Seq::new(handlers.len(), |i: int| handlers[i].spec_name())
}

/// The handlers after `handler` has been registered: it takes the place of
/// the handler that held its name, or goes to the end if none did.
pub open spec fn registered(handlers: Seq<ToolHandler>, handler: ToolHandler) -> Seq<ToolHandler> {
    let names = names_of(handlers);
    if names.contains(handler.spec_name()) {
        handlers.update(names.index_of(handler.spec_name()), handler)
    } else {
        handlers.push(handler)
    }
}

/// The handlers after each of `more` has been registered, first to last.
pub open spec fn merged(handlers: Seq<ToolHandler>, more: Seq<ToolHandler>) -> Seq<ToolHandler>
    decreases more.len(),
{
    if more.len() == 0 {
        handlers
    } else {
        merged(registered(handlers, more[0]), more.drop_first())
    }
}

/// How a call by name begins: with `NotFound`, carrying the name, where no
/// handler has the name, and else as the handler of that name begins it.
pub open spec fn spec_call(handlers: Seq<ToolHandler>, name: Seq<char>, params: ToolParams) -> StepView {
    let names = names_of(handlers);
    if names.contains(name) {
        handlers[names.index_of(name)].spec_call(params)
    } else {
        StepView::Finished(Err(ToolErrorView::NotFound(name)))
    }
}

/// The tool registry.
#[derive(Debug, PartialEq, Eq)]
pub struct ToolSet {
    tools: Vec<ToolHandler>,
}

impl View for ToolSet {
    type V = Seq<ToolHandler>;

    /// The registered handlers, in the order their names were first
    /// registered.
    closed spec fn view(&self) -> Seq<ToolHandler> {
        self.tools@
    }
}

impl ToolSet {
    /// The names of the registered tools, in listing order.
    pub open spec fn names(&self) -> Seq<Seq<char>> {
        names_of(self@)
    }

    /// The type's invariant: no two handlers share a name. Every registry
    /// that this module hands out is well formed.
    pub open spec fn wf(&self) -> bool {
        self.names().no_duplicates()
    }

    /// The empty registry.
    pub fn new() -> (set: ToolSet)
        ensures
            set.wf(),
            set@ == Seq::<ToolHandler>::empty(),
    {
        ToolSet { tools: Vec::new() }
    }

    /// How many tools are registered.
    pub fn len(&self) -> (n: usize)
        ensures
            n == self@.len(),
    {
        self.tools.len()
    }

    /// The place of the handler named `name` in the listing, or `len()`
    /// where there is none.
    pub fn position(&self, name: &str) -> (at: usize)
        requires
            self.wf(),
        ensures
            at <= self@.len(),
            at < self@.len() <==> self.names().contains(name@),
            at < self@.len() ==> at == self.names().index_of(name@),
            at < self@.len() ==> self@[at as int].spec_name() == name@,
    {
        let mut i: usize = 0;
        while i < self.tools.len()
            invariant
                self.wf(),
                i <= self.tools.len(),
                forall|j: int| 0 <= j < i ==> (#[trigger] self.names()[j]) != name@,
            decreases self.tools.len() - i,
        {
            if self.tools[i].is_named(name) {
                proof {
                    let names = self.names();
                    assert(0 <= i < names.len() && names[i as int] == name@);
                    let k = names.index_of(name@);
                    assert(0 <= k < names.len() && names[k] == name@);
                    assert(k == i);
                }
                return i;
            }
            i += 1;
        }
        i
    }

    /// Registers a handler.
    ///
    /// Where its name is taken, the handler replaces the one that held the
    /// name, in that one's place. Where it is free, the handler goes to the
    /// end of the listing. Returns whether the name was free.
    pub fn add_tool(&mut self, handler: ToolHandler) -> (fresh: bool)
        requires
            old(self).wf(),
        ensures
            final(self).wf(),
            fresh == !old(self).names().contains(handler.spec_name()),
            final(self)@ == registered(old(self)@, handler),
    {
        let name = handler.name();
        let at = self.position(name.as_str());
        let ghost before = self.tools@;
        if at < self.tools.len() {
            self.tools[at] = handler;
            assert(self.tools@ =~= before.update(at as int, handler));
            assert(names_of(self.tools@) =~= names_of(before));
            false
        } else {
            self.tools.push(handler);
            assert(names_of(self.tools@) =~= names_of(before).push(handler.spec_name()));
            true
        }
    }

    /// Registers every handler of `other`, first to last, each by the rule
    /// of [`ToolSet::add_tool`].
    pub fn extend(&mut self, other: ToolSet)
        requires
            old(self).wf(),
        ensures
            final(self).wf(),
            final(self)@ == merged(old(self)@, other@),
    {
        let mut rest = other.tools;
        while rest.len() > 0
            invariant
                self.wf(),
                merged(self@, rest@) == merged(old(self)@, other@),
            decreases rest.len(),
        {
            let ghost before = rest@;
            let handler = rest.remove(0);
            assert(rest@ =~= before.drop_first());
            self.add_tool(handler);
        }
    }

    /// The descriptors of the registered tools, in listing order: one for
    /// each handler, and no two under one name.
    pub fn list_all(&self) -> (list: Vec<ToolDescriptor>)
        requires
            self.wf(),
        ensures
            list@.len() == self@.len(),
            forall|i: int| 0 <= i < list@.len() ==> (#[trigger] list@[i])@ == self@[i].spec_descriptor(),
            forall|i: int, j: int|
                0 <= i < j < list@.len() ==> (#[trigger] list@[i]).name@ != (#[trigger] list@[j]).name@,
    {
        let mut list: Vec<ToolDescriptor> = Vec::new();
        let mut i: usize = 0;
        while i < self.tools.len()
            invariant
                i <= self.tools.len(),
                list@.len() == i,
                forall|j: int| 0 <= j < i ==> (#[trigger] list@[j])@ == self@[j].spec_descriptor(),
            decreases self.tools.len() - i,
        {
            list.push(self.tools[i].descriptor());
            i += 1;
        }
        proof {
            assert forall|i: int, j: int| 0 <= i < j < list@.len() implies (#[trigger] list@[i]).name@
                != (#[trigger] list@[j]).name@ by {
                assert(list@[i]@ == self@[i].spec_descriptor());
                assert(list@[j]@ == self@[j].spec_descriptor());
                assert(self.names()[i] == self@[i].spec_name());
                assert(self.names()[j] == self@[j].spec_name());
            }
        }
        list
    }

    /// The handler registered under `name`, if there is one.
    pub fn get(&self, name: &str) -> (handler: Option<&ToolHandler>)
        requires
            self.wf(),
        ensures
            handler.is_some() == self.names().contains(name@),
            handler.is_some() ==> *handler.unwrap() == self@[self.names().index_of(name@)],
    {
        let at = self.position(name);
        if at < self.tools.len() {
            Some(&self.tools[at])
        } else {
            None
        }
    }

    /// Begins a call of the tool named `name`.
    ///
    /// An unknown name ends the call at once with `NotFound`. Otherwise the
    /// call begins as the handler begins it, and whatever the handler makes
    /// of it is passed on unchanged.
    pub fn call(&self, name: &str, params: ToolParams) -> (step: Step)
        requires
            self.wf(),
        ensures
            step@ == spec_call(self@, name@, params),
            !self.names().contains(name@) ==> step@ == StepView::Finished(
                Err(ToolErrorView::NotFound(name@)),
            ),
    {
        let at = self.position(name);
        if at < self.tools.len() {
            self.tools[at].call(params)
        } else {
            Step::Finished(Err(ToolError::NotFound(String::from_str(name))))
        }
    }
}

/// Every registered tool is listed exactly once.
///
/// After a registration the names are still distinct, the new handler is
/// the one listed under its name, and every name that was listed before is
/// listed still.
pub proof fn lemma_registered_once(handlers: Seq<ToolHandler>, handler: ToolHandler)
    requires
        names_of(handlers).no_duplicates(),
    ensures
        names_of(registered(handlers, handler)).no_duplicates(),
        names_of(registered(handlers, handler)).contains(handler.spec_name()),
        registered(handlers, handler)[names_of(registered(handlers, handler)).index_of(
            handler.spec_name(),
        )] == handler,
        forall|name: Seq<char>|
            names_of(handlers).contains(name) ==> names_of(registered(handlers, handler)).contains(
                name,
            ),
{
    let names = names_of(handlers);
    let name = handler.spec_name();
    let after = registered(handlers, handler);
    let at = if names.contains(name) {
        names.index_of(name)
    } else {
        handlers.len() as int
    };
    if names.contains(name) {
        assert(0 <= at < names.len() && names[at] == name);
        assert(names_of(after) =~= names);
    } else {
        assert(names_of(after) =~= names.push(name));
    }
    assert(names_of(after)[at] == name);
    let found = names_of(after).index_of(name);
    assert(0 <= found < names_of(after).len() && names_of(after)[found] == name);
    assert(found == at);
    assert forall|other: Seq<char>| names.contains(other) implies names_of(after).contains(
        other,
    ) by {
        let k = names.index_of(other);
        assert(0 <= k < names.len() && names[k] == other);
        assert(names_of(after)[k] == other);
    }
}

/// A second registration under a name replaces the first.
///
/// Registering `first` and then `second` under the same name leaves the
/// registry as registering `second` alone would: the listing has one entry
/// under the name, it is `second`, and it stands where `first` stood.
pub proof fn lemma_second_registration_replaces(
    handlers: Seq<ToolHandler>,
    first: ToolHandler,
    second: ToolHandler,
)
    requires
        names_of(handlers).no_duplicates(),
        first.spec_name() == second.spec_name(),
    ensures
        registered(registered(handlers, first), second) == registered(handlers, second),
        registered(registered(handlers, first), second).len() == registered(handlers, first).len(),
{
    let names = names_of(handlers);
    let name = first.spec_name();
    let once = registered(handlers, first);
    lemma_registered_once(handlers, first);
    let at = names_of(once).index_of(name);
    assert(0 <= at < names_of(once).len() && names_of(once)[at] == name);
    if names.contains(name) {
        let k = names.index_of(name);
        assert(0 <= k < names.len() && names[k] == name);
        assert(names_of(once) =~= names);
        assert(k == at);
        assert(once.update(at, second) =~= handlers.update(k, second));
    } else {
        assert(names_of(once) =~= names.push(name));
        assert(at == handlers.len());
        assert(once.update(at, second) =~= handlers.push(second));
    }
}

/// A call under a name that no handler has ends at once with `NotFound`:
/// nothing is performed and nothing is sent to a remote session.
pub proof fn lemma_unknown_name(handlers: Seq<ToolHandler>, name: Seq<char>, params: ToolParams)
    requires
        !names_of(handlers).contains(name),
    ensures
        spec_call(handlers, name, params) == StepView::Finished(
            Err(ToolErrorView::NotFound(name)),
        ),
{
}

} // verus!
