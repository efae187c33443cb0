//! The prompts that the server offers.

use vstd::prelude::*;

verus! {

/// What a caller is told of a prompt.
#[derive(Debug, PartialEq, Eq)]
pub struct Prompt {
    pub name: String,
    pub description: Option<String>,
}

/// The mathematical value of a [`Prompt`].
pub ghost struct PromptView {
    pub name: Seq<char>,
    pub description: Option<Seq<char>>,
}

impl View for Prompt {
    type V = PromptView;

    open spec fn view(&self) -> PromptView {
        PromptView {
            name: self.name@,
            description: match self.description {
                Some(text) => Some(text@),
                None => None,
            },
        }
    }
}

/// The views of a sequence of prompts.
pub open spec fn prompt_views(list: Seq<Prompt>) -> Seq<PromptView> {
    Seq::new(list.len(), |i: int| list[i]@)
}

/// The prompts that the server offers: one, with its description.
pub open spec fn own_prompts() -> Seq<PromptView> {
    seq![PromptView { name: prompt_name(), description: Some(prompt_summary()) }]
}

/// The name of the one prompt that the server offers.
pub open spec fn prompt_name() -> Seq<char> {
    "llmidium"@
}

/// The text of the prompt.
pub open spec fn prompt_text() -> Seq<char> {
    "You operate a machine through the tools of this server. Use `process` to run a command: it reports the exit status, the standard output and the standard error, in that order. Use the `fs.` tools to read, write, create, copy, move and delete files, to list, make and remove directories, and to inspect or change metadata, permissions and ownership. Read before you overwrite, prefer the narrowest operation that does the job, and report an error as it came instead of retrying blindly."@
}

/// What the prompt is for, in a sentence.
pub open spec fn prompt_summary() -> Seq<char> {
    "How to operate a machine through the process and file system tools of this server."@
}

/// The text of the prompt named `prompt`: the server offers one prompt, and
/// every other name gives `None`.
pub fn get(prompt: &str) -> (text: Option<String>)
    ensures
        prompt@ == prompt_name() ==> text.is_some() && text.unwrap()@ == prompt_text(),
        prompt@ != prompt_name() ==> text.is_none(),
{
    if crate::text::same_text(prompt, "llmidium") {
        Some(
            String::from_str(
                "You operate a machine through the tools of this server. Use `process` to run a command: it reports the exit status, the standard output and the standard error, in that order. Use the `fs.` tools to read, write, create, copy, move and delete files, to list, make and remove directories, and to inspect or change metadata, permissions and ownership. Read before you overwrite, prefer the narrowest operation that does the job, and report an error as it came instead of retrying blindly.",
            ),
        )
    } else {
        None
    }
}

/// The prompts that the server offers: one, with its description.
pub fn prompts() -> (list: Vec<Prompt>)
    ensures
        prompt_views(list@) == own_prompts(),
{
    let mut list: Vec<Prompt> = Vec::new();
    list.push(
        Prompt {
            name: String::from_str("llmidium"),
            description: Some(
                String::from_str(
                    "How to operate a machine through the process and file system tools of this server.",
                ),
            ),
        },
    );
    assert(prompt_views(list@) =~= own_prompts());
    list
}

} // verus!
