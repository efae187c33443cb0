//! The tool that runs a command.

use crate::action::Action;
use crate::action::ActionView;
use crate::content::Content;
use crate::env::EnvMap;
use crate::run::LocalTool;
use crate::run::Step;
use crate::run::StepView;
use crate::run::ToolRun;
use crate::run::ToolRunView;
use crate::text::decimal_text;
use crate::text::decode_lossy;
use crate::text::signed_decimal;
use crate::text::lossy_text;
use vstd::prelude::*;

verus! {

/// The tool that runs a command to completion and reports its exit status and
/// what it printed.
#[derive(Debug, Default, Clone, Copy)]
pub struct Process {}

/// Parameters for running a command.
#[derive(Debug, PartialEq, Eq)]
pub struct ProcessCallParam {
    /// The program to run.
    pub command: String,
    /// Its arguments, handed over as a vector and never joined into a shell
    /// line.
    pub args: Vec<String>,
    /// Variables added to its environment.
    pub envs: EnvMap,
}

/// What a finished process left behind.
#[derive(Debug, PartialEq, Eq)]
pub struct ProcessCallOutput {
    pub status: Option<i32>,
    pub std_out: String,
    pub std_err: String,
}

/// The mathematical value of a [`ProcessCallOutput`].
pub ghost struct ProcessOutputView {
    pub status: Option<i32>,
    pub std_out: Seq<char>,
    pub std_err: Seq<char>,
}

impl View for ProcessCallOutput {
    type V = ProcessOutputView;

    open spec fn view(&self) -> ProcessOutputView {
        ProcessOutputView { status: self.status, std_out: self.std_out@, std_err: self.std_err@ }
    }
}

impl ProcessCallOutput {
    /// Takes over what the system reports of a finished process: its exit
    /// code, where there is one, and the bytes it wrote to its two output
    /// streams, decoded lossily.
    pub fn from_std(status: Option<i32>, stdout: &Vec<u8>, stderr: &Vec<u8>) -> (output: Self)
        ensures
            output@ == (ProcessOutputView {
                status,
                std_out: lossy_text(stdout@),
                std_err: lossy_text(stderr@),
            }),
    {
        ProcessCallOutput {
            status,
            std_out: decode_lossy(stdout),
            std_err: decode_lossy(stderr),
        }
    }
}

/// The text that stands for an exit status: its decimal form, or the empty
/// text where the status is not available.
pub open spec fn status_text(status: Option<i32>) -> Seq<char> {
    match status {
        Some(code) => decimal_text(code as int),
        None => Seq::<char>::empty(),
    }
}

/// The three texts that the tool reports, in their fixed order: exit status,
/// standard output, standard error.
pub open spec fn process_report(output: ProcessOutputView) -> Seq<Seq<char>> {
    seq![status_text(output.status), output.std_out, output.std_err]
}

impl Process {
    pub fn name(&self) -> (name: &'static str)
        ensures
            name@ == "process"@,
    {
        "process"
    }

    pub fn description(&self) -> (text: &'static str)
        ensures
            text@
                == "execute a process, output[0]: status code, output[1]: stdout, output[2]: stderr"@,
    {
        "execute a process, output[0]: status code, output[1]: stdout, output[2]: stderr"
    }

    /// Begins a call: asks for the command to be run with exactly the given
    /// arguments and variables.
    pub fn call(&self, params: ProcessCallParam) -> (step: Step)
        ensures
            step@ == StepView::Perform(
                ActionView::Spawn {
                    command: params.command@,
                    args: params.args.deep_view(),
                    envs: params.envs@,
                },
                ToolRunView { tool: LocalTool::Process, subject: params.command@, next: None },
            ),
    {
        let subject = params.command.clone();
        Step::Perform(
            Action::Spawn { command: params.command, args: params.args, envs: params.envs },
            ToolRun { tool: LocalTool::Process, subject, next: None },
        )
    }

    /// Ends a call: reports what the process left behind as three content
    /// items, status first. A status that is not available is reported as an
    /// empty text, never left out.
    pub fn finish(&self, output: ProcessCallOutput) -> (report: Vec<Content>)
        ensures
            report@.len() == 3,
            crate::content::texts(report@) == process_report(output@),
            output.status.is_none() ==> report@[0]@ == Seq::<char>::empty(),
    {
        let status = match output.status {
            Some(code) => signed_decimal(code),
            None => String::new(),
        };
        let mut report: Vec<Content> = Vec::new();
        report.push(Content::text(status));
        report.push(Content::text(output.std_out));
        report.push(Content::text(output.std_err));
        assert(crate::content::texts(report@) =~= process_report(output@));
        assert(crate::content::texts(report@)[0] == report@[0]@);
        report
    }
}

/// The report of the process tool has three items whatever the process did:
/// status, standard output, standard error. A status that is not available
/// is an empty text in the first place, not a missing item.
pub proof fn lemma_report_shape(output: ProcessOutputView)
    ensures
        process_report(output).len() == 3,
        process_report(output)[1] == output.std_out,
        process_report(output)[2] == output.std_err,
        output.status.is_none() ==> process_report(output)[0] == Seq::<char>::empty(),
        output.status.is_some() ==> process_report(output)[0] == decimal_text(
            output.status.unwrap() as int,
        ),
{
}

} // verus!
