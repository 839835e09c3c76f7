use crate::error::Error;
use vstd::prelude::*;

verus! {

/// A file, named relative to one of the two directories the pipeline works in.
#[derive(Debug, Clone, Copy, PartialEq, Eq)]
pub enum Location<'a> {
    /// Below the component directory, which holds the source images, the
    /// tools under `bin/` and the keys under `etc/`.
    Component(&'a str),
    /// Below the scratch directory, which holds the generated artifacts.
    Scratch(&'a str),
}

/// The external tools.
#[derive(Debug, Clone, Copy, PartialEq, Eq, Structural)]
pub enum Tool {
    /// Converts a sparse image to a raw one.
    Simg2img,
    /// Packs a bootloader environment image.
    Mkenvimage,
    /// Signs images and produces verification metadata.
    Avbtool,
}

/// The name a tool is reported under.
pub open spec fn tool_name(tool: Tool) -> &'static str {
    match tool {
        Tool::Simg2img => "simg2img",
        Tool::Mkenvimage => "mkenvimage_slim",
        Tool::Avbtool => "avbtool",
    }
}

/// The executable of a tool, relative to the component directory.
pub open spec fn tool_program(tool: Tool) -> &'static str {
    match tool {
        Tool::Simg2img => "bin/simg2img",
        Tool::Mkenvimage => "bin/mkenvimage_slim",
        Tool::Avbtool => "bin/avbtool",
    }
}

impl Tool {
    /// The name the tool is reported under.
    pub fn name(&self) -> (name: &'static str)
        ensures
            name == tool_name(*self),
    {
        match self {
            Tool::Simg2img => "simg2img",
            Tool::Mkenvimage => "mkenvimage_slim",
            Tool::Avbtool => "avbtool",
        }
    }

    /// The executable, relative to the component directory.
    pub fn program(&self) -> (program: Location<'static>)
        ensures
            program == Location::Component(tool_program(*self)),
    {
        match self {
            Tool::Simg2img => Location::Component("bin/simg2img"),
            Tool::Mkenvimage => Location::Component("bin/mkenvimage_slim"),
            Tool::Avbtool => Location::Component("bin/avbtool"),
        }
    }
}

/// One argument on a tool's command line.
#[derive(Debug, Clone, Copy, PartialEq, Eq)]
pub enum Arg<'a> {
    /// Passed as it stands.
    Text(&'a str),
    /// Passed in decimal.
    Number(u64),
    /// Passed as the path of the file.
    File(Location<'a>),
    /// A partition verified through a chain: passed as the partition's name,
    /// the rollback index location in decimal and the path of the public
    /// key, joined by colons.
    ChainPartition { partition: &'a str, rollback_index_location: u64, public_key: Location<'a> },
}

/// One run of an external tool.
#[derive(Debug, Clone, PartialEq, Eq)]
pub struct ToolCall<'a> {
    pub tool: Tool,
    pub args: Vec<Arg<'a>>,
}

/// One step of producing an artifact. The steps of a plan are carried out in
/// order, and the first failure ends the plan.
#[derive(Debug, Clone, PartialEq, Eq)]
pub enum Step<'a> {
    /// Create the file afresh with exactly this content.
    Write { to: Location<'a>, text: String },
    /// Run the tool to completion, with every variable of
    /// [`tool_environment`] set to the component directory, and judge what
    /// became of it by [`check_tool`].
    Run(ToolCall<'a>),
    /// Put `from` in the place of `to`.
    Rename { from: Location<'a>, to: Location<'a> },
    /// Append zero bytes to the signed verification metadata in `file`: as
    /// many as [`crate::components::vbmeta_padding`] gives for its length.
    Pad { file: Location<'a> },
}

/// A step as contracts speak of it.
pub enum StepView<'a> {
    Write { to: Location<'a>, text: Seq<char> },
    Run { tool: Tool, args: Seq<Arg<'a>> },
    Rename { from: Location<'a>, to: Location<'a> },
    Pad { file: Location<'a> },
}

impl<'a> View for Step<'a> {
    type V = StepView<'a>;

    open spec fn view(&self) -> StepView<'a> {
        match self {
            Step::Write { to, text } => StepView::Write { to: *to, text: text@ },
            Step::Run(call) => StepView::Run { tool: call.tool, args: call.args@ },
            Step::Rename { from, to } => StepView::Rename { from: *from, to: *to },
            Step::Pad { file } => StepView::Pad { file: *file },
        }
    }
}

impl<'a> DeepView for Step<'a> {
    type V = StepView<'a>;

    open spec fn deep_view(&self) -> StepView<'a> {
        self@
    }
}

/// The environment variables that every tool is run with. Each is set to the
/// canonical path of the component directory.
pub open spec fn tool_environment_spec() -> Seq<&'static str> {
    seq!["HOME", "ANDROID_TZDATA_ROOT", "ANDROID_ROOT"]
}

/// The names of the environment variables that every tool is run with. Each
/// is set to the canonical path of the component directory.
pub fn tool_environment() -> (names: Vec<&'static str>)
    ensures
        names@ == tool_environment_spec(),
{
    let mut names: Vec<&'static str> = Vec::new();
    names.push("HOME");
    names.push("ANDROID_TZDATA_ROOT");
    names.push("ANDROID_ROOT");
    assert(names@ =~= tool_environment_spec());
    names
}

/// How a tool that ran to completion ended.
#[derive(Debug, Clone, PartialEq, Eq)]
pub struct ExitOutcome {
    pub success: bool,
    /// Absent where the tool did not exit by itself.
    pub exit_code: Option<i32>,
    pub stdout: Vec<u8>,
    pub stderr: Vec<u8>,
}

/// What became of the attempt to run a tool.
#[derive(Debug, Clone, PartialEq, Eq)]
pub enum Launch {
    /// The executable does not exist.
    NotFound,
    /// The tool ran to completion.
    Exited(ExitOutcome),
}

/// The verdict on a tool run.
pub open spec fn check_tool_spec(tool: Tool, launch: Launch) -> Result<(), Error> {
    match launch {
        Launch::NotFound => Err(Error::ToolNotFound { tool }),
        Launch::Exited(outcome) => if outcome.success {
            Ok(())
        } else {
            Err(
                Error::ToolFailed {
                    tool,
                    exit_code: outcome.exit_code,
                    stdout: outcome.stdout,
                    stderr: outcome.stderr,
                },
            )
        },
    }
}

/// Judges a tool run. A missing executable and a run without success are
/// both failures, and are told apart; a failed run is reported with its exit
/// code and with what it printed.
pub fn check_tool(tool: Tool, launch: Launch) -> (verdict: Result<(), Error>)
    ensures
        verdict == check_tool_spec(tool, launch),
{
    match launch {
        Launch::NotFound => Err(Error::ToolNotFound { tool }),
        Launch::Exited(outcome) => {
            if outcome.success {
                Ok(())
            } else {
                Err(
                    Error::ToolFailed {
                        tool,
                        exit_code: outcome.exit_code,
                        stdout: outcome.stdout,
                        stderr: outcome.stderr,
                    },
                )
            }
        },
    }
}

} // verus!
