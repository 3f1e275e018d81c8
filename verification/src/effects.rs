//! What the library asks its caller to do, and what the caller reports back.
//!
//! The library performs no input or output. Each of its tasks is a state
//! machine: it names the next [`Effect`] to carry out, and the caller answers
//! with the [`Event`] that carrying it out produced.

use vstd::prelude::*;

verus! {

/// An operation on the file system or the process environment.
#[derive(Debug, Clone, PartialEq, Eq)]
pub enum Effect {
    /// Find the current working directory; answered by `Event::CurrentDir`.
    CurrentDir,
    /// Tell whether a file exists; answered by `Event::FileExists`.
    CheckFile { path: String },
    /// Run `command` with `sh -c` in `dir`, capturing its output; answered by
    /// `Event::ShellFinished`, or `Event::Failed` when it could not be started.
    RunShell { command: String, dir: String },
    /// Name the entries of a directory; answered by `Event::Listed`.
    ListDir { path: String },
    /// Read a file as text; answered by `Event::FileRead`.
    ReadFile { path: String },
    /// Write `contents` to a file, replacing it; answered by `Event::Done`.
    WriteFile { path: String, contents: String },
    /// Turn the rustdoc JSON at `json` into Markdown under `output_dir`;
    /// answered by `Event::Done`.
    RenderMarkdown { json: String, output_dir: String },
    /// Load the rustdoc JSON file at `path`; answered by `Event::Done`.
    LoadDoc { path: String },
    /// Print the loaded documentation as one Markdown text; answered by
    /// `Event::Done`.
    PrintDoc,
    /// Tell whether a path exists and whether it is a directory; answered by
    /// `Event::PathInspected`.
    InspectPath { path: String },
    /// Write the loaded documentation as a directory of Markdown files.
    WriteMultiFile { path: String },
    /// Write the loaded documentation as one Markdown file.
    WriteSingleFile { path: String },
    /// The task is over: it succeeded where `error` is `None`.
    Finish { error: Option<String> },
}

/// The mathematical value of an [`Effect`].
pub enum EffectModel {
    CurrentDir,
    CheckFile { path: Seq<char> },
    RunShell { command: Seq<char>, dir: Seq<char> },
    ListDir { path: Seq<char> },
    ReadFile { path: Seq<char> },
    WriteFile { path: Seq<char>, contents: Seq<char> },
    RenderMarkdown { json: Seq<char>, output_dir: Seq<char> },
    LoadDoc { path: Seq<char> },
    PrintDoc,
    InspectPath { path: Seq<char> },
    WriteMultiFile { path: Seq<char> },
    WriteSingleFile { path: Seq<char> },
    Finish { error: Option<Seq<char>> },
}

/// The characters of an optional text.
pub open spec fn option_chars(o: Option<String>) -> Option<Seq<char>> {
    match o {
        Some(s) => Some(s@),
        None => None,
    }
}

impl View for Effect {
    type V = EffectModel;

    open spec fn view(&self) -> EffectModel {
        match self {
            Effect::CurrentDir => EffectModel::CurrentDir,
            Effect::CheckFile { path } => EffectModel::CheckFile { path: path@ },
            Effect::RunShell { command, dir } => EffectModel::RunShell { command: command@, dir: dir@ },
            Effect::ListDir { path } => EffectModel::ListDir { path: path@ },
            Effect::ReadFile { path } => EffectModel::ReadFile { path: path@ },
            Effect::WriteFile { path, contents } => EffectModel::WriteFile {
                path: path@,
                contents: contents@,
            },
            Effect::RenderMarkdown { json, output_dir } => EffectModel::RenderMarkdown {
                json: json@,
                output_dir: output_dir@,
            },
            Effect::LoadDoc { path } => EffectModel::LoadDoc { path: path@ },
            Effect::PrintDoc => EffectModel::PrintDoc,
            Effect::InspectPath { path } => EffectModel::InspectPath { path: path@ },
            Effect::WriteMultiFile { path } => EffectModel::WriteMultiFile { path: path@ },
            Effect::WriteSingleFile { path } => EffectModel::WriteSingleFile { path: path@ },
            Effect::Finish { error } => EffectModel::Finish { error: option_chars(*error) },
        }
    }
}

/// The outcome of carrying out an [`Effect`].
#[derive(Debug, Clone, PartialEq, Eq)]
pub enum Event {
    /// The effect was carried out.
    Done,
    /// The effect failed with this error.
    Failed { message: String },
    /// The current working directory.
    CurrentDir { path: String },
    /// Whether the file exists.
    FileExists { exists: bool },
    /// The command ran to its end; `stderr` is what it wrote there.
    ShellFinished { success: bool, stderr: String },
    /// The names of the entries of the directory, in the order read.
    Listed { names: Vec<String> },
    /// The text of the file.
    FileRead { contents: String },
    /// Whether the path exists and whether it is a directory.
    PathInspected { exists: bool, is_dir: bool },
}

/// The mathematical value of an [`Event`].
pub enum EventModel {
    Done,
    Failed { message: Seq<char> },
    CurrentDir { path: Seq<char> },
    FileExists { exists: bool },
    ShellFinished { success: bool, stderr: Seq<char> },
    Listed { names: Seq<Seq<char>> },
    FileRead { contents: Seq<char> },
    PathInspected { exists: bool, is_dir: bool },
}

/// The characters of each text of a list.
pub open spec fn texts_chars(v: Seq<String>) -> Seq<Seq<char>> {
    v.map_values(|s: String| s@)
}

impl View for Event {
    type V = EventModel;

    open spec fn view(&self) -> EventModel {
        match self {
            Event::Done => EventModel::Done,
            Event::Failed { message } => EventModel::Failed { message: message@ },
            Event::CurrentDir { path } => EventModel::CurrentDir { path: path@ },
            Event::FileExists { exists } => EventModel::FileExists { exists: *exists },
            Event::ShellFinished { success, stderr } => EventModel::ShellFinished {
                success: *success,
                stderr: stderr@,
            },
            Event::Listed { names } => EventModel::Listed { names: texts_chars(names@) },
            Event::FileRead { contents } => EventModel::FileRead { contents: contents@ },
            Event::PathInspected { exists, is_dir } => EventModel::PathInspected {
                exists: *exists,
                is_dir: *is_dir,
            },
        }
    }
}

/// Where a task that yields a path stands: it needs an effect carried out,
/// it is done with that path, or it failed with that error.
#[derive(Debug, Clone, PartialEq, Eq)]
pub enum Step {
    Perform(Effect),
    Done(String),
    Failed(String),
}

/// The mathematical value of a [`Step`].
pub enum StepModel {
    Perform(EffectModel),
    Done(Seq<char>),
    Failed(Seq<char>),
}

impl View for Step {
    type V = StepModel;

    open spec fn view(&self) -> StepModel {
        match self {
            Step::Perform(e) => StepModel::Perform(e@),
            Step::Done(s) => StepModel::Done(s@),
            Step::Failed(s) => StepModel::Failed(s@),
        }
    }
}

/// The effect that a step asks for; a step that asks for none is read as the
/// end of the task.
pub open spec fn effect_of(s: StepModel) -> EffectModel {
    match s {
        StepModel::Perform(e) => e,
        StepModel::Done(_) => EffectModel::Finish { error: None },
        StepModel::Failed(m) => EffectModel::Finish { error: Some(m) },
    }
}

/// The effect that a step asks for, or the end of the task where it asks
/// for none.
pub fn effect_of_step(step: Step) -> (r: Effect)
    ensures
        r@ == effect_of(step@),
{
    match step {
        Step::Perform(e) => e,
        Step::Done(_) => Effect::Finish { error: None },
        Step::Failed(m) => Effect::Finish { error: Some(m) },
    }
}

} // verus!
