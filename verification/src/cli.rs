//! The command-line tool: `--quick`, which documents the project around the
//! current directory, and the standard mode, which turns one rustdoc JSON
//! file into Markdown.

use vstd::prelude::*;

use crate::effects::{effect_of, effect_of_step, option_chars, Effect, EffectModel, Event, EventModel, Step, StepModel};
use crate::gitignore::{ensure_gitignore, gitignore_path, GitignoreEdit, GitignoreEditModel};
use crate::paths::{join_path, joined_path};
use crate::quick_generate::{quick_start, QuickGenerateModel, QuickStageModel};
use crate::root_search::{RootSearch, RootSearchModel};
use crate::rustdoc_json::{generate_rustdoc_json, JsonBuild, JsonBuildModel};
use crate::text::concat3;

verus! {

/// What the command line asks for.
#[derive(Debug, Clone, PartialEq, Eq)]
pub struct CliOptions {
    /// Document the project around the current directory, into its
    /// `.crates-docs` folder.
    pub quick: bool,
    /// The rustdoc JSON file to read.
    pub input_json: Option<String>,
    /// Where the Markdown goes; printed where there is none.
    pub output: Option<String>,
    /// Write a directory of Markdown files rather than one document.
    pub multi_file: bool,
    /// Generate the JSON of the current project first, and read that.
    pub generate_json: bool,
}

/// The mathematical value of [`CliOptions`].
pub struct CliOptionsModel {
    pub quick: bool,
    pub input_json: Option<Seq<char>>,
    pub output: Option<Seq<char>>,
    pub multi_file: bool,
    pub generate_json: bool,
}

impl View for CliOptions {
    type V = CliOptionsModel;

    open spec fn view(&self) -> CliOptionsModel {
        CliOptionsModel {
            quick: self.quick,
            input_json: option_chars(self.input_json),
            output: option_chars(self.output),
            multi_file: self.multi_file,
            generate_json: self.generate_json,
        }
    }
}

/// The error when no directory up from the current one holds a manifest.
pub open spec fn no_root_here_message() -> Seq<char> {
    "No Cargo.toml found in current directory or any parent directory."@
}

/// The error when a directory of files is asked for with nowhere to put it.
pub open spec fn multi_file_needs_output_message() -> Seq<char> {
    "--multi-file requires --output (-o) to be specified"@
}

/// The error when there is nothing to read.
pub open spec fn missing_input_message() -> Seq<char> {
    "--input-json (-i) is required unless --generate-json (-g) or --quick is used"@
}

/// The error when multi-file output is to go to a file.
pub open spec fn multi_file_message(output: Seq<char>) -> Seq<char> {
    "For multi-file output, the output path '"@ + output + "' must be a directory, but it's a file."@
}

/// The error when single-file output is to go to a directory.
pub open spec fn single_file_message(output: Seq<char>) -> Seq<char> {
    "For single-file output, the output path '"@ + output + "' must be a file, but it's a directory."@
}

/// The folder where `--quick` writes, inside the project root.
pub open spec fn quick_folder() -> Seq<char> {
    ".crates-docs"@
}

/// A search for the root of the project around the current directory `cwd`.
pub open spec fn search_here(cwd: Seq<char>) -> RootSearchModel {
    RootSearchModel::Probing { current: cwd, not_found: no_root_here_message() }
}

/// Where a run of the tool stands.
pub enum CliStage {
    /// `--quick`: finding the current directory.
    QuickCwd,
    /// `--quick`: finding the project root.
    QuickSearching(RootSearch),
    /// `--quick`: generating the JSON, dependencies included.
    QuickBuilding(JsonBuild),
    /// Generating Markdown from the JSON in `json_dir`: finding the current
    /// directory again.
    AllCwd { json_dir: String },
    /// Finding the project root again.
    AllSearching { json_dir: String, search: RootSearch },
    /// Turning the JSON into Markdown in `.crates-docs` of `root`.
    AllRendering { json_dir: String, root: String },
    /// Adding `.crates-docs` to `.gitignore`.
    AllIgnoring(GitignoreEdit),
    /// Standard mode, with `--generate-json`: finding the current directory.
    InputCwd,
    /// Generating the JSON of the project there, without dependencies.
    InputBuilding(JsonBuild),
    /// Loading the JSON file `input`.
    Loading { input: String },
    /// Finding the current directory, to write into it.
    OutputCwd,
    /// Finding the current directory, to look for the project root.
    OutputRootCwd,
    /// Finding the project root, to write into it.
    OutputSearching(RootSearch),
    /// Printing the Markdown.
    Printing,
    /// Looking at the output path.
    Inspecting { output: String },
    /// Writing the Markdown to the output path.
    Writing { output: String },
    /// Writing the Markdown as a directory of files into the current
    /// directory, the output folder of `--generate-json`.
    WritingFolder { output: String },
    /// Over: it succeeded where `error` is `None`.
    Finished { error: Option<String> },
}

/// The mathematical value of a [`CliStage`].
pub enum CliStageModel {
    QuickCwd,
    QuickSearching(RootSearchModel),
    QuickBuilding(JsonBuildModel),
    AllCwd { json_dir: Seq<char> },
    AllSearching { json_dir: Seq<char>, search: RootSearchModel },
    AllRendering { json_dir: Seq<char>, root: Seq<char> },
    AllIgnoring(GitignoreEditModel),
    InputCwd,
    InputBuilding(JsonBuildModel),
    Loading { input: Seq<char> },
    OutputCwd,
    OutputRootCwd,
    OutputSearching(RootSearchModel),
    Printing,
    Inspecting { output: Seq<char> },
    Writing { output: Seq<char> },
    WritingFolder { output: Seq<char> },
    Finished { error: Option<Seq<char>> },
}

impl View for CliStage {
    type V = CliStageModel;

    open spec fn view(&self) -> CliStageModel {
        match self {
            CliStage::QuickCwd => CliStageModel::QuickCwd,
            CliStage::QuickSearching(s) => CliStageModel::QuickSearching(s@),
            CliStage::QuickBuilding(b) => CliStageModel::QuickBuilding(b@),
            CliStage::AllCwd { json_dir } => CliStageModel::AllCwd { json_dir: json_dir@ },
            CliStage::AllSearching { json_dir, search } => CliStageModel::AllSearching {
                json_dir: json_dir@,
                search: search@,
            },
            CliStage::AllRendering { json_dir, root } => CliStageModel::AllRendering {
                json_dir: json_dir@,
                root: root@,
            },
            CliStage::AllIgnoring(g) => CliStageModel::AllIgnoring(g@),
            CliStage::InputCwd => CliStageModel::InputCwd,
            CliStage::InputBuilding(b) => CliStageModel::InputBuilding(b@),
            CliStage::Loading { input } => CliStageModel::Loading { input: input@ },
            CliStage::OutputCwd => CliStageModel::OutputCwd,
            CliStage::OutputRootCwd => CliStageModel::OutputRootCwd,
            CliStage::OutputSearching(s) => CliStageModel::OutputSearching(s@),
            CliStage::Printing => CliStageModel::Printing,
            CliStage::Inspecting { output } => CliStageModel::Inspecting { output: output@ },
            CliStage::Writing { output } => CliStageModel::Writing { output: output@ },
            CliStage::WritingFolder { output } => CliStageModel::WritingFolder { output: output@ },
            CliStage::Finished { error } => CliStageModel::Finished { error: option_chars(*error) },
        }
    }
}

/// A run of the tool.
pub struct CliRun {
    options: CliOptions,
    stage: CliStage,
}

/// The mathematical value of a [`CliRun`].
pub struct CliRunModel {
    pub options: CliOptionsModel,
    pub stage: CliStageModel,
}

impl View for CliRun {
    type V = CliRunModel;

    closed spec fn view(&self) -> CliRunModel {
        CliRunModel { options: self.options@, stage: self.stage@ }
    }
}

/// `--multi-file` is given with nowhere to write the files: no `--output`,
/// and neither `--generate-json` nor `--quick`, which name an output folder.
pub open spec fn multi_file_without_output(options: CliOptionsModel) -> bool {
    options.multi_file && options.output is None && !options.generate_json && !options.quick
}

/// The first stage of the standard mode: fail where `--multi-file` has no
/// output; else generate the JSON, or load the one given, or fail for want of
/// one.
pub open spec fn std_start(options: CliOptionsModel) -> CliStageModel {
    if multi_file_without_output(options) {
        CliStageModel::Finished { error: Some(multi_file_needs_output_message()) }
    } else if options.generate_json {
        CliStageModel::InputCwd
    } else {
        match options.input_json {
            Some(input) => CliStageModel::Loading { input },
            None => CliStageModel::Finished { error: Some(missing_input_message()) },
        }
    }
}

/// The first stage of a run: `--quick` comes before anything else.
pub open spec fn cli_start(options: CliOptionsModel) -> CliStageModel {
    if options.quick {
        CliStageModel::QuickCwd
    } else {
        std_start(options)
    }
}

/// Where the Markdown goes once the documentation is loaded: the output given;
/// else, with `--generate-json`, the current directory, as the folder of a
/// directory of files; else, with
/// `--quick`, the project root; else it is printed.
pub open spec fn after_loading(options: CliOptionsModel) -> CliStageModel {
    match options.output {
        Some(output) => CliStageModel::Inspecting { output },
        None => if options.generate_json {
            CliStageModel::OutputCwd
        } else if options.quick {
            CliStageModel::OutputRootCwd
        } else {
            CliStageModel::Printing
        },
    }
}

/// The decision on the output path, given whether it exists and is a
/// directory: multi-file output needs a directory or nothing there,
/// single-file output anything but a directory.
pub open spec fn after_inspecting(
    options: CliOptionsModel,
    output: Seq<char>,
    exists: bool,
    is_dir: bool,
) -> CliStageModel {
    if options.multi_file {
        if exists && !is_dir {
            CliStageModel::Finished { error: Some(multi_file_message(output)) }
        } else {
            CliStageModel::Writing { output }
        }
    } else {
        if is_dir {
            CliStageModel::Finished { error: Some(single_file_message(output)) }
        } else {
            CliStageModel::Writing { output }
        }
    }
}

/// The stage that a failed effect leads to.
pub open spec fn failed_with(message: Seq<char>) -> CliStageModel {
    CliStageModel::Finished { error: Some(message) }
}

impl CliRunModel {
    /// The effect that the run needs next.
    pub open spec fn pending(self) -> EffectModel {
        match self.stage {
            CliStageModel::QuickCwd => EffectModel::CurrentDir,
            CliStageModel::QuickSearching(s) => effect_of(s.status()),
            CliStageModel::QuickBuilding(b) => effect_of(b.status()),
            CliStageModel::AllCwd { .. } => EffectModel::CurrentDir,
            CliStageModel::AllSearching { search, .. } => effect_of(search.status()),
            CliStageModel::AllRendering { json_dir, root } => EffectModel::RenderMarkdown {
                json: json_dir,
                output_dir: joined_path(root, quick_folder()),
            },
            CliStageModel::AllIgnoring(g) => effect_of(g.status()),
            CliStageModel::InputCwd => EffectModel::CurrentDir,
            CliStageModel::InputBuilding(b) => effect_of(b.status()),
            CliStageModel::Loading { input } => EffectModel::LoadDoc { path: input },
            CliStageModel::OutputCwd => EffectModel::CurrentDir,
            CliStageModel::OutputRootCwd => EffectModel::CurrentDir,
            CliStageModel::OutputSearching(s) => effect_of(s.status()),
            CliStageModel::Printing => EffectModel::PrintDoc,
            CliStageModel::Inspecting { output } => EffectModel::InspectPath { path: output },
            CliStageModel::Writing { output } => if self.options.multi_file {
                EffectModel::WriteMultiFile { path: output }
            } else {
                EffectModel::WriteSingleFile { path: output }
            },
            CliStageModel::WritingFolder { output } => EffectModel::WriteMultiFile { path: output },
            CliStageModel::Finished { error } => EffectModel::Finish { error },
        }
    }

    /// The stage after `event`. Any error ends the run with it; an event
    /// that answers nothing pending changes nothing.
    pub open spec fn next_stage(self, event: EventModel) -> CliStageModel {
        match self.stage {
            CliStageModel::QuickCwd => match event {
                EventModel::CurrentDir { path } => CliStageModel::QuickSearching(search_here(path)),
                EventModel::Failed { message } => failed_with(message),
                _ => self.stage,
            },
            CliStageModel::QuickSearching(s) => match s.next(event).status() {
                StepModel::Perform(_) => CliStageModel::QuickSearching(s.next(event)),
                StepModel::Done(root) => CliStageModel::QuickBuilding(
                    JsonBuildModel::Nightly { root, include_deps: true, locate: false },
                ),
                StepModel::Failed(message) => failed_with(message),
            },
            CliStageModel::QuickBuilding(b) => match b.next(event).status() {
                StepModel::Perform(_) => CliStageModel::QuickBuilding(b.next(event)),
                StepModel::Done(json_dir) => CliStageModel::AllCwd { json_dir },
                StepModel::Failed(message) => failed_with(message),
            },
            CliStageModel::AllCwd { json_dir } => match event {
                EventModel::CurrentDir { path } => CliStageModel::AllSearching {
                    json_dir,
                    search: search_here(path),
                },
                EventModel::Failed { message } => failed_with(message),
                _ => self.stage,
            },
            CliStageModel::AllSearching { json_dir, search } => match search.next(event).status() {
                StepModel::Perform(_) => CliStageModel::AllSearching {
                    json_dir,
                    search: search.next(event),
                },
                StepModel::Done(root) => CliStageModel::AllRendering { json_dir, root },
                StepModel::Failed(message) => failed_with(message),
            },
            CliStageModel::AllRendering { root, .. } => match event {
                EventModel::Done => CliStageModel::AllIgnoring(
                    GitignoreEditModel::Checking { path: gitignore_path(root), entry: quick_folder() },
                ),
                EventModel::Failed { message } => failed_with(message),
                _ => self.stage,
            },
            CliStageModel::AllIgnoring(g) => match g.next(event).status() {
                StepModel::Perform(_) => CliStageModel::AllIgnoring(g.next(event)),
                StepModel::Done(_) => CliStageModel::Finished { error: None },
                StepModel::Failed(message) => failed_with(message),
            },
            CliStageModel::InputCwd => match event {
                EventModel::CurrentDir { path } => CliStageModel::InputBuilding(
                    JsonBuildModel::Nightly { root: path, include_deps: false, locate: true },
                ),
                EventModel::Failed { message } => failed_with(message),
                _ => self.stage,
            },
            CliStageModel::InputBuilding(b) => match b.next(event).status() {
                StepModel::Perform(_) => CliStageModel::InputBuilding(b.next(event)),
                StepModel::Done(input) => CliStageModel::Loading { input },
                StepModel::Failed(message) => failed_with(message),
            },
            CliStageModel::Loading { .. } => match event {
                EventModel::Done => after_loading(self.options),
                EventModel::Failed { message } => failed_with(message),
                _ => self.stage,
            },
            CliStageModel::OutputCwd => match event {
                EventModel::CurrentDir { path } => CliStageModel::WritingFolder { output: path },
                EventModel::Failed { message } => failed_with(message),
                _ => self.stage,
            },
            CliStageModel::OutputRootCwd => match event {
                EventModel::CurrentDir { path } => CliStageModel::OutputSearching(search_here(path)),
                EventModel::Failed { message } => failed_with(message),
                _ => self.stage,
            },
            CliStageModel::OutputSearching(s) => match s.next(event).status() {
                StepModel::Perform(_) => CliStageModel::OutputSearching(s.next(event)),
                StepModel::Done(root) => CliStageModel::Inspecting { output: root },
                StepModel::Failed(message) => failed_with(message),
            },
            CliStageModel::Printing => match event {
                EventModel::Done => CliStageModel::Finished { error: None },
                EventModel::Failed { message } => failed_with(message),
                _ => self.stage,
            },
            CliStageModel::Inspecting { output } => match event {
                EventModel::PathInspected { exists, is_dir } => after_inspecting(
                    self.options,
                    output,
                    exists,
                    is_dir,
                ),
                EventModel::Failed { message } => failed_with(message),
                _ => self.stage,
            },
            CliStageModel::Writing { .. } => match event {
                EventModel::Done => CliStageModel::Finished { error: None },
                EventModel::Failed { message } => failed_with(message),
                _ => self.stage,
            },
            CliStageModel::WritingFolder { .. } => match event {
                EventModel::Done => CliStageModel::Finished { error: None },
                EventModel::Failed { message } => failed_with(message),
                _ => self.stage,
            },
            CliStageModel::Finished { .. } => self.stage,
        }
    }

    /// The run after `event`.
    pub open spec fn next(self, event: EventModel) -> CliRunModel {
        CliRunModel { options: self.options, stage: self.next_stage(event) }
    }
}

/// The Markdown is written only where the output path suits the mode: a
/// directory of files never replaces a file, one document never goes to a
/// directory; the other cases end with the error that says so.
pub proof fn output_goes_only_where_it_fits(run: CliRunModel, exists: bool, is_dir: bool)
    requires
        run.stage is Inspecting,
    ensures
        ({
            let after = run.next(EventModel::PathInspected { exists, is_dir });
            &&& after.stage is Writing ==> after.stage->Writing_output == run.stage->Inspecting_output
            &&& run.options.multi_file ==> (after.stage is Writing <==> !(exists && !is_dir))
            &&& !run.options.multi_file ==> (after.stage is Writing <==> !is_dir)
            &&& !(after.stage is Writing) ==> after.pending() == (EffectModel::Finish {
                error: Some(
                    if run.options.multi_file {
                        multi_file_message(run.stage->Inspecting_output)
                    } else {
                        single_file_message(run.stage->Inspecting_output)
                    },
                ),
            })
        }),
{
}

/// Wherever `--output` is given, with `--generate-json` or without it, the
/// Markdown goes there: once the documentation is loaded, that path, and no
/// other, is looked at; then one document or a directory of files is written
/// to it, or the run ends with the error that says why it does not fit; and
/// whatever comes after, no write goes elsewhere. A write that succeeds ends
/// the run with success.
pub proof fn output_given_is_where_markdown_goes(
    options: CliOptionsModel,
    input: Seq<char>,
    output: Seq<char>,
    exists: bool,
    is_dir: bool,
    event: EventModel,
)
    requires
        options.output == Some(output),
    ensures
        ({
            let loaded = (CliRunModel { options, stage: CliStageModel::Loading { input } }).next(
                EventModel::Done,
            );
            let inspected = loaded.next(EventModel::PathInspected { exists, is_dir });
            let after = inspected.next(event);
            &&& loaded.pending() == (EffectModel::InspectPath { path: output })
            &&& inspected.pending() == if options.multi_file {
                if exists && !is_dir {
                    EffectModel::Finish {
                        error: Some(
                            "For multi-file output, the output path '"@ + output
                                + "' must be a directory, but it's a file."@,
                        ),
                    }
                } else {
                    EffectModel::WriteMultiFile { path: output }
                }
            } else {
                if is_dir {
                    EffectModel::Finish {
                        error: Some(
                            "For single-file output, the output path '"@ + output
                                + "' must be a file, but it's a directory."@,
                        ),
                    }
                } else {
                    EffectModel::WriteSingleFile { path: output }
                }
            }
            &&& after.pending() matches EffectModel::WriteMultiFile { path } ==> path == output
            &&& after.pending() matches EffectModel::WriteSingleFile { path } ==> path == output
            &&& !(inspected.pending() is Finish) ==> inspected.next(EventModel::Done).pending()
                == (EffectModel::Finish { error: None })
        }),
{
}

/// `--generate-json` without `--output` uses the current directory as the
/// output folder: once the documentation is loaded, it is written there as a
/// directory of Markdown files, whether or not `--multi-file` is given, and
/// the run succeeds when that write does.
pub proof fn generated_json_goes_into_current_directory(
    options: CliOptionsModel,
    input: Seq<char>,
    cwd: Seq<char>,
)
    requires
        options.generate_json,
        options.output is None,
    ensures
        (CliRunModel { options, stage: CliStageModel::Loading { input } }).next(EventModel::Done).stage
            == CliStageModel::OutputCwd,
        (CliRunModel { options, stage: CliStageModel::OutputCwd }).next(
            EventModel::CurrentDir { path: cwd },
        ).pending() == (EffectModel::WriteMultiFile { path: cwd }),
        (CliRunModel { options, stage: CliStageModel::WritingFolder { output: cwd } }).next(
            EventModel::Done,
        ).stage == (CliStageModel::Finished { error: None }),
{
}

/// `--multi-file` requires `--output`: without it, and without
/// `--generate-json` or `--quick` to name an output folder, the run ends at
/// once with the error that says so, having loaded, printed and written
/// nothing.
pub proof fn multi_file_requires_output(options: CliOptionsModel)
    requires
        options.multi_file,
        options.output is None,
        !options.generate_json,
        !options.quick,
    ensures
        cli_start(options) == (CliStageModel::Finished { error: Some(multi_file_needs_output_message()) }),
        (CliRunModel { options, stage: cli_start(options) }).pending() == (EffectModel::Finish {
            error: Some(multi_file_needs_output_message()),
        }),
{
}

/// `--generate-json` overrides `--input-json`: two command lines that differ
/// only in the input file given run alike, step by step.
pub proof fn generate_json_overrides_input_json(
    first: CliOptionsModel,
    second: CliOptionsModel,
    stage: CliStageModel,
    event: EventModel,
)
    requires
        first.generate_json,
        second == (CliOptionsModel { input_json: second.input_json, ..first }),
    ensures
        cli_start(first) == cli_start(second),
        (CliRunModel { options: first, stage }).next(event).stage == (CliRunModel {
            options: second,
            stage,
        }).next(event).stage,
        (CliRunModel { options: first, stage }).pending() == (CliRunModel {
            options: second,
            stage,
        }).pending(),
{
}

/// Two searches for the project root at the same point: looking at the same
/// directory, or done with the same root, or both failed (their errors may
/// differ).
pub open spec fn same_search(s: RootSearchModel, t: RootSearchModel) -> bool {
    match s {
        RootSearchModel::Probing { current, .. } => t matches RootSearchModel::Probing {
            current: other,
            ..
        } && other == current,
        RootSearchModel::Found { root } => t == (RootSearchModel::Found { root }),
        RootSearchModel::Failed { .. } => t is Failed,
    }
}

/// A quick pipeline and a `--quick` run at the same point: the same search,
/// build, rendering or `.gitignore` edit, or both over, with success alike.
pub open spec fn same_progress(q: QuickStageModel, c: CliStageModel) -> bool {
    match q {
        QuickStageModel::Searching(s) => {
            &&& s is Probing
            &&& c matches CliStageModel::QuickSearching(t) && same_search(s, t)
        },
        QuickStageModel::Building { build, .. } => c == CliStageModel::QuickBuilding(build),
        QuickStageModel::Rendering { root, json } => c == (CliStageModel::AllRendering {
            json_dir: json,
            root,
        }),
        QuickStageModel::Ignoring(g) => c == CliStageModel::AllIgnoring(g),
        QuickStageModel::Finished { error } => c matches CliStageModel::Finished { error: other } && (
        error is None <==> other is None),
    }
}

proof fn same_search_steps_alike(s: RootSearchModel, t: RootSearchModel, event: EventModel)
    requires
        same_search(s, t),
    ensures
        same_search(s.next(event), t.next(event)),
        s.next(event).status() is Perform ==> t.next(event).status() == s.next(event).status(),
        s.next(event).status() is Done ==> t.next(event).status() == s.next(event).status(),
        s.next(event).status() is Failed <==> t.next(event).status() is Failed,
{
}

/// The quick pipeline with its default configuration is what `--quick` runs.
/// Once `--quick` has found the current directory, both look for the root
/// from there, generate the JSON there with dependencies, turn the directory
/// of JSON into Markdown in `.crates-docs` of the root, and add that folder
/// to the root's `.gitignore`, asking for the same effects, and succeed or
/// fail alike. The one difference: before rendering, `--quick` finds the
/// current directory and the root a second time; where that search ends at
/// the same root, the two are at the same point again.
pub proof fn quick_generate_is_quick_mode(
    cwd: Seq<char>,
    options: CliOptionsModel,
    pipeline: QuickGenerateModel,
    run: CliRunModel,
    event: EventModel,
)
    requires
        pipeline.include_deps,
        pipeline.output_folder == ".crates-docs"@,
        pipeline.update_gitignore,
    ensures
        same_progress(
            quick_start(cwd, true, ".crates-docs"@, true).stage,
            (CliRunModel { options, stage: CliStageModel::QuickCwd }).next(
                EventModel::CurrentDir { path: cwd },
            ).stage,
        ),
        same_progress(pipeline.stage, run.stage) && !(pipeline.stage is Finished)
            ==> pipeline.pending() == run.pending(),
        same_progress(pipeline.stage, run.stage) ==> same_progress(
            pipeline.next(event).stage,
            run.next(event).stage,
        ) || (pipeline.next(event).stage matches QuickStageModel::Rendering { json, .. }
            && run.next(event).stage == (CliStageModel::AllCwd { json_dir: json })),
{
    if same_progress(pipeline.stage, run.stage) {
        match pipeline.stage {
            QuickStageModel::Searching(s) => {
                let t = run.stage->QuickSearching_0;
                same_search_steps_alike(s, t, event);
            },
            _ => {},
        }
    }
}

/// A world that answers each effect in one way: the same effect gets the
/// same event.
pub type World = spec_fn(EffectModel) -> EventModel;

/// A search after `k` of its checks were answered by `world`.
pub open spec fn search_driven(search: RootSearchModel, world: World, k: nat) -> RootSearchModel
    decreases k,
{
    if k == 0 {
        search
    } else {
        search_driven(search.next(world(effect_of(search.status()))), world, (k - 1) as nat)
    }
}

/// A quick pipeline after `n` of its effects were answered by `world`.
pub open spec fn quick_driven(pipeline: QuickGenerateModel, world: World, n: nat) -> QuickGenerateModel
    decreases n,
{
    if n == 0 {
        pipeline
    } else {
        quick_driven(pipeline.next(world(pipeline.pending())), world, (n - 1) as nat)
    }
}

/// A run of the tool after `n` of its effects were answered by `world`.
pub open spec fn cli_driven(run: CliRunModel, world: World, n: nat) -> CliRunModel
    decreases n,
{
    if n == 0 {
        run
    } else {
        cli_driven(run.next(world(run.pending())), world, (n - 1) as nat)
    }
}

/// Both are over, and both succeeded or both failed.
pub open spec fn finished_alike(q: QuickStageModel, c: CliStageModel) -> bool {
    match (q, c) {
        (QuickStageModel::Finished { error: first }, CliStageModel::Finished { error: second }) => (
        first is None <==> second is None),
        _ => false,
    }
}

/// The search for the root around `cwd`, driven by `world`, comes to `root`.
pub open spec fn root_found_from(cwd: Seq<char>, world: World, root: Seq<char>) -> bool {
    exists|k: nat| search_driven(search_here(cwd), world, k) == (RootSearchModel::Found { root })
}

/// `search` is where the search for the root around `cwd` stands after some
/// answers of `world`.
pub open spec fn reached_from(cwd: Seq<char>, world: World, search: RootSearchModel) -> bool {
    exists|k: nat| search_driven(search_here(cwd), world, k) == search
}

proof fn search_driven_last(search: RootSearchModel, world: World, k: nat)
    ensures
        search_driven(search, world, k + 1) == search_driven(search, world, k).next(
            world(effect_of(search_driven(search, world, k).status())),
        ),
    decreases k,
{
    let first = search.next(world(effect_of(search.status())));
    assert(search_driven(search, world, k + 1) == search_driven(first, world, k));
    if k > 0 {
        search_driven_last(first, world, (k - 1) as nat);
        assert(search_driven(search, world, k) == search_driven(first, world, (k - 1) as nat));
        assert((k - 1 + 1) as nat == k);
    } else {
        assert(search_driven(first, world, 0) == first);
    }
}

proof fn search_driven_add(search: RootSearchModel, world: World, a: nat, b: nat)
    ensures
        search_driven(search, world, a + b) == search_driven(search_driven(search, world, a), world, b),
    decreases a,
{
    if a > 0 {
        search_driven_add(search.next(world(effect_of(search.status()))), world, (a - 1) as nat, b);
        assert(search_driven(search, world, a + b) == search_driven(
            search.next(world(effect_of(search.status()))),
            world,
            ((a - 1) + b) as nat,
        ));
    }
}

proof fn search_over_stays(search: RootSearchModel, world: World, k: nat)
    requires
        !(search is Probing),
    ensures
        search_driven(search, world, k) == search,
    decreases k,
{
    if k > 0 {
        search_over_stays(search, world, (k - 1) as nat);
    }
}

proof fn cli_driven_add(run: CliRunModel, world: World, a: nat, b: nat)
    ensures
        cli_driven(run, world, a + b) == cli_driven(cli_driven(run, world, a), world, b),
    decreases a,
{
    if a > 0 {
        cli_driven_add(run.next(world(run.pending())), world, (a - 1) as nat, b);
        assert(cli_driven(run, world, a + b) == cli_driven(
            run.next(world(run.pending())),
            world,
            ((a - 1) + b) as nat,
        ));
    }
}

/// The second search of `--quick`, from the same directory and answered by the
/// same world, comes to the root that the first one found.
proof fn second_search_finds_first_root(
    run: CliRunModel,
    cwd: Seq<char>,
    world: World,
    json: Seq<char>,
    i: nat,
    k0: nat,
    root: Seq<char>,
)
    requires
        run.stage == (CliStageModel::AllSearching {
            json_dir: json,
            search: search_driven(search_here(cwd), world, i),
        }),
        search_driven(search_here(cwd), world, i) is Probing,
        search_driven(search_here(cwd), world, k0) == (RootSearchModel::Found { root }),
    ensures
        exists|m: nat|
            #![trigger cli_driven(run, world, m)]
            cli_driven(run, world, m).stage == (CliStageModel::AllRendering { json_dir: json, root }),
    decreases k0 - i,
{
    let start = search_here(cwd);
    let here = search_driven(start, world, i);
    if k0 <= i {
        search_driven_add(start, world, k0, (i - k0) as nat);
        search_over_stays(search_driven(start, world, k0), world, (i - k0) as nat);
        assert((k0 + (i - k0)) as nat == i);
        assert(false);
    }
    let event = world(run.pending());
    assert(run.pending() == effect_of(here.status()));
    search_driven_last(start, world, i);
    let there = search_driven(start, world, i + 1);
    assert(there == here.next(event));
    let after = run.next(event);
    assert(cli_driven(run, world, 1) == cli_driven(after, world, 0));
    search_driven_add(start, world, i + 1, (k0 - (i + 1)) as nat);
    assert((i + 1 + (k0 - (i + 1))) as nat == k0);
    match there.status() {
        StepModel::Perform(_) => {
            assert(there is Probing);
            second_search_finds_first_root(after, cwd, world, json, i + 1, k0, root);
            let m = choose|m: nat|
                #![trigger cli_driven(after, world, m)]
                cli_driven(after, world, m).stage == (CliStageModel::AllRendering { json_dir: json, root });
            assert(cli_driven(run, world, m + 1) == cli_driven(after, world, m));
        },
        StepModel::Done(found) => {
            search_over_stays(there, world, (k0 - (i + 1)) as nat);
            assert(found == root);
            assert(cli_driven(run, world, 1).stage == (CliStageModel::AllRendering { json_dir: json, root }));
        },
        StepModel::Failed(_) => {
            search_over_stays(there, world, (k0 - (i + 1)) as nat);
            assert(false);
        },
    }
}

/// What holds of a quick pipeline with its default configuration and a
/// `--quick` run, both answered by `world` from the current directory `cwd`.
pub open spec fn quick_mode_invariant(
    pipeline: QuickGenerateModel,
    run: CliRunModel,
    cwd: Seq<char>,
    world: World,
) -> bool {
    &&& pipeline.include_deps
    &&& pipeline.output_folder == ".crates-docs"@
    &&& pipeline.update_gitignore
    &&& world(EffectModel::CurrentDir) == (EventModel::CurrentDir { path: cwd })
    &&& same_progress(pipeline.stage, run.stage)
    &&& run.stage is QuickSearching ==> reached_from(cwd, world, run.stage->QuickSearching_0)
    &&& pipeline.stage is Building ==> root_found_from(cwd, world, pipeline.stage->Building_root)
    &&& pipeline.stage is Rendering ==> root_found_from(cwd, world, pipeline.stage->Rendering_root)
}

proof fn quick_mode_ends_alike(
    pipeline: QuickGenerateModel,
    run: CliRunModel,
    cwd: Seq<char>,
    world: World,
    n: nat,
)
    requires
        quick_mode_invariant(pipeline, run, cwd, world),
        quick_driven(pipeline, world, n).stage is Finished,
    ensures
        exists|m: nat|
            #![trigger cli_driven(run, world, m)]
            finished_alike(quick_driven(pipeline, world, n).stage, cli_driven(run, world, m).stage),
    decreases n,
{
    if pipeline.stage is Finished {
        assert(quick_driven(pipeline, world, n) == pipeline) by {
            quick_finished_stays(pipeline, world, n);
        }
        assert(cli_driven(run, world, 0) == run);
        assert(finished_alike(quick_driven(pipeline, world, n).stage, cli_driven(run, world, 0).stage));
        return;
    }
    if n == 0 {
        return;
    }
    let event = world(pipeline.pending());
    quick_generate_is_quick_mode(cwd, run.options, pipeline, run, event);
    assert(pipeline.pending() == run.pending());
    let next_pipeline = pipeline.next(event);
    let next_run = run.next(event);
    assert(quick_driven(pipeline, world, n) == quick_driven(next_pipeline, world, (n - 1) as nat));
    assert(cli_driven(run, world, 1) == next_run) by {
        assert(cli_driven(run, world, 1) == cli_driven(next_run, world, 0));
    }
    if same_progress(next_pipeline.stage, next_run.stage) {
        assert(quick_mode_invariant(next_pipeline, next_run, cwd, world)) by {
            invariant_steps(pipeline, run, cwd, world, event);
        }
        quick_mode_ends_alike(next_pipeline, next_run, cwd, world, (n - 1) as nat);
        let m = choose|m: nat|
            #![trigger cli_driven(next_run, world, m)]
            finished_alike(quick_driven(next_pipeline, world, (n - 1) as nat).stage, cli_driven(next_run, world, m).stage);
        cli_driven_add(run, world, 1, m);
        assert(finished_alike(quick_driven(pipeline, world, n).stage, cli_driven(run, world, 1 + m).stage));
    } else {
        let json = next_pipeline.stage->Rendering_json;
        let root = next_pipeline.stage->Rendering_root;
        assert(next_run.stage == (CliStageModel::AllCwd { json_dir: json }));
        assert(pipeline.stage is Building);
        assert(root == pipeline.stage->Building_root);
        let k0 = choose|k: nat| search_driven(search_here(cwd), world, k) == (RootSearchModel::Found { root });
        let searching = next_run.next(world(next_run.pending()));
        assert(searching.stage == (CliStageModel::AllSearching {
            json_dir: json,
            search: search_driven(search_here(cwd), world, 0),
        }));
        second_search_finds_first_root(searching, cwd, world, json, 0, k0, root);
        let m1 = choose|m: nat|
            #![trigger cli_driven(searching, world, m)]
            cli_driven(searching, world, m).stage == (CliStageModel::AllRendering { json_dir: json, root });
        let rendering = cli_driven(searching, world, m1);
        assert(quick_mode_invariant(next_pipeline, rendering, cwd, world));
        quick_mode_ends_alike(next_pipeline, rendering, cwd, world, (n - 1) as nat);
        let m2 = choose|m: nat|
            #![trigger cli_driven(rendering, world, m)]
            finished_alike(quick_driven(next_pipeline, world, (n - 1) as nat).stage, cli_driven(rendering, world, m).stage);
        cli_driven_add(searching, world, m1, m2);
        cli_driven_add(next_run, world, 1, m1 + m2);
        assert(cli_driven(next_run, world, 1) == searching) by {
            assert(cli_driven(next_run, world, 1) == cli_driven(searching, world, 0));
        }
        cli_driven_add(run, world, 1, 1 + m1 + m2);
        assert(finished_alike(
            quick_driven(pipeline, world, n).stage,
            cli_driven(run, world, 1 + (1 + m1 + m2)).stage,
        ));
    }
}

proof fn quick_finished_stays(pipeline: QuickGenerateModel, world: World, n: nat)
    requires
        pipeline.stage is Finished,
    ensures
        quick_driven(pipeline, world, n) == pipeline,
    decreases n,
{
    if n > 0 {
        quick_finished_stays(pipeline, world, (n - 1) as nat);
    }
}

/// The invariant survives a step on which the two stay at the same point.
proof fn invariant_steps(
    pipeline: QuickGenerateModel,
    run: CliRunModel,
    cwd: Seq<char>,
    world: World,
    event: EventModel,
)
    requires
        quick_mode_invariant(pipeline, run, cwd, world),
        !(pipeline.stage is Finished),
        event == world(pipeline.pending()),
        same_progress(pipeline.next(event).stage, run.next(event).stage),
    ensures
        quick_mode_invariant(pipeline.next(event), run.next(event), cwd, world),
{
    quick_generate_is_quick_mode(cwd, run.options, pipeline, run, event);
    match run.stage {
        CliStageModel::QuickSearching(t) => {
            let k = choose|k: nat| search_driven(search_here(cwd), world, k) == t;
            search_driven_last(search_here(cwd), world, k);
            assert(event == world(effect_of(t.status())));
            let t2 = t.next(event);
            assert(search_driven(search_here(cwd), world, k + 1) == t2);
            match t2.status() {
                StepModel::Perform(_) => {
                    assert(reached_from(cwd, world, run.next(event).stage->QuickSearching_0));
                },
                StepModel::Done(root) => {
                    assert(t2 == (RootSearchModel::Found { root }));
                    assert(root_found_from(cwd, world, pipeline.next(event).stage->Building_root));
                },
                StepModel::Failed(_) => {},
            }
        },
        _ => {},
    }
}

/// The quick pipeline with its default configuration ends as `--quick` does:
/// where the world answers every effect of both in one way, and the current
/// directory is `cwd`, a pipeline from `cwd` that has ended is matched by a
/// `--quick` run that ends too, after some number of effects, succeeding
/// exactly where the pipeline succeeded.
pub proof fn quick_generate_ends_as_quick_mode(
    cwd: Seq<char>,
    options: CliOptionsModel,
    world: World,
    n: nat,
)
    requires
        world(EffectModel::CurrentDir) == (EventModel::CurrentDir { path: cwd }),
        quick_driven(quick_start(cwd, true, ".crates-docs"@, true), world, n).stage is Finished,
    ensures
        exists|m: nat|
            #![trigger cli_driven(CliRunModel { options, stage: CliStageModel::QuickCwd }, world, m)]
            finished_alike(
                quick_driven(quick_start(cwd, true, ".crates-docs"@, true), world, n).stage,
                cli_driven(CliRunModel { options, stage: CliStageModel::QuickCwd }, world, m).stage,
            ),
{
    let pipeline = quick_start(cwd, true, ".crates-docs"@, true);
    let start = CliRunModel { options, stage: CliStageModel::QuickCwd };
    let searching = start.next(world(start.pending()));
    quick_generate_is_quick_mode(cwd, options, pipeline, start, world(start.pending()));
    assert(searching.stage == CliStageModel::QuickSearching(search_driven(search_here(cwd), world, 0)));
    assert(quick_mode_invariant(pipeline, searching, cwd, world));
    quick_mode_ends_alike(pipeline, searching, cwd, world, n);
    let m = choose|m: nat|
        #![trigger cli_driven(searching, world, m)]
        finished_alike(quick_driven(pipeline, world, n).stage, cli_driven(searching, world, m).stage);
    cli_driven_add(start, world, 1, m);
    assert(cli_driven(start, world, 1) == searching) by {
        assert(cli_driven(start, world, 1) == cli_driven(searching, world, 0));
    }
    assert(finished_alike(quick_driven(pipeline, world, n).stage, cli_driven(start, world, 1 + m).stage));
}

/// Starts `--quick`: document the project around the current directory into
/// its `.crates-docs` folder, generating the JSON with dependencies.
pub fn run_quick(options: CliOptions) -> (r: (CliRun, Effect))
    ensures
        r.0@ == (CliRunModel { options: options@, stage: CliStageModel::QuickCwd }),
        r.1@ == r.0@.pending(),
{
    (CliRun { options, stage: CliStage::QuickCwd }, Effect::CurrentDir)
}

/// Starts the standard mode: read a rustdoc JSON file, given or generated,
/// and print it as Markdown or write it to the output path.
pub fn run_std(options: CliOptions) -> (r: (CliRun, Effect))
    ensures
        r.0@ == (CliRunModel { options: options@, stage: std_start(options@) }),
        r.1@ == r.0@.pending(),
{
    if options.multi_file && options.output.is_none() && !options.generate_json && !options.quick {
        let message = String::from_str("--multi-file requires --output (-o) to be specified");
        let effect = Effect::Finish { error: Some(message.clone()) };
        (CliRun { options, stage: CliStage::Finished { error: Some(message) } }, effect)
    } else if options.generate_json {
        (CliRun { options, stage: CliStage::InputCwd }, Effect::CurrentDir)
    } else {
        match &options.input_json {
            Some(input) => {
                let input = input.clone();
                let effect = Effect::LoadDoc { path: input.clone() };
                (CliRun { options, stage: CliStage::Loading { input } }, effect)
            },
            None => {
                let message = String::from_str(
                    "--input-json (-i) is required unless --generate-json (-g) or --quick is used",
                );
                let effect = Effect::Finish { error: Some(message.clone()) };
                (CliRun { options, stage: CliStage::Finished { error: Some(message) } }, effect)
            },
        }
    }
}

/// Starts the tool on its command line: `--quick` runs the quick mode, and
/// anything else the standard one.
pub fn run(options: CliOptions) -> (r: (CliRun, Effect))
    ensures
        r.0@ == (CliRunModel { options: options@, stage: cli_start(options@) }),
        r.1@ == r.0@.pending(),
{
    if options.quick {
        run_quick(options)
    } else {
        run_std(options)
    }
}

/// Starts generating rustdoc JSON for the project at `project_root`, without
/// its dependencies, yielding the one JSON file it writes.
pub fn generate_json_at(project_root: &str) -> (r: (JsonBuild, Step))
    ensures
        r.0@ == (JsonBuildModel::Nightly { root: project_root@, include_deps: false, locate: true }),
        r.1@ == r.0@.status(),
{
    JsonBuild::single_file(project_root, false)
}

/// A search for the root of the project around `cwd`, failing with the
/// message of the tool.
fn search_from(cwd: String) -> (r: (RootSearch, Step))
    ensures
        r.0@ == search_here(cwd@),
        r.1@ == r.0@.status(),
{
    let not_found = String::from_str("No Cargo.toml found in current directory or any parent directory.");
    RootSearch::probing(cwd, not_found)
}

impl CliRun {
    /// Ends the run with `message`.
    fn fail(&mut self, message: String) -> (r: Effect)
        ensures
            final(self)@ == (CliRunModel { options: old(self)@.options, stage: failed_with(message@) }),
            r@ == final(self)@.pending(),
    {
        self.stage = CliStage::Finished { error: Some(message.clone()) };
        Effect::Finish { error: Some(message) }
    }

    /// Moves to `stage` and names its effect, given as `effect`.
    fn enter(&mut self, stage: CliStage, effect: Effect) -> (r: Effect)
        requires
            effect@ == (CliRunModel { options: old(self)@.options, stage: stage@ }).pending(),
        ensures
            final(self)@ == (CliRunModel { options: old(self)@.options, stage: stage@ }),
            r@ == final(self)@.pending(),
    {
        self.stage = stage;
        effect
    }

    /// The stage after the documentation was loaded, with its effect.
    fn after_loading(&mut self) -> (r: Effect)
        ensures
            final(self)@ == (CliRunModel { options: old(self)@.options, stage: after_loading(old(self)@.options) }),
            r@ == final(self)@.pending(),
    {
        match &self.options.output {
            Some(output) => {
                let output = output.clone();
                let effect = Effect::InspectPath { path: output.clone() };
                self.enter(CliStage::Inspecting { output }, effect)
            },
            None => if self.options.generate_json {
                self.enter(CliStage::OutputCwd, Effect::CurrentDir)
            } else if self.options.quick {
                self.enter(CliStage::OutputRootCwd, Effect::CurrentDir)
            } else {
                self.enter(CliStage::Printing, Effect::PrintDoc)
            },
        }
    }

    /// The stage after the output path was inspected, with its effect.
    fn after_inspecting(&mut self, output: String, exists: bool, is_dir: bool) -> (r: Effect)
        ensures
            final(self)@ == (CliRunModel {
                options: old(self)@.options,
                stage: after_inspecting(old(self)@.options, output@, exists, is_dir),
            }),
            r@ == final(self)@.pending(),
    {
        if self.options.multi_file {
            if exists && !is_dir {
                let message = concat3(
                    "For multi-file output, the output path '",
                    output.as_str(),
                    "' must be a directory, but it's a file.",
                );
                self.fail(message)
            } else {
                let effect = Effect::WriteMultiFile { path: output.clone() };
                self.enter(CliStage::Writing { output }, effect)
            }
        } else {
            if is_dir {
                let message = concat3(
                    "For single-file output, the output path '",
                    output.as_str(),
                    "' must be a file, but it's a directory.",
                );
                self.fail(message)
            } else {
                let effect = Effect::WriteSingleFile { path: output.clone() };
                self.enter(CliStage::Writing { output }, effect)
            }
        }
    }

    /// Takes in the outcome of the pending effect and names the next one.
    pub fn step(&mut self, event: Event) -> (r: Effect)
        ensures
            final(self)@ == old(self)@.next(event@),
            r@ == final(self)@.pending(),
    {
        let mut stage = CliStage::Finished { error: None };
        std::mem::swap(&mut stage, &mut self.stage);
        let ghost was = CliRunModel { options: self.options@, stage: stage@ };
        assert(was == old(self)@);
        match stage {
            CliStage::QuickCwd => match event {
                Event::CurrentDir { path } => {
                    let (search, first) = search_from(path);
                    let effect = effect_of_step(first);
                    self.enter(CliStage::QuickSearching(search), effect)
                },
                Event::Failed { message } => self.fail(message),
                _ => self.enter(CliStage::QuickCwd, Effect::CurrentDir),
            },
            CliStage::QuickSearching(mut search) => match search.step(event) {
                Step::Perform(e) => self.enter(CliStage::QuickSearching(search), e),
                Step::Done(root) => {
                    let (build, first) = generate_rustdoc_json(root.as_str(), true);
                    let effect = effect_of_step(first);
                    self.enter(CliStage::QuickBuilding(build), effect)
                },
                Step::Failed(message) => self.fail(message),
            },
            CliStage::QuickBuilding(mut build) => match build.step(event) {
                Step::Perform(e) => self.enter(CliStage::QuickBuilding(build), e),
                Step::Done(json_dir) => self.enter(CliStage::AllCwd { json_dir }, Effect::CurrentDir),
                Step::Failed(message) => self.fail(message),
            },
            CliStage::AllCwd { json_dir } => match event {
                Event::CurrentDir { path } => {
                    let (search, first) = search_from(path);
                    let effect = effect_of_step(first);
                    self.enter(CliStage::AllSearching { json_dir, search }, effect)
                },
                Event::Failed { message } => self.fail(message),
                _ => self.enter(CliStage::AllCwd { json_dir }, Effect::CurrentDir),
            },
            CliStage::AllSearching { json_dir, mut search } => match search.step(event) {
                Step::Perform(e) => self.enter(CliStage::AllSearching { json_dir, search }, e),
                Step::Done(root) => {
                    let output_dir = join_path(root.as_str(), ".crates-docs");
                    let effect = Effect::RenderMarkdown { json: json_dir.clone(), output_dir };
                    self.enter(CliStage::AllRendering { json_dir, root }, effect)
                },
                Step::Failed(message) => self.fail(message),
            },
            CliStage::AllRendering { json_dir, root } => match event {
                Event::Done => {
                    let (edit, first) = ensure_gitignore(root.as_str(), ".crates-docs");
                    let effect = effect_of_step(first);
                    self.enter(CliStage::AllIgnoring(edit), effect)
                },
                Event::Failed { message } => self.fail(message),
                _ => {
                    let output_dir = join_path(root.as_str(), ".crates-docs");
                    let effect = Effect::RenderMarkdown { json: json_dir.clone(), output_dir };
                    self.enter(CliStage::AllRendering { json_dir, root }, effect)
                },
            },
            CliStage::AllIgnoring(mut edit) => match edit.step(event) {
                Step::Perform(e) => self.enter(CliStage::AllIgnoring(edit), e),
                Step::Done(_) => self.enter(CliStage::Finished { error: None }, Effect::Finish { error: None }),
                Step::Failed(message) => self.fail(message),
            },
            CliStage::InputCwd => match event {
                Event::CurrentDir { path } => {
                    let (build, first) = generate_json_at(path.as_str());
                    let effect = effect_of_step(first);
                    self.enter(CliStage::InputBuilding(build), effect)
                },
                Event::Failed { message } => self.fail(message),
                _ => self.enter(CliStage::InputCwd, Effect::CurrentDir),
            },
            CliStage::InputBuilding(mut build) => match build.step(event) {
                Step::Perform(e) => self.enter(CliStage::InputBuilding(build), e),
                Step::Done(input) => {
                    let effect = Effect::LoadDoc { path: input.clone() };
                    self.enter(CliStage::Loading { input }, effect)
                },
                Step::Failed(message) => self.fail(message),
            },
            CliStage::Loading { input } => match event {
                Event::Done => self.after_loading(),
                Event::Failed { message } => self.fail(message),
                _ => {
                    let effect = Effect::LoadDoc { path: input.clone() };
                    self.enter(CliStage::Loading { input }, effect)
                },
            },
            CliStage::OutputCwd => match event {
                Event::CurrentDir { path } => {
                    let effect = Effect::WriteMultiFile { path: path.clone() };
                    self.enter(CliStage::WritingFolder { output: path }, effect)
                },
                Event::Failed { message } => self.fail(message),
                _ => self.enter(CliStage::OutputCwd, Effect::CurrentDir),
            },
            CliStage::OutputRootCwd => match event {
                Event::CurrentDir { path } => {
                    let (search, first) = search_from(path);
                    let effect = effect_of_step(first);
                    self.enter(CliStage::OutputSearching(search), effect)
                },
                Event::Failed { message } => self.fail(message),
                _ => self.enter(CliStage::OutputRootCwd, Effect::CurrentDir),
            },
            CliStage::OutputSearching(mut search) => match search.step(event) {
                Step::Perform(e) => self.enter(CliStage::OutputSearching(search), e),
                Step::Done(root) => {
                    let effect = Effect::InspectPath { path: root.clone() };
                    self.enter(CliStage::Inspecting { output: root }, effect)
                },
                Step::Failed(message) => self.fail(message),
            },
            CliStage::Printing => match event {
                Event::Done => self.enter(CliStage::Finished { error: None }, Effect::Finish { error: None }),
                Event::Failed { message } => self.fail(message),
                _ => self.enter(CliStage::Printing, Effect::PrintDoc),
            },
            CliStage::Inspecting { output } => match event {
                Event::PathInspected { exists, is_dir } => self.after_inspecting(output, exists, is_dir),
                Event::Failed { message } => self.fail(message),
                _ => {
                    let effect = Effect::InspectPath { path: output.clone() };
                    self.enter(CliStage::Inspecting { output }, effect)
                },
            },
            CliStage::Writing { output } => match event {
                Event::Done => self.enter(CliStage::Finished { error: None }, Effect::Finish { error: None }),
                Event::Failed { message } => self.fail(message),
                _ => {
                    let effect = if self.options.multi_file {
                        Effect::WriteMultiFile { path: output.clone() }
                    } else {
                        Effect::WriteSingleFile { path: output.clone() }
                    };
                    self.enter(CliStage::Writing { output }, effect)
                },
            },
            CliStage::WritingFolder { output } => match event {
                Event::Done => self.enter(CliStage::Finished { error: None }, Effect::Finish { error: None }),
                Event::Failed { message } => self.fail(message),
                _ => {
                    let effect = Effect::WriteMultiFile { path: output.clone() };
                    self.enter(CliStage::WritingFolder { output }, effect)
                },
            },
            CliStage::Finished { error } => {
                let again = match &error {
                    Some(m) => Some(m.clone()),
                    None => None,
                };
                self.enter(CliStage::Finished { error }, Effect::Finish { error: again })
            },
        }
    }
}

} // verus!
