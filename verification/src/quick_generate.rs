//! The quick pipeline: from a directory inside a Cargo project to Markdown
//! documentation in a folder of the project.

use vstd::prelude::*;

use crate::effects::{effect_of, effect_of_step, Effect, EffectModel, Event, EventModel, Step, StepModel};
use crate::gitignore::{ensure_gitignore, gitignore_path, has_line, GitignoreEdit, GitignoreEditModel};
use crate::paths::{join_path, joined_path};
use crate::root_search::{find_project_root, no_root_message, RootSearch, RootSearchModel};
use crate::rustdoc_json::{generate_rustdoc_json, JsonBuild, JsonBuildModel};
use crate::text::trim_end;

verus! {

/// The folder, inside the project root, where the quick pipeline writes.
pub const QUICK_OUTPUT_FOLDER: &'static str = ".crates-docs";

/// How the quick pipeline runs.
#[derive(Debug, Clone, PartialEq, Eq)]
pub struct QuickGenerateConfig {
    /// Document the dependencies too, rather than pass `--no-deps` to
    /// `cargo doc`.
    pub include_deps: bool,
    /// The folder, inside the project root, where the Markdown is written.
    pub output_folder: String,
    /// Add the output folder to the project's `.gitignore`.
    pub update_gitignore: bool,
}

impl Default for QuickGenerateConfig {
    /// Dependencies documented, output to `.crates-docs`, `.gitignore`
    /// updated.
    fn default() -> (r: Self)
        ensures
            r.include_deps,
            r.output_folder@ == ".crates-docs"@,
            r.update_gitignore,
    {
        QuickGenerateConfig {
            include_deps: true,
            output_folder: String::from_str(".crates-docs"),
            update_gitignore: true,
        }
    }
}

/// Where a quick pipeline stands.
pub enum QuickStage {
    /// Finding the project root.
    Searching(RootSearch),
    /// Generating rustdoc JSON in the project at `root`.
    Building { root: String, build: JsonBuild },
    /// Turning the rustdoc JSON in the directory `json` into Markdown.
    Rendering { root: String, json: String },
    /// Adding the output folder to `.gitignore`.
    Ignoring(GitignoreEdit),
    /// Over: it succeeded where `error` is `None`.
    Finished { error: Option<String> },
}

/// The mathematical value of a [`QuickStage`].
pub enum QuickStageModel {
    Searching(RootSearchModel),
    Building { root: Seq<char>, build: JsonBuildModel },
    Rendering { root: Seq<char>, json: Seq<char> },
    Ignoring(GitignoreEditModel),
    Finished { error: Option<Seq<char>> },
}

/// A run of the quick pipeline.
pub struct QuickGenerate {
    include_deps: bool,
    output_folder: String,
    update_gitignore: bool,
    stage: QuickStage,
}

/// The mathematical value of a [`QuickGenerate`].
pub struct QuickGenerateModel {
    pub include_deps: bool,
    pub output_folder: Seq<char>,
    pub update_gitignore: bool,
    pub stage: QuickStageModel,
}

impl View for QuickStage {
    type V = QuickStageModel;

    open spec fn view(&self) -> QuickStageModel {
        match self {
            QuickStage::Searching(s) => QuickStageModel::Searching(s@),
            QuickStage::Building { root, build } => QuickStageModel::Building {
                root: root@,
                build: build@,
            },
            QuickStage::Rendering { root, json } => QuickStageModel::Rendering {
                root: root@,
                json: json@,
            },
            QuickStage::Ignoring(g) => QuickStageModel::Ignoring(g@),
            QuickStage::Finished { error } => QuickStageModel::Finished {
                error: crate::effects::option_chars(*error),
            },
        }
    }
}

impl View for QuickGenerate {
    type V = QuickGenerateModel;

    closed spec fn view(&self) -> QuickGenerateModel {
        QuickGenerateModel {
            include_deps: self.include_deps,
            output_folder: self.output_folder@,
            update_gitignore: self.update_gitignore,
            stage: self.stage@,
        }
    }
}

/// The quick pipeline as it starts from `start`: looking for the project root.
pub open spec fn quick_start(
    start: Seq<char>,
    include_deps: bool,
    output_folder: Seq<char>,
    update_gitignore: bool,
) -> QuickGenerateModel {
    QuickGenerateModel {
        include_deps,
        output_folder,
        update_gitignore,
        stage: QuickStageModel::Searching(
            RootSearchModel::Probing { current: start, not_found: no_root_message(start) },
        ),
    }
}

impl QuickGenerateModel {
    /// The effect that the pipeline needs next.
    pub open spec fn pending(self) -> EffectModel {
        match self.stage {
            QuickStageModel::Searching(s) => effect_of(s.status()),
            QuickStageModel::Building { build, .. } => effect_of(build.status()),
            QuickStageModel::Rendering { root, json } => EffectModel::RenderMarkdown {
                json,
                output_dir: joined_path(root, self.output_folder),
            },
            QuickStageModel::Ignoring(g) => effect_of(g.status()),
            QuickStageModel::Finished { error } => EffectModel::Finish { error },
        }
    }

    /// The stage after `event`. The root found starts the JSON generation
    /// there; the JSON written there is turned into Markdown in the output
    /// folder of the root; then, where asked, the output folder is added to the
    /// root's `.gitignore`. Any error ends the run with it.
    pub open spec fn next_stage(self, event: EventModel) -> QuickStageModel {
        match self.stage {
            QuickStageModel::Searching(s) => match s.next(event).status() {
                StepModel::Perform(_) => QuickStageModel::Searching(s.next(event)),
                StepModel::Done(root) => QuickStageModel::Building {
                    root,
                    build: JsonBuildModel::Nightly { root, include_deps: self.include_deps, locate: false },
                },
                StepModel::Failed(message) => QuickStageModel::Finished { error: Some(message) },
            },
            QuickStageModel::Building { root, build } => match build.next(event).status() {
                StepModel::Perform(_) => QuickStageModel::Building { root, build: build.next(event) },
                StepModel::Done(json) => QuickStageModel::Rendering { root, json },
                StepModel::Failed(message) => QuickStageModel::Finished { error: Some(message) },
            },
            QuickStageModel::Rendering { root, .. } => match event {
                EventModel::Done => if self.update_gitignore {
                    QuickStageModel::Ignoring(
                        GitignoreEditModel::Checking {
                            path: gitignore_path(root),
                            entry: self.output_folder,
                        },
                    )
                } else {
                    QuickStageModel::Finished { error: None }
                },
                EventModel::Failed { message } => QuickStageModel::Finished { error: Some(message) },
                _ => self.stage,
            },
            QuickStageModel::Ignoring(g) => match g.next(event).status() {
                StepModel::Perform(_) => QuickStageModel::Ignoring(g.next(event)),
                StepModel::Done(_) => QuickStageModel::Finished { error: None },
                StepModel::Failed(message) => QuickStageModel::Finished { error: Some(message) },
            },
            QuickStageModel::Finished { .. } => self.stage,
        }
    }

    /// The pipeline after `event`.
    pub open spec fn next(self, event: EventModel) -> QuickGenerateModel {
        QuickGenerateModel { stage: self.next_stage(event), ..self }
    }

    /// The pipeline after `events`, in order.
    pub open spec fn run(self, events: Seq<EventModel>) -> QuickGenerateModel
        decreases events.len(),
    {
        if events.len() == 0 {
            self
        } else {
            self.run(events.drop_last()).next(events.last())
        }
    }
}

/// A pipeline that is not to update `.gitignore` never asks to read or write
/// a file, whatever the outcomes of its effects.
pub proof fn quick_generate_leaves_gitignore_alone(
    start: Seq<char>,
    include_deps: bool,
    output_folder: Seq<char>,
    events: Seq<EventModel>,
)
    ensures
        !(quick_start(start, include_deps, output_folder, false).run(events).pending() is WriteFile),
        !(quick_start(start, include_deps, output_folder, false).run(events).pending() is ReadFile),
        !(quick_start(start, include_deps, output_folder, false).run(events).stage is Ignoring),
        !quick_start(start, include_deps, output_folder, false).run(events).update_gitignore,
    decreases events.len(),
{
    let started = quick_start(start, include_deps, output_folder, false);
    if events.len() > 0 {
        quick_generate_leaves_gitignore_alone(start, include_deps, output_folder, events.drop_last());
    }
    let current = started.run(events);
    match current.stage {
        QuickStageModel::Searching(s) => {
            assert(!(s.status() matches StepModel::Perform(EffectModel::WriteFile { .. })));
        },
        QuickStageModel::Building { build, .. } => {
            assert(!(build.status() matches StepModel::Perform(EffectModel::WriteFile { .. })));
        },
        _ => {},
    }
}

/// A pipeline that is to update `.gitignore` adds its own output folder there,
/// whatever that folder is, once the Markdown is rendered: it looks for the
/// `.gitignore` of the project root; a missing one is created holding the
/// folder and a line feed; an existing one is read, left alone where a line of
/// it already names the folder, and else written back without its trailing
/// white space, with a line feed and the folder after it.
pub proof fn quick_generate_ignores_its_output_folder(
    pipeline: QuickGenerateModel,
    root: Seq<char>,
    json: Seq<char>,
    text: Seq<char>,
)
    requires
        pipeline.update_gitignore,
        pipeline.stage == (QuickStageModel::Rendering { root, json }),
    ensures
        ({
            let ignore_file = joined_path(root, ".gitignore"@);
            let rendered = pipeline.next(EventModel::Done);
            let missing = rendered.next(EventModel::FileExists { exists: false });
            let present = rendered.next(EventModel::FileExists { exists: true });
            let read = present.next(EventModel::FileRead { contents: text });
            &&& rendered.stage == QuickStageModel::Ignoring(
                GitignoreEditModel::Checking { path: ignore_file, entry: pipeline.output_folder },
            )
            &&& rendered.pending() == (EffectModel::CheckFile { path: ignore_file })
            &&& missing.pending() == (EffectModel::WriteFile {
                path: ignore_file,
                contents: pipeline.output_folder + seq!['\n'],
            })
            &&& present.pending() == (EffectModel::ReadFile { path: ignore_file })
            &&& read.pending() == if has_line(text, pipeline.output_folder) {
                EffectModel::Finish { error: None }
            } else {
                EffectModel::WriteFile {
                    path: ignore_file,
                    contents: trim_end(text) + seq!['\n'] + pipeline.output_folder,
                }
            }
            &&& missing.next(EventModel::Done).pending() == (EffectModel::Finish { error: None })
        }),
{
}

/// The pipeline works as configured: once the project root is found it runs
/// the nightly `cargo doc` there, passing `--no-deps` exactly where the
/// dependencies are not to be documented, and the JSON is rendered into its
/// own output folder of that root.
pub proof fn quick_generate_follows_its_configuration(
    pipeline: QuickGenerateModel,
    search: RootSearchModel,
    event: EventModel,
    root: Seq<char>,
    json: Seq<char>,
)
    requires
        pipeline.stage == QuickStageModel::Searching(search),
        search.next(event).status() == StepModel::Done(root),
    ensures
        pipeline.next(event).pending() == (EffectModel::RunShell {
            command: if pipeline.include_deps {
                "RUSTDOCFLAGS=\"-Z unstable-options --output-format json\" cargo doc"@
                    + " 2>&1 >/dev/null"@
            } else {
                "RUSTDOCFLAGS=\"-Z unstable-options --output-format json\" cargo doc"@
                    + " --no-deps"@ + " 2>&1 >/dev/null"@
            },
            dir: root,
        }),
        (QuickGenerateModel { stage: QuickStageModel::Rendering { root, json }, ..pipeline }).pending()
            == (EffectModel::RenderMarkdown { json, output_dir: joined_path(root, pipeline.output_folder) }),
{
    crate::rustdoc_json::no_deps_is_the_only_difference();
}

/// Starts the quick pipeline from `start_dir` with `config`: find the project
/// root, generate rustdoc JSON there, turn it into Markdown in the output
/// folder of the root, and add that folder to the root's `.gitignore` where
/// the configuration asks for it.
pub fn quick_generate_with_config(start_dir: &str, config: QuickGenerateConfig) -> (r: (
    QuickGenerate,
    Effect,
))
    ensures
        r.0@ == quick_start(
            start_dir@,
            config.include_deps,
            config.output_folder@,
            config.update_gitignore,
        ),
        r.1@ == r.0@.pending(),
{
    let (search, step) = find_project_root(start_dir);
    let pipeline = QuickGenerate {
        include_deps: config.include_deps,
        output_folder: config.output_folder,
        update_gitignore: config.update_gitignore,
        stage: QuickStage::Searching(search),
    };
    (pipeline, effect_of_step(step))
}

/// Starts the quick pipeline from `start_dir` with the default configuration:
/// dependencies documented, output to `.crates-docs`, `.gitignore` updated.
pub fn quick_generate(start_dir: &str) -> (r: (QuickGenerate, Effect))
    ensures
        r.0@ == quick_start(start_dir@, true, ".crates-docs"@, true),
        r.1@ == r.0@.pending(),
{
    quick_generate_with_config(start_dir, QuickGenerateConfig::default())
}

impl QuickGenerate {
    /// Takes in the outcome of the pending effect and names the next one.
    pub fn step(&mut self, event: Event) -> (r: Effect)
        ensures
            final(self)@ == old(self)@.next(event@),
            r@ == final(self)@.pending(),
    {
        let mut stage = QuickStage::Finished { error: None };
        std::mem::swap(&mut stage, &mut self.stage);
        match stage {
            QuickStage::Searching(mut search) => match search.step(event) {
                Step::Perform(e) => {
                    self.stage = QuickStage::Searching(search);
                    e
                },
                Step::Done(root) => {
                    let (build, first) = generate_rustdoc_json(root.as_str(), self.include_deps);
                    self.stage = QuickStage::Building { root, build };
                    effect_of_step(first)
                },
                Step::Failed(message) => {
                    self.stage = QuickStage::Finished { error: Some(message.clone()) };
                    Effect::Finish { error: Some(message) }
                },
            },
            QuickStage::Building { root, mut build } => match build.step(event) {
                Step::Perform(e) => {
                    self.stage = QuickStage::Building { root, build };
                    e
                },
                Step::Done(json) => {
                    let output_dir = join_path(root.as_str(), self.output_folder.as_str());
                    self.stage = QuickStage::Rendering { root, json: json.clone() };
                    Effect::RenderMarkdown { json, output_dir }
                },
                Step::Failed(message) => {
                    self.stage = QuickStage::Finished { error: Some(message.clone()) };
                    Effect::Finish { error: Some(message) }
                },
            },
            QuickStage::Rendering { root, json } => match event {
                Event::Done => if self.update_gitignore {
                    let (edit, first) = ensure_gitignore(root.as_str(), self.output_folder.as_str());
                    self.stage = QuickStage::Ignoring(edit);
                    effect_of_step(first)
                } else {
                    self.stage = QuickStage::Finished { error: None };
                    Effect::Finish { error: None }
                },
                Event::Failed { message } => {
                    self.stage = QuickStage::Finished { error: Some(message.clone()) };
                    Effect::Finish { error: Some(message) }
                },
                _ => {
                    let output_dir = join_path(root.as_str(), self.output_folder.as_str());
                    self.stage = QuickStage::Rendering { root, json: json.clone() };
                    Effect::RenderMarkdown { json, output_dir }
                },
            },
            QuickStage::Ignoring(mut edit) => match edit.step(event) {
                Step::Perform(e) => {
                    self.stage = QuickStage::Ignoring(edit);
                    e
                },
                Step::Done(_) => {
                    self.stage = QuickStage::Finished { error: None };
                    Effect::Finish { error: None }
                },
                Step::Failed(message) => {
                    self.stage = QuickStage::Finished { error: Some(message.clone()) };
                    Effect::Finish { error: Some(message) }
                },
            },
            QuickStage::Finished { error } => {
                let again = match &error {
                    Some(m) => Some(m.clone()),
                    None => None,
                };
                self.stage = QuickStage::Finished { error };
                Effect::Finish { error: again }
            },
        }
    }
}

} // verus!
