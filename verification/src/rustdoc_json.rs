//! Generating rustdoc JSON with `cargo doc`: nightly first, then stable with
//! `RUSTC_BOOTSTRAP=1`; the result is the output directory or, where one
//! file is wanted, the JSON file written there.

use vstd::prelude::*;

use crate::effects::{Effect, EffectModel, Event, EventModel, Step, StepModel};
use crate::json_output::{find_json_output, json_output};
use crate::paths::{join_path, joined_path};
use crate::text::{concat, concat3};

verus! {

/// What `cargo doc` is told about dependencies: nothing where they are to be
/// documented, `--no-deps` where not.
pub open spec fn deps_flag(include_deps: bool) -> Seq<char> {
    if include_deps {
        Seq::empty()
    } else {
        " --no-deps"@
    }
}

/// The shell command that asks a nightly rustdoc for JSON, silencing all output.
pub open spec fn nightly_command(include_deps: bool) -> Seq<char> {
    "RUSTDOCFLAGS=\"-Z unstable-options --output-format json\" cargo doc"@ + deps_flag(include_deps)
        + " 2>&1 >/dev/null"@
}

/// The shell command that falls back to a stable toolchain with
/// `RUSTC_BOOTSTRAP=1`, asking it for JSON in the same way, silencing all
/// output.
pub open spec fn stable_command(include_deps: bool) -> Seq<char> {
    "RUSTC_BOOTSTRAP=1 RUSTDOCFLAGS=\"-Z unstable-options --output-format json\" cargo doc"@ + deps_flag(include_deps) + " 2>&1 >/dev/null"@
}

/// The directory where `cargo doc` writes, in the project at `root`.
pub open spec fn doc_dir(root: Seq<char>) -> Seq<char> {
    joined_path(joined_path(root, "target"@), "doc"@)
}

/// The error when the stable fallback failed too; `stderr` is what it wrote
/// there.
pub open spec fn generation_failed_message(stderr: Seq<char>) -> Seq<char> {
    "rustdoc JSON generation failed (even with RUSTC_BOOTSTRAP=1):\n"@ + stderr
}

/// Passing `include_deps` as false changes the commands in one way only:
/// they pass `--no-deps` to `cargo doc`.
pub proof fn no_deps_is_the_only_difference()
    ensures
        nightly_command(false) == "RUSTDOCFLAGS=\"-Z unstable-options --output-format json\" cargo doc"@
            + " --no-deps"@ + " 2>&1 >/dev/null"@,
        nightly_command(true) == "RUSTDOCFLAGS=\"-Z unstable-options --output-format json\" cargo doc"@
            + " 2>&1 >/dev/null"@,
        stable_command(false) == "RUSTC_BOOTSTRAP=1 RUSTDOCFLAGS=\"-Z unstable-options --output-format json\" cargo doc"@ + " --no-deps"@ + " 2>&1 >/dev/null"@,
        stable_command(true) == "RUSTC_BOOTSTRAP=1 RUSTDOCFLAGS=\"-Z unstable-options --output-format json\" cargo doc"@ + " 2>&1 >/dev/null"@,
{
    assert(nightly_command(true) =~= "RUSTDOCFLAGS=\"-Z unstable-options --output-format json\" cargo doc"@
        + " 2>&1 >/dev/null"@);
    assert(stable_command(true) =~= "RUSTC_BOOTSTRAP=1 RUSTDOCFLAGS=\"-Z unstable-options --output-format json\" cargo doc"@ + " 2>&1 >/dev/null"@);
}

/// The nightly command, built.
pub fn nightly_doc_command(include_deps: bool) -> (r: String)
    ensures
        r@ == nightly_command(include_deps),
{
    if include_deps {
        let r = concat("RUSTDOCFLAGS=\"-Z unstable-options --output-format json\" cargo doc", " 2>&1 >/dev/null");
        assert(r@ =~= nightly_command(include_deps));
        r
    } else {
        concat3(
            "RUSTDOCFLAGS=\"-Z unstable-options --output-format json\" cargo doc",
            " --no-deps",
            " 2>&1 >/dev/null",
        )
    }
}

/// The stable fallback command, built.
pub fn stable_doc_command(include_deps: bool) -> (r: String)
    ensures
        r@ == stable_command(include_deps),
{
    if include_deps {
        let r = concat("RUSTC_BOOTSTRAP=1 RUSTDOCFLAGS=\"-Z unstable-options --output-format json\" cargo doc", " 2>&1 >/dev/null");
        assert(r@ =~= stable_command(include_deps));
        r
    } else {
        concat3("RUSTC_BOOTSTRAP=1 RUSTDOCFLAGS=\"-Z unstable-options --output-format json\" cargo doc", " --no-deps", " 2>&1 >/dev/null")
    }
}

/// The directory where `cargo doc` writes, built.
pub fn doc_dir_of(root: &str) -> (r: String)
    ensures
        r@ == doc_dir(root@),
{
    let target = join_path(root, "target");
    join_path(target.as_str(), "doc")
}

/// A run of `cargo doc` that yields rustdoc JSON.
pub enum JsonBuild {
    /// Running the nightly command in the project at `root`; `locate` tells
    /// whether the JSON file is to be found in the output directory, or the
    /// directory itself is the result.
    Nightly { root: String, include_deps: bool, locate: bool },
    /// Running the stable fallback.
    Stable { root: String, include_deps: bool, locate: bool },
    /// Reading the output directory for the JSON file.
    Locating { root: String },
    Built { path: String },
    Failed { message: String },
}

/// The mathematical value of a [`JsonBuild`].
pub enum JsonBuildModel {
    Nightly { root: Seq<char>, include_deps: bool, locate: bool },
    Stable { root: Seq<char>, include_deps: bool, locate: bool },
    Locating { root: Seq<char> },
    Built { path: Seq<char> },
    Failed { message: Seq<char> },
}

impl View for JsonBuild {
    type V = JsonBuildModel;

    open spec fn view(&self) -> JsonBuildModel {
        match self {
            JsonBuild::Nightly { root, include_deps, locate } => JsonBuildModel::Nightly {
                root: root@,
                include_deps: *include_deps,
                locate: *locate,
            },
            JsonBuild::Stable { root, include_deps, locate } => JsonBuildModel::Stable {
                root: root@,
                include_deps: *include_deps,
                locate: *locate,
            },
            JsonBuild::Locating { root } => JsonBuildModel::Locating { root: root@ },
            JsonBuild::Built { path } => JsonBuildModel::Built { path: path@ },
            JsonBuild::Failed { message } => JsonBuildModel::Failed { message: message@ },
        }
    }
}

/// After a command succeeded: find the JSON file, or yield the directory.
pub open spec fn after_success(root: Seq<char>, locate: bool) -> JsonBuildModel {
    if locate {
        JsonBuildModel::Locating { root }
    } else {
        JsonBuildModel::Built { path: doc_dir(root) }
    }
}

impl JsonBuildModel {
    /// What the run needs next.
    pub open spec fn status(self) -> StepModel {
        match self {
            JsonBuildModel::Nightly { root, include_deps, .. } => StepModel::Perform(
                EffectModel::RunShell { command: nightly_command(include_deps), dir: root },
            ),
            JsonBuildModel::Stable { root, include_deps, .. } => StepModel::Perform(
                EffectModel::RunShell { command: stable_command(include_deps), dir: root },
            ),
            JsonBuildModel::Locating { root } => StepModel::Perform(
                EffectModel::ListDir { path: doc_dir(root) },
            ),
            JsonBuildModel::Built { path } => StepModel::Done(path),
            JsonBuildModel::Failed { message } => StepModel::Failed(message),
        }
    }

    /// The run after `event`. A nightly command that failed, or could not
    /// start, gives way to the stable one; a stable one that failed ends the
    /// run with its error output; either that succeeded moves on to the
    /// output directory. An event that answers nothing pending changes
    /// nothing.
    pub open spec fn next(self, event: EventModel) -> JsonBuildModel {
        match self {
            JsonBuildModel::Nightly { root, include_deps, locate } => match event {
                EventModel::ShellFinished { success, .. } => if success {
                    after_success(root, locate)
                } else {
                    JsonBuildModel::Stable { root, include_deps, locate }
                },
                EventModel::Failed { .. } => JsonBuildModel::Stable { root, include_deps, locate },
                _ => self,
            },
            JsonBuildModel::Stable { root, locate, .. } => match event {
                EventModel::ShellFinished { success, stderr } => if success {
                    after_success(root, locate)
                } else {
                    JsonBuildModel::Failed { message: generation_failed_message(stderr) }
                },
                EventModel::Failed { message } => JsonBuildModel::Failed { message },
                _ => self,
            },
            JsonBuildModel::Locating { root } => match event {
                EventModel::Listed { names } => match json_output(doc_dir(root), names) {
                    Ok(path) => JsonBuildModel::Built { path },
                    Err(message) => JsonBuildModel::Failed { message },
                },
                EventModel::Failed { message } => JsonBuildModel::Failed { message },
                _ => self,
            },
            _ => self,
        }
    }

    /// The run after `events`, in order.
    pub open spec fn run(self, events: Seq<EventModel>) -> JsonBuildModel
        decreases events.len(),
    {
        if events.len() == 0 {
            self
        } else {
            self.run(events.drop_last()).next(events.last())
        }
    }
}

/// Some event of `events` is a shell command that reported success.
pub open spec fn some_command_succeeded(events: Seq<EventModel>) -> bool {
    exists|i: int| 0 <= i < events.len() && (#[trigger] events[i] matches EventModel::ShellFinished {
        success,
        ..
    } && success)
}

/// When the stable fallback fails, the run fails, whatever the command wrote
/// to its error output, nothing included: the error names the fallback and
/// carries that output. So when both commands fail, the run ends with that
/// error and yields no path.
pub proof fn failed_fallback_fails_the_run(
    root: Seq<char>,
    include_deps: bool,
    locate: bool,
    nightly_stderr: Seq<char>,
    stderr: Seq<char>,
)
    ensures
        ({
            let message = "rustdoc JSON generation failed (even with RUSTC_BOOTSTRAP=1):\n"@ + stderr;
            let stable = JsonBuildModel::Stable { root, include_deps, locate };
            let nightly = JsonBuildModel::Nightly { root, include_deps, locate };
            &&& stable.next(EventModel::ShellFinished { success: false, stderr }) == (JsonBuildModel::Failed {
                message,
            })
            &&& stable.next(EventModel::ShellFinished { success: false, stderr }).status()
                == StepModel::Failed(message)
            &&& nightly.next(EventModel::ShellFinished { success: false, stderr: nightly_stderr }).next(
                EventModel::ShellFinished { success: false, stderr },
            ).status() == StepModel::Failed(message)
        }),
{
}

/// A run that starts with a command yields a path, or gets as far as looking
/// for the JSON file, only after some command reported success: no error, and
/// no failed command, whatever its output, leads there.
pub proof fn built_only_after_a_command_succeeded(start: JsonBuildModel, events: Seq<EventModel>)
    requires
        start is Nightly || start is Stable,
    ensures
        start.run(events) is Built || start.run(events) is Locating ==> some_command_succeeded(events),
    decreases events.len(),
{
    if events.len() > 0 {
        let before = events.drop_last();
        built_only_after_a_command_succeeded(start, before);
        let last = events.len() - 1;
        if some_command_succeeded(before) {
            let i = choose|i: int| 0 <= i < before.len() && (#[trigger] before[i] matches EventModel::ShellFinished {
                success,
                ..
            } && success);
            assert(events[i] == before[i]);
        } else if start.run(events) is Built || start.run(events) is Locating {
            assert(events[last] == events.last());
        }
    }
}

/// The stable command runs only as the fallback of a nightly one that failed:
/// no other step of a run leads to it, and the run starts with the nightly one.
pub proof fn stable_runs_only_after_nightly_failed(build: JsonBuildModel, event: EventModel)
    ensures
        build.next(event) is Stable ==> build == build.next(event) || (build is Nightly && (
        event matches EventModel::ShellFinished { success, .. } && !success || event is Failed)),
{
}

/// Starts generating rustdoc JSON for the project at `project_root`, with its
/// dependencies where `include_deps` holds: the nightly command first, then
/// the stable fallback; the result is the `target/doc` directory where the
/// JSON was written.
pub fn generate_rustdoc_json(project_root: &str, include_deps: bool) -> (r: (JsonBuild, Step))
    ensures
        r.0@ == (JsonBuildModel::Nightly { root: project_root@, include_deps, locate: false }),
        r.1@ == r.0@.status(),
{
    let build = JsonBuild::Nightly { root: String::from_str(project_root), include_deps, locate: false };
    let step = build.status();
    (build, step)
}

impl JsonBuild {
    /// Starts generating rustdoc JSON for the project at `project_root`, as
    /// `generate_rustdoc_json` does, but yields the one JSON file of the
    /// output directory.
    pub fn single_file(project_root: &str, include_deps: bool) -> (r: (JsonBuild, Step))
        ensures
            r.0@ == (JsonBuildModel::Nightly { root: project_root@, include_deps, locate: true }),
            r.1@ == r.0@.status(),
    {
        let build = JsonBuild::Nightly { root: String::from_str(project_root), include_deps, locate: true };
        let step = build.status();
        (build, step)
    }

    /// Where the run stands.
    pub fn status(&self) -> (r: Step)
        ensures
            r@ == self@.status(),
    {
        match self {
            JsonBuild::Nightly { root, include_deps, .. } => Step::Perform(
                Effect::RunShell { command: nightly_doc_command(*include_deps), dir: root.clone() },
            ),
            JsonBuild::Stable { root, include_deps, .. } => Step::Perform(
                Effect::RunShell { command: stable_doc_command(*include_deps), dir: root.clone() },
            ),
            JsonBuild::Locating { root } => Step::Perform(
                Effect::ListDir { path: doc_dir_of(root.as_str()) },
            ),
            JsonBuild::Built { path } => Step::Done(path.clone()),
            JsonBuild::Failed { message } => Step::Failed(message.clone()),
        }
    }

    fn after_success(root: &String, locate: bool) -> (r: JsonBuild)
        ensures
            r@ == after_success(root@, locate),
    {
        if locate {
            JsonBuild::Locating { root: root.clone() }
        } else {
            JsonBuild::Built { path: doc_dir_of(root.as_str()) }
        }
    }

    /// Takes in the outcome of the pending effect.
    pub fn step(&mut self, event: Event) -> (r: Step)
        ensures
            final(self)@ == old(self)@.next(event@),
            r@ == final(self)@.status(),
    {
        let replaced: Option<JsonBuild> = match &*self {
            JsonBuild::Nightly { root, include_deps, locate } => match event {
                Event::ShellFinished { success, .. } => if success {
                    Some(JsonBuild::after_success(root, *locate))
                } else {
                    Some(JsonBuild::Stable { root: root.clone(), include_deps: *include_deps, locate: *locate })
                },
                Event::Failed { .. } => Some(
                    JsonBuild::Stable { root: root.clone(), include_deps: *include_deps, locate: *locate },
                ),
                _ => None,
            },
            JsonBuild::Stable { root, locate, .. } => match event {
                Event::ShellFinished { success, stderr } => if success {
                    Some(JsonBuild::after_success(root, *locate))
                } else {
                    let message = concat(
                        "rustdoc JSON generation failed (even with RUSTC_BOOTSTRAP=1):\n",
                        stderr.as_str(),
                    );
                    Some(JsonBuild::Failed { message })
                },
                Event::Failed { message } => Some(JsonBuild::Failed { message }),
                _ => None,
            },
            JsonBuild::Locating { root } => match event {
                Event::Listed { names } => {
                    let dir = doc_dir_of(root.as_str());
                    match find_json_output(dir.as_str(), &names) {
                        Ok(path) => Some(JsonBuild::Built { path }),
                        Err(message) => Some(JsonBuild::Failed { message }),
                    }
                },
                Event::Failed { message } => Some(JsonBuild::Failed { message }),
                _ => None,
            },
            _ => None,
        };
        if let Some(n) = replaced {
            *self = n;
        }
        self.status()
    }
}

} // verus!
