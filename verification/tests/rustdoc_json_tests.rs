use rustdoc_md::effects::{Effect, Event, Step};
use rustdoc_md::rustdoc_json::{generate_rustdoc_json, nightly_doc_command, stable_doc_command, JsonBuild};

fn shell(command: &str, dir: &str) -> Step {
    Step::Perform(Effect::RunShell { command: command.to_string(), dir: dir.to_string() })
}

const NIGHTLY: &str = "RUSTDOCFLAGS=\"-Z unstable-options --output-format json\" cargo doc 2>&1 >/dev/null";
const NIGHTLY_NO_DEPS: &str =
    "RUSTDOCFLAGS=\"-Z unstable-options --output-format json\" cargo doc --no-deps 2>&1 >/dev/null";
const STABLE: &str = "RUSTC_BOOTSTRAP=1 RUSTDOCFLAGS=\"-Z unstable-options --output-format json\" cargo doc 2>&1 >/dev/null";
const STABLE_NO_DEPS: &str = "RUSTC_BOOTSTRAP=1 RUSTDOCFLAGS=\"-Z unstable-options --output-format json\" cargo doc --no-deps 2>&1 >/dev/null";

#[test]
fn commands_pass_no_deps_only_when_asked() {
    assert_eq!(nightly_doc_command(true), NIGHTLY);
    assert_eq!(nightly_doc_command(false), NIGHTLY_NO_DEPS);
    assert_eq!(stable_doc_command(true), STABLE);
    assert_eq!(stable_doc_command(false), STABLE_NO_DEPS);
}

#[test]
fn nightly_success_finds_the_json_file() {
    let (mut build, first) = JsonBuild::single_file("/p", true);
    assert_eq!(first, shell(NIGHTLY, "/p"));
    assert_eq!(
        build.step(Event::ShellFinished { success: true, stderr: String::new() }),
        Step::Perform(Effect::ListDir { path: "/p/target/doc".to_string() })
    );
    assert_eq!(
        build.step(Event::Listed { names: vec!["p.json".to_string(), "src".to_string()] }),
        Step::Done("/p/target/doc/p.json".to_string())
    );
}

#[test]
fn nightly_failure_falls_back_to_stable() {
    let (mut build, first) = JsonBuild::single_file("/p", false);
    assert_eq!(first, shell(NIGHTLY_NO_DEPS, "/p"));
    assert_eq!(
        build.step(Event::ShellFinished { success: false, stderr: "no nightly".to_string() }),
        shell(STABLE_NO_DEPS, "/p")
    );
    assert_eq!(
        build.step(Event::ShellFinished { success: true, stderr: String::new() }),
        Step::Perform(Effect::ListDir { path: "/p/target/doc".to_string() })
    );
}

#[test]
fn nightly_that_cannot_start_falls_back_to_stable() {
    let (mut build, _) = generate_rustdoc_json("/p", true);
    assert_eq!(build.step(Event::Failed { message: "no sh".to_string() }), shell(STABLE, "/p"));
    assert_eq!(
        build.step(Event::Failed { message: "no sh".to_string() }),
        Step::Failed("no sh".to_string())
    );
}

#[test]
fn stable_failure_reports_its_stderr() {
    let (mut build, _) = generate_rustdoc_json("/p", true);
    build.step(Event::ShellFinished { success: false, stderr: String::new() });
    assert_eq!(
        build.step(Event::ShellFinished { success: false, stderr: "error: boom".to_string() }),
        Step::Failed("rustdoc JSON generation failed (even with RUSTC_BOOTSTRAP=1):\nerror: boom".to_string())
    );
}

#[test]
fn locating_reports_json_errors() {
    let (mut build, _) = JsonBuild::single_file("/p", true);
    build.step(Event::ShellFinished { success: true, stderr: String::new() });
    assert_eq!(
        build.step(Event::Listed { names: vec!["a.json".to_string(), "b.json".to_string()] }),
        Step::Failed(
            "Multiple .json files found in /p/target/doc. Please specify which one to use:\n  a.json, b.json"
                .to_string()
        )
    );
}

#[test]
fn generate_rustdoc_json_yields_the_doc_directory() {
    let (mut build, first) = generate_rustdoc_json("/p", true);
    assert_eq!(first, shell(NIGHTLY, "/p"));
    assert_eq!(
        build.step(Event::ShellFinished { success: true, stderr: String::new() }),
        Step::Done("/p/target/doc".to_string())
    );
    let (mut build, first) = generate_rustdoc_json("/p", false);
    assert_eq!(first, shell(NIGHTLY_NO_DEPS, "/p"));
    build.step(Event::ShellFinished { success: false, stderr: String::new() });
    assert_eq!(
        build.step(Event::ShellFinished { success: true, stderr: String::new() }),
        Step::Done("/p/target/doc".to_string())
    );
}
