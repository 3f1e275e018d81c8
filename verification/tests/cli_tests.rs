use rustdoc_md::cli::{run, CliOptions};
use rustdoc_md::effects::{Effect, Event};

fn options() -> CliOptions {
    CliOptions { quick: false, input_json: None, output: None, multi_file: false, generate_json: false }
}

const NIGHTLY: &str = "RUSTDOCFLAGS=\"-Z unstable-options --output-format json\" cargo doc 2>&1 >/dev/null";
const NIGHTLY_NO_DEPS: &str =
    "RUSTDOCFLAGS=\"-Z unstable-options --output-format json\" cargo doc --no-deps 2>&1 >/dev/null";

fn ok_shell() -> Event {
    Event::ShellFinished { success: true, stderr: String::new() }
}

#[test]
fn missing_input_is_an_error() {
    let (_, first) = run(options());
    assert_eq!(
        first,
        Effect::Finish {
            error: Some("--input-json (-i) is required unless --generate-json (-g) or --quick is used".to_string())
        }
    );
}

#[test]
fn input_without_output_is_printed() {
    let (mut cli, first) = run(CliOptions { input_json: Some("doc.json".to_string()), ..options() });
    assert_eq!(first, Effect::LoadDoc { path: "doc.json".to_string() });
    assert_eq!(cli.step(Event::Done), Effect::PrintDoc);
    assert_eq!(cli.step(Event::Done), Effect::Finish { error: None });
}

#[test]
fn single_file_output_refuses_a_directory() {
    let (mut cli, _) = run(CliOptions {
        input_json: Some("doc.json".to_string()),
        output: Some("out".to_string()),
        ..options()
    });
    assert_eq!(cli.step(Event::Done), Effect::InspectPath { path: "out".to_string() });
    assert_eq!(
        cli.step(Event::PathInspected { exists: true, is_dir: true }),
        Effect::Finish {
            error: Some("For single-file output, the output path 'out' must be a file, but it's a directory.".to_string())
        }
    );
}

#[test]
fn single_file_output_writes_a_file() {
    let (mut cli, _) = run(CliOptions {
        input_json: Some("doc.json".to_string()),
        output: Some("out.md".to_string()),
        ..options()
    });
    cli.step(Event::Done);
    assert_eq!(
        cli.step(Event::PathInspected { exists: true, is_dir: false }),
        Effect::WriteSingleFile { path: "out.md".to_string() }
    );
    assert_eq!(cli.step(Event::Done), Effect::Finish { error: None });
}

#[test]
fn multi_file_output_refuses_a_file() {
    let (mut cli, _) = run(CliOptions {
        input_json: Some("doc.json".to_string()),
        output: Some("out.md".to_string()),
        multi_file: true,
        ..options()
    });
    cli.step(Event::Done);
    assert_eq!(
        cli.step(Event::PathInspected { exists: true, is_dir: false }),
        Effect::Finish {
            error: Some("For multi-file output, the output path 'out.md' must be a directory, but it's a file.".to_string())
        }
    );
}

#[test]
fn multi_file_output_writes_into_new_or_existing_directory() {
    for (exists, is_dir) in [(false, false), (true, true)] {
        let (mut cli, _) = run(CliOptions {
            input_json: Some("doc.json".to_string()),
            output: Some("out".to_string()),
            multi_file: true,
            ..options()
        });
        cli.step(Event::Done);
        assert_eq!(
            cli.step(Event::PathInspected { exists, is_dir }),
            Effect::WriteMultiFile { path: "out".to_string() }
        );
    }
}

#[test]
fn generate_json_reads_generated_file_and_writes_to_current_directory() {
    let (mut cli, first) = run(CliOptions { generate_json: true, input_json: Some("ignored.json".to_string()), ..options() });
    assert_eq!(first, Effect::CurrentDir);
    assert_eq!(
        cli.step(Event::CurrentDir { path: "/p".to_string() }),
        Effect::RunShell { command: NIGHTLY_NO_DEPS.to_string(), dir: "/p".to_string() }
    );
    assert_eq!(cli.step(ok_shell()), Effect::ListDir { path: "/p/target/doc".to_string() });
    assert_eq!(
        cli.step(Event::Listed { names: vec!["p.json".to_string()] }),
        Effect::LoadDoc { path: "/p/target/doc/p.json".to_string() }
    );
    assert_eq!(cli.step(Event::Done), Effect::CurrentDir);
    assert_eq!(
        cli.step(Event::CurrentDir { path: "/p".to_string() }),
        Effect::WriteMultiFile { path: "/p".to_string() }
    );
    assert_eq!(cli.step(Event::Done), Effect::Finish { error: None });
}

#[test]
fn generate_json_multi_file_without_output_writes_to_current_directory() {
    let (mut cli, _) = run(CliOptions { generate_json: true, multi_file: true, ..options() });
    cli.step(Event::CurrentDir { path: "/p".to_string() });
    cli.step(ok_shell());
    cli.step(Event::Listed { names: vec!["p.json".to_string()] });
    assert_eq!(cli.step(Event::Done), Effect::CurrentDir);
    assert_eq!(
        cli.step(Event::CurrentDir { path: "/p".to_string() }),
        Effect::WriteMultiFile { path: "/p".to_string() }
    );
}

#[test]
fn multi_file_without_output_is_an_error() {
    let (_, first) = run(CliOptions { multi_file: true, input_json: Some("doc.json".to_string()), ..options() });
    assert_eq!(
        first,
        Effect::Finish { error: Some("--multi-file requires --output (-o) to be specified".to_string()) }
    );
    let (_, first) = run(CliOptions { multi_file: true, ..options() });
    assert_eq!(
        first,
        Effect::Finish { error: Some("--multi-file requires --output (-o) to be specified".to_string()) }
    );
}

#[test]
fn quick_mode_documents_the_project_around_current_directory() {
    let (mut cli, first) = run(CliOptions { quick: true, input_json: Some("x.json".to_string()), ..options() });
    assert_eq!(first, Effect::CurrentDir);
    assert_eq!(
        cli.step(Event::CurrentDir { path: "/p/src".to_string() }),
        Effect::CheckFile { path: "/p/src/Cargo.toml".to_string() }
    );
    assert_eq!(
        cli.step(Event::FileExists { exists: false }),
        Effect::CheckFile { path: "/p/Cargo.toml".to_string() }
    );
    assert_eq!(
        cli.step(Event::FileExists { exists: true }),
        Effect::RunShell { command: NIGHTLY.to_string(), dir: "/p".to_string() }
    );
    assert_eq!(cli.step(ok_shell()), Effect::CurrentDir);
    assert_eq!(
        cli.step(Event::CurrentDir { path: "/p".to_string() }),
        Effect::CheckFile { path: "/p/Cargo.toml".to_string() }
    );
    assert_eq!(
        cli.step(Event::FileExists { exists: true }),
        Effect::RenderMarkdown { json: "/p/target/doc".to_string(), output_dir: "/p/.crates-docs".to_string() }
    );
    assert_eq!(cli.step(Event::Done), Effect::CheckFile { path: "/p/.gitignore".to_string() });
    assert_eq!(
        cli.step(Event::FileExists { exists: false }),
        Effect::WriteFile { path: "/p/.gitignore".to_string(), contents: ".crates-docs\n".to_string() }
    );
    assert_eq!(cli.step(Event::Done), Effect::Finish { error: None });
}

#[test]
fn quick_mode_without_project_fails_with_its_message() {
    let (mut cli, _) = run(CliOptions { quick: true, ..options() });
    cli.step(Event::CurrentDir { path: "/".to_string() });
    assert_eq!(
        cli.step(Event::FileExists { exists: false }),
        Effect::Finish {
            error: Some("No Cargo.toml found in current directory or any parent directory.".to_string())
        }
    );
}

#[test]
fn current_directory_failure_ends_the_run() {
    let (mut cli, _) = run(CliOptions { quick: true, ..options() });
    assert_eq!(
        cli.step(Event::Failed { message: "gone".to_string() }),
        Effect::Finish { error: Some("gone".to_string()) }
    );
}
