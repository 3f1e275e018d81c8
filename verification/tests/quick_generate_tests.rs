use rustdoc_md::effects::{Effect, Event};
use rustdoc_md::quick_generate::{quick_generate, quick_generate_with_config, QuickGenerateConfig, QUICK_OUTPUT_FOLDER};

const NIGHTLY: &str = "RUSTDOCFLAGS=\"-Z unstable-options --output-format json\" cargo doc 2>&1 >/dev/null";
const STABLE_NO_DEPS: &str = "RUSTC_BOOTSTRAP=1 RUSTDOCFLAGS=\"-Z unstable-options --output-format json\" cargo doc --no-deps 2>&1 >/dev/null";

fn ok_shell() -> Event {
    Event::ShellFinished { success: true, stderr: String::new() }
}

#[test]
fn default_config_values() {
    let config = QuickGenerateConfig::default();
    assert!(config.include_deps);
    assert_eq!(config.output_folder, ".crates-docs");
    assert_eq!(QUICK_OUTPUT_FOLDER, ".crates-docs");
    assert!(config.update_gitignore);
}

#[test]
fn quick_generate_runs_all_steps() {
    let (mut run, first) = quick_generate("/w/p/src");
    assert_eq!(first, Effect::CheckFile { path: "/w/p/src/Cargo.toml".to_string() });
    assert_eq!(
        run.step(Event::FileExists { exists: false }),
        Effect::CheckFile { path: "/w/p/Cargo.toml".to_string() }
    );
    assert_eq!(
        run.step(Event::FileExists { exists: true }),
        Effect::RunShell { command: NIGHTLY.to_string(), dir: "/w/p".to_string() }
    );
    assert_eq!(
        run.step(ok_shell()),
        Effect::RenderMarkdown { json: "/w/p/target/doc".to_string(), output_dir: "/w/p/.crates-docs".to_string() }
    );
    assert_eq!(run.step(Event::Done), Effect::CheckFile { path: "/w/p/.gitignore".to_string() });
    assert_eq!(
        run.step(Event::FileExists { exists: true }),
        Effect::ReadFile { path: "/w/p/.gitignore".to_string() }
    );
    assert_eq!(
        run.step(Event::FileRead { contents: "/target\n".to_string() }),
        Effect::WriteFile { path: "/w/p/.gitignore".to_string(), contents: "/target\n.crates-docs".to_string() }
    );
    assert_eq!(run.step(Event::Done), Effect::Finish { error: None });
    assert_eq!(run.step(Event::Done), Effect::Finish { error: None });
}

#[test]
fn config_without_gitignore_stops_after_markdown() {
    let config = QuickGenerateConfig {
        include_deps: false,
        output_folder: "docs/md".to_string(),
        update_gitignore: false,
    };
    let (mut run, _) = quick_generate_with_config("/p", config);
    run.step(Event::FileExists { exists: true });
    assert_eq!(
        run.step(Event::ShellFinished { success: false, stderr: String::new() }),
        Effect::RunShell { command: STABLE_NO_DEPS.to_string(), dir: "/p".to_string() }
    );
    assert_eq!(
        run.step(ok_shell()),
        Effect::RenderMarkdown { json: "/p/target/doc".to_string(), output_dir: "/p/docs/md".to_string() }
    );
    assert_eq!(run.step(Event::Done), Effect::Finish { error: None });
}

#[test]
fn missing_root_ends_with_error() {
    let (mut run, _) = quick_generate("/");
    assert_eq!(
        run.step(Event::FileExists { exists: false }),
        Effect::Finish { error: Some("No Cargo.toml found in '/' or any parent directory.".to_string()) }
    );
}

#[test]
fn render_failure_ends_with_its_error() {
    let (mut run, _) = quick_generate("/p");
    run.step(Event::FileExists { exists: true });
    run.step(ok_shell());
    assert_eq!(
        run.step(Event::Failed { message: "bad json".to_string() }),
        Effect::Finish { error: Some("bad json".to_string()) }
    );
}

#[test]
fn generation_errors_end_the_pipeline() {
    let (mut run, _) = quick_generate("/p");
    run.step(Event::FileExists { exists: true });
    run.step(Event::ShellFinished { success: false, stderr: String::new() });
    assert_eq!(
        run.step(Event::ShellFinished { success: false, stderr: "e".to_string() }),
        Effect::Finish {
            error: Some("rustdoc JSON generation failed (even with RUSTC_BOOTSTRAP=1):\ne".to_string())
        }
    );
}

#[test]
fn missing_gitignore_is_created() {
    let (mut run, _) = quick_generate("/p");
    run.step(Event::FileExists { exists: true });
    run.step(ok_shell());
    run.step(Event::Done);
    assert_eq!(
        run.step(Event::FileExists { exists: false }),
        Effect::WriteFile { path: "/p/.gitignore".to_string(), contents: ".crates-docs\n".to_string() }
    );
}
