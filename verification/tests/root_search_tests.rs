use rustdoc_md::effects::{Effect, Event, Step};
use rustdoc_md::root_search::find_project_root;

fn check(path: &str) -> Step {
    Step::Perform(Effect::CheckFile { path: path.to_string() })
}

#[test]
fn search_starts_at_start_directory() {
    let (_, first) = find_project_root("/a/b");
    assert_eq!(first, check("/a/b/Cargo.toml"));
}

#[test]
fn search_walks_up_to_nearest_manifest() {
    let (mut search, _) = find_project_root("/a/b/c");
    assert_eq!(search.step(Event::FileExists { exists: false }), check("/a/b/Cargo.toml"));
    assert_eq!(search.step(Event::FileExists { exists: false }), check("/a/Cargo.toml"));
    assert_eq!(search.step(Event::FileExists { exists: true }), Step::Done("/a".to_string()));
    assert_eq!(search.step(Event::FileExists { exists: false }), Step::Done("/a".to_string()));
}

#[test]
fn search_fails_past_the_root() {
    let (mut search, _) = find_project_root("/a");
    assert_eq!(search.step(Event::FileExists { exists: false }), check("/Cargo.toml"));
    assert_eq!(
        search.step(Event::FileExists { exists: false }),
        Step::Failed("No Cargo.toml found in '/a' or any parent directory.".to_string())
    );
}

#[test]
fn relative_search_ends_at_empty_path() {
    let (mut search, first) = find_project_root("proj");
    assert_eq!(first, check("proj/Cargo.toml"));
    assert_eq!(search.step(Event::FileExists { exists: false }), check("Cargo.toml"));
    assert_eq!(
        search.step(Event::FileExists { exists: false }),
        Step::Failed("No Cargo.toml found in 'proj' or any parent directory.".to_string())
    );
}

#[test]
fn search_found_at_start() {
    let (mut search, _) = find_project_root("/w");
    assert_eq!(search.step(Event::FileExists { exists: true }), Step::Done("/w".to_string()));
}

#[test]
fn search_keeps_waiting_on_unrelated_event() {
    let (mut search, first) = find_project_root("/w");
    assert_eq!(search.step(Event::Done), first);
}

#[test]
fn levels_left_counts_components_of_current_directory() {
    let (mut search, _) = find_project_root("/a/b");
    assert_eq!(search.levels_left(), 3);
    search.step(Event::FileExists { exists: false });
    assert_eq!(search.levels_left(), 2);
    search.step(Event::FileExists { exists: false });
    assert_eq!(search.levels_left(), 1);
    search.step(Event::FileExists { exists: false });
    assert_eq!(search.levels_left(), 0);
    let (search, _) = find_project_root("x/./y/");
    assert_eq!(search.levels_left(), 2);
}
