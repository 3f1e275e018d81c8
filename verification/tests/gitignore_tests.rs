use rustdoc_md::effects::{Effect, Event, Step};
use rustdoc_md::gitignore::{ensure_gitignore, gitignore_update, text_has_line};
use rustdoc_md::text::{chars_of, is_white_space_char};

fn has_line(text: &str, entry: &str) -> bool {
    text_has_line(&chars_of(text), &chars_of(entry))
}

#[test]
fn new_gitignore_holds_entry_and_line_feed() {
    assert_eq!(gitignore_update(None, ".crates-docs"), Some(".crates-docs\n".to_string()));
}

#[test]
fn listed_entry_leaves_file_alone() {
    assert_eq!(gitignore_update(Some("target\n.crates-docs\n"), ".crates-docs"), None);
    assert_eq!(gitignore_update(Some("  .crates-docs \r\nx"), ".crates-docs"), None);
    assert_eq!(gitignore_update(Some(".crates-docs"), ".crates-docs"), None);
}

#[test]
fn missing_entry_is_appended_after_trimmed_text() {
    assert_eq!(
        gitignore_update(Some("target\n\n  \n"), ".crates-docs"),
        Some("target\n.crates-docs".to_string())
    );
    assert_eq!(gitignore_update(Some("target"), "docs"), Some("target\ndocs".to_string()));
    assert_eq!(gitignore_update(Some(""), "docs"), Some("\ndocs".to_string()));
    assert_eq!(
        gitignore_update(Some("target\u{3000}\t"), "docs"),
        Some("target\ndocs".to_string())
    );
}

#[test]
fn entry_inside_a_longer_line_is_not_listed() {
    assert_eq!(
        gitignore_update(Some("/.crates-docs\n"), ".crates-docs"),
        Some("/.crates-docs\n.crates-docs".to_string())
    );
}

#[test]
fn update_is_idempotent_on_concrete_texts() {
    for existing in [None, Some(""), Some("target"), Some("a\n\nb \n\n"), Some(".crates-docs")] {
        let once = match gitignore_update(existing, ".crates-docs") {
            Some(text) => text,
            None => existing.unwrap().to_string(),
        };
        assert_eq!(gitignore_update(Some(&once), ".crates-docs"), None);
        assert!(has_line(&once, ".crates-docs"));
    }
}

#[test]
fn empty_entry_is_no_fixed_point_but_stable() {
    let once = gitignore_update(Some("a"), "").unwrap();
    assert_eq!(once, "a\n");
    assert_eq!(gitignore_update(Some(&once), ""), Some("a\n".to_string()));
}

#[test]
fn lines_are_those_that_str_lines_yields() {
    assert!(!has_line("a\n", ""));
    assert!(has_line("a\n\nb", ""));
    assert!(!has_line("", ""));
    assert!(has_line("\n", ""));
    assert!(has_line("x\r\ny", "x"));
    assert!(has_line("x\ny", "y"));
    assert!(!has_line("x y", "x"));
}

#[test]
fn white_space_is_unicode_white_space() {
    for c in ['\t', '\n', '\u{b}', '\u{c}', '\r', ' ', '\u{85}', '\u{a0}', '\u{1680}', '\u{2000}', '\u{200a}', '\u{2028}', '\u{2029}', '\u{202f}', '\u{205f}', '\u{3000}'] {
        assert!(is_white_space_char(c));
        assert!(c.is_whitespace());
    }
    for c in ['a', '\u{200b}', '\u{180e}', '\u{feff}', '\u{0}', '_'] {
        assert!(!is_white_space_char(c));
        assert_eq!(c.is_whitespace(), false);
    }
    for code in 0u32..0x3100 {
        if let Some(c) = char::from_u32(code) {
            assert_eq!(is_white_space_char(c), c.is_whitespace());
        }
    }
}

#[test]
fn ensure_gitignore_creates_missing_file() {
    let (mut edit, first) = ensure_gitignore("/p", "docs");
    assert_eq!(first, Step::Perform(Effect::CheckFile { path: "/p/.gitignore".to_string() }));
    let next = edit.step(Event::FileExists { exists: false });
    assert_eq!(
        next,
        Step::Perform(Effect::WriteFile { path: "/p/.gitignore".to_string(), contents: "docs\n".to_string() })
    );
    assert_eq!(edit.step(Event::Done), Step::Done("/p/.gitignore".to_string()));
}

#[test]
fn ensure_gitignore_reads_and_skips_or_writes() {
    let (mut edit, _) = ensure_gitignore("/p", "docs");
    assert_eq!(
        edit.step(Event::FileExists { exists: true }),
        Step::Perform(Effect::ReadFile { path: "/p/.gitignore".to_string() })
    );
    assert_eq!(
        edit.step(Event::FileRead { contents: "docs\n".to_string() }),
        Step::Done("/p/.gitignore".to_string())
    );

    let (mut edit, _) = ensure_gitignore("/p", "docs");
    edit.step(Event::FileExists { exists: true });
    assert_eq!(
        edit.step(Event::FileRead { contents: "target\n".to_string() }),
        Step::Perform(Effect::WriteFile { path: "/p/.gitignore".to_string(), contents: "target\ndocs".to_string() })
    );
    assert_eq!(
        edit.step(Event::Failed { message: "disk full".to_string() }),
        Step::Failed("disk full".to_string())
    );
}

#[test]
fn ensure_gitignore_ignores_unrelated_events() {
    let (mut edit, first) = ensure_gitignore("/p", "docs");
    assert_eq!(edit.step(Event::Done), first);
}

fn direct_update(existing: Option<&str>, entry: &str) -> Option<String> {
    match existing {
        None => Some(format!("{}\n", entry)),
        Some(contents) => {
            if contents.lines().any(|line| line.trim() == entry) {
                None
            } else {
                Some(format!("{}\n{}", contents.trim_end(), entry))
            }
        }
    }
}

#[test]
fn update_agrees_with_std_lines_and_trim() {
    let pieces = ["a", "b", " ", "\n", "\r\n", "\t", "\u{3000}", "a b", "\r"];
    let entries = ["a", "b", "a b", "", " a", "a\nb"];
    let mut texts: Vec<String> = vec![String::new()];
    for _ in 0..4 {
        let mut longer = Vec::new();
        for t in &texts {
            for p in pieces {
                longer.push(format!("{}{}", t, p));
            }
        }
        texts.extend(longer);
    }
    for text in &texts {
        for entry in entries {
            assert_eq!(gitignore_update(Some(text), entry), direct_update(Some(text), entry), "{:?} {:?}", text, entry);
        }
    }
    for entry in entries {
        assert_eq!(gitignore_update(None, entry), direct_update(None, entry));
    }
}
