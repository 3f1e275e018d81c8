use rustdoc_md::json_output::{find_json_output, has_json_extension};

fn names(list: &[&str]) -> Vec<String> {
    list.iter().map(|s| s.to_string()).collect()
}

#[test]
fn json_extension_follows_path_extension() {
    for name in ["a.json", "x..json", ".a.json", "my_crate.json", "..json"] {
        assert!(has_json_extension(name), "{}", name);
        assert_eq!(std::path::Path::new(name).extension().map_or(false, |e| e == "json"), true);
    }
    for name in [".json", "json", "a.JSON", "a.json.bak", "a.jso", "a", "", "a.json."] {
        assert!(!has_json_extension(name), "{}", name);
        assert_eq!(std::path::Path::new(name).extension().map_or(false, |e| e == "json"), false);
    }
}

#[test]
fn single_json_file_is_found() {
    assert_eq!(
        find_json_output("/p/target/doc", &names(&["src", "crate.json", "index.html", ".json"])),
        Ok("/p/target/doc/crate.json".to_string())
    );
}

#[test]
fn no_json_file_is_an_error() {
    assert_eq!(
        find_json_output("/p/target/doc", &names(&["src", "index.html"])),
        Err("No .json file found in /p/target/doc. Ensure cargo doc ran successfully.".to_string())
    );
    assert_eq!(
        find_json_output("d", &names(&[])),
        Err("No .json file found in d. Ensure cargo doc ran successfully.".to_string())
    );
}

#[test]
fn several_json_files_are_an_error_that_names_them() {
    assert_eq!(
        find_json_output("d", &names(&["b.json", "x", "a.json", "c.json"])),
        Err("Multiple .json files found in d. Please specify which one to use:\n  b.json, a.json, c.json".to_string())
    );
    assert_eq!(
        find_json_output("d", &names(&["b.json", "a.json"])),
        Err("Multiple .json files found in d. Please specify which one to use:\n  b.json, a.json".to_string())
    );
}

#[test]
fn json_extension_agrees_with_path_extension() {
    let pieces = [".", "a", "json", "js", "on"];
    let mut found: Vec<String> = vec![String::new()];
    for _ in 0..5 {
        let mut longer = Vec::new();
        for t in &found {
            for p in pieces {
                longer.push(format!("{}{}", t, p));
            }
        }
        found.extend(longer);
    }
    for name in &found {
        if name.is_empty() || name == "." || name == ".." {
            continue;
        }
        let expected = std::path::Path::new("dir").join(name).extension().map_or(false, |e| e == "json");
        assert_eq!(has_json_extension(name), expected, "{:?}", name);
    }
}
