//! Core logic of a tool that turns rustdoc JSON into Markdown: the decisions
//! it takes around `cargo doc`, the project root, the JSON output directory
//! and `.gitignore`, written without input or output so that they can be
//! verified.
//!
//! The behaviour follows the tool's documented intent in five places:
//!
//! - `generate_rustdoc_json` yields the `target/doc` directory where the JSON
//!   was written, not a single file in it;
//! - the stable fallback of `cargo doc` asks rustdoc for JSON with the same
//!   flags as the nightly command;
//! - the quick pipeline renders every JSON file of that directory;
//! - with `--generate-json` and no `--output`, the Markdown goes into the
//!   current directory, written as a folder of files;
//! - `--multi-file` without `--output` (and without `--generate-json` or
//!   `--quick`, which name an output folder) is an error.

pub mod text;
pub mod gitignore;
pub mod effects;
pub mod paths;
pub mod root_search;
pub mod json_output;
pub mod rustdoc_json;
pub mod quick_generate;
pub mod cli;
