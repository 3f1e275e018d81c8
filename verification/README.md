# rustdoc_md

The decision logic of `rustdoc-md`, a tool that turns rustdoc JSON into
Markdown, written as a verified library.

The library does no input or output. Each task is a state machine that names
the next `Effect` (check a file, run `cargo doc`, list a directory, read or
write a file, render Markdown) and takes back the `Event` that carrying it out
produced; `app/` carries the effects out.

- `src/text.rs`: Unicode white space and trimming.
- `src/gitignore.rs`: adding an entry to `.gitignore` text, and the edit of
  the file.
- `src/json_output.rs`: picking the one JSON file of the `cargo doc` output.
- `src/paths.rs`: the calls into `std::path`.
- `src/root_search.rs`: finding the project root.
- `src/rustdoc_json.rs`: the `cargo doc` commands and their fallback.
- `src/quick_generate.rs`: the quick pipeline and its configuration.
- `src/cli.rs`: the command-line tool's two modes.
- `src/effects.rs`: effects, events and steps.
- `app/`: the command line, and the effects carried out on the machine.
