//! Adding an entry to the text of a `.gitignore` file.

use vstd::prelude::*;
use vstd::string::*;

use crate::effects::{Effect, EffectModel, Event, EventModel, Step, StepModel};
use crate::paths::{join_path, joined_path};
use crate::text::{chars_of, is_white_space, is_white_space_char, trim, trim_end, trim_start};

verus! {

/// The characters of `s` from `i` up to `j` form one of the lines that
/// `str::lines` yields: they start the text or follow a line feed, they end
/// the text or stand before a line feed, and hold none. The empty piece after
/// a final line feed, or of an empty text, is no line.
pub open spec fn is_line_span(s: Seq<char>, i: int, j: int) -> bool {
    &&& 0 <= i <= j <= s.len()
    &&& i < s.len()
    &&& (i == 0 || s[i - 1] == '\n')
    &&& (j == s.len() || s[j] == '\n')
    &&& forall|k: int| i <= k < j ==> s[k] != '\n'
}

/// Some line of `s`, trimmed of white space, is `entry`.
pub open spec fn has_line(s: Seq<char>, entry: Seq<char>) -> bool {
    exists|i: int, j: int| is_line_span(s, i, j) && trim(s.subrange(i, j)) == entry
}

/// The text that `.gitignore` is to hold so that it lists `entry`, or `None`
/// where it must stay as it is. `existing` is its text, `None` where there is
/// no such file: the new file holds the entry and a line feed. A file that
/// lists the entry already is left alone; any other loses its trailing white
/// space and gains a line feed and the entry.
pub open spec fn updated_gitignore(existing: Option<Seq<char>>, entry: Seq<char>) -> Option<Seq<char>> {
    match existing {
        None => Some(entry + seq!['\n']),
        Some(text) => if has_line(text, entry) {
            None
        } else {
            Some(trim_end(text) + seq!['\n'] + entry)
        },
    }
}

/// An entry that is empty is listed by an empty or blank line.
pub open spec fn empty_entry_fits(existing: Option<Seq<char>>) -> bool {
    match existing {
        None => true,
        Some(text) => has_line(text, Seq::empty()) || trim_end(text).len() == 0,
    }
}

/// Once `.gitignore` has been brought to list an entry, bringing it there
/// again changes nothing: the text that an update writes lists the entry, for
/// every entry that holds no line feed and has no white space at either end.
/// An empty entry is listed after the update, too, where there was no file,
/// the file already had a blank line, or it held nothing but white space;
/// a file with other text and no blank line gains a line feed at each update
/// instead.
pub proof fn gitignore_update_is_idempotent(existing: Option<Seq<char>>, entry: Seq<char>)
    requires
        trim(entry) == entry,
        forall|k: int| 0 <= k < entry.len() ==> entry[k] != '\n',
        entry.len() > 0 || empty_entry_fits(existing),
    ensures
        updated_gitignore(existing, entry) matches Some(text) ==> has_line(text, entry),
        updated_gitignore(existing, entry) matches Some(text) ==> updated_gitignore(Some(text), entry) is None,
{
    match existing {
        None => {
            let text = entry + seq!['\n'];
            assert(text.subrange(0, entry.len() as int) =~= entry);
            assert(is_line_span(text, 0, entry.len() as int));
        },
        Some(old_text) => {
            if !has_line(old_text, entry) {
                let kept = trim_end(old_text);
                let text = kept + seq!['\n'] + entry;
                if entry.len() > 0 {
                    let i = kept.len() + 1;
                    assert(text.subrange(i as int, text.len() as int) =~= entry);
                    assert(is_line_span(text, i as int, text.len() as int));
                } else {
                    assert(entry =~= Seq::<char>::empty());
                    assert(kept.len() == 0);
                    assert(text =~= seq!['\n']);
                    assert(text.subrange(0, 0) =~= entry);
                    assert(is_line_span(text, 0, 0));
                }
            }
        },
    }
}

proof fn lemma_trim_end_step(s: Seq<char>, i: int, b: int)
    requires
        0 <= i < b <= s.len(),
        is_white_space(s[b - 1]),
    ensures
        trim_end(s.subrange(i, b)) == trim_end(s.subrange(i, b - 1)),
{
    assert(s.subrange(i, b).drop_last() =~= s.subrange(i, b - 1));
}

proof fn lemma_trim_start_step(s: Seq<char>, a: int, b: int)
    requires
        0 <= a < b <= s.len(),
        is_white_space(s[a]),
    ensures
        trim_start(s.subrange(a, b)) == trim_start(s.subrange(a + 1, b)),
{
    assert(s.subrange(a, b).drop_first() =~= s.subrange(a + 1, b));
}

/// Whether the characters of `s` from `i` up to `j`, trimmed, are `entry`.
fn trimmed_span_is(s: &Vec<char>, i: usize, j: usize, entry: &Vec<char>) -> (r: bool)
    requires
        i <= j <= s.len(),
    ensures
        r == (trim(s@.subrange(i as int, j as int)) == entry@),
{
    let mut b = j;
    while b > i && is_white_space_char(s[b - 1])
        invariant
            i <= b <= j <= s.len(),
            trim_end(s@.subrange(i as int, j as int)) == trim_end(s@.subrange(i as int, b as int)),
        decreases b,
    {
        proof { lemma_trim_end_step(s@, i as int, b as int); }
        b = b - 1;
    }
    assert(trim_end(s@.subrange(i as int, b as int)) == s@.subrange(i as int, b as int)) by {
        if b > i {
            assert(s@.subrange(i as int, b as int).last() == s@[b - 1]);
        }
    }
    let mut a = i;
    while a < b && is_white_space_char(s[a])
        invariant
            i <= a <= b <= j <= s.len(),
            trim(s@.subrange(i as int, j as int)) == trim_start(s@.subrange(a as int, b as int)),
        decreases b - a,
    {
        proof { lemma_trim_start_step(s@, a as int, b as int); }
        a = a + 1;
    }
    assert(trim_start(s@.subrange(a as int, b as int)) == s@.subrange(a as int, b as int)) by {
        if a < b {
            assert(s@.subrange(a as int, b as int).first() == s@[a as int]);
        }
    }
    assert(trim(s@.subrange(i as int, j as int)) == s@.subrange(a as int, b as int));
    if b - a != entry.len() {
        return false;
    }
    let mut k: usize = 0;
    while k < entry.len()
        invariant
            i <= j <= s.len(),
            a <= b <= s.len(),
            trim(s@.subrange(i as int, j as int)) == s@.subrange(a as int, b as int),
            b - a == entry.len(),
            k <= entry.len(),
            forall|m: int| 0 <= m < k ==> s@[a + m] == entry@[m],
        decreases entry.len() - k,
    {
        if s[a + k] != entry[k] {
            assert(s@.subrange(a as int, b as int)[k as int] != entry@[k as int]);
            return false;
        }
        k = k + 1;
    }
    assert(s@.subrange(a as int, b as int) =~= entry@);
    true
}

/// Whether some line of `s`, trimmed of white space, is `entry`.
pub fn text_has_line(s: &Vec<char>, entry: &Vec<char>) -> (r: bool)
    ensures
        r == has_line(s@, entry@),
{
    let n = s.len();
    let mut start: usize = 0;
    let mut pos: usize = 0;
    while pos < n
        invariant
            n == s.len(),
            start <= pos <= n,
            start == 0 || s@[start - 1] == '\n',
            forall|k: int| start <= k < pos ==> s@[k] != '\n',
            forall|i: int, j: int|
                #![trigger is_line_span(s@, i, j)]
                is_line_span(s@, i, j) && i < start ==> trim(s@.subrange(i, j)) != entry@,
        decreases n - pos,
    {
        if s[pos] == '\n' {
            if trimmed_span_is(s, start, pos, entry) {
                assert(is_line_span(s@, start as int, pos as int));
                return true;
            }
            assert forall|i: int, j: int|
                #![trigger is_line_span(s@, i, j)]
                is_line_span(s@, i, j) && i < pos + 1 implies trim(s@.subrange(i, j)) != entry@ by {
                if i >= start {
                    if i > start {
                        assert(s@[i - 1] != '\n');
                    } else {
                        if j < pos {
                            assert(s@[j] != '\n');
                        }
                        if j > pos {
                            assert(s@[pos as int] == '\n');
                        }
                    }
                }
            }
            start = pos + 1;
        }
        pos = pos + 1;
    }
    if start < n && trimmed_span_is(s, start, n, entry) {
        assert(is_line_span(s@, start as int, n as int));
        return true;
    }
    assert forall|i: int, j: int| is_line_span(s@, i, j) implies trim(s@.subrange(i, j)) != entry@ by {
        if i >= start {
            if i > start {
                assert(s@[i - 1] != '\n');
            } else {
                if j < n {
                    assert(s@[j] != '\n');
                }
            }
        }
    }
    false
}

/// The length of `s` without its trailing white space.
fn trimmed_end_len(s: &Vec<char>) -> (k: usize)
    ensures
        k <= s.len(),
        trim_end(s@) == s@.subrange(0, k as int),
{
    let mut k = s.len();
    assert(s@.subrange(0, k as int) =~= s@);
    while k > 0 && is_white_space_char(s[k - 1])
        invariant
            k <= s.len(),
            trim_end(s@) == trim_end(s@.subrange(0, k as int)),
        decreases k,
    {
        proof { lemma_trim_end_step(s@, 0, k as int); }
        k = k - 1;
    }
    if k > 0 {
        assert(s@.subrange(0, k as int).last() == s@[k - 1]);
    }
    k
}

/// The text that `.gitignore` is to hold so that it lists `entry`, or `None`
/// where the file is to stay as it is; `existing` is the file's text, `None`
/// where there is no such file.
pub fn gitignore_update(existing: Option<&str>, entry: &str) -> (r: Option<String>)
    ensures
        updated_gitignore(
            match existing {
                Some(text) => Some(text@),
                None => None,
            },
            entry@,
        ) == match r {
            Some(t) => Some(t@),
            None => None::<Seq<char>>,
        },
{
    let line_feed = "\n";
    proof { reveal_strlit("\n"); }
    match existing {
        None => {
            let created = String::from_str(entry).concat(line_feed);
            Some(created)
        },
        Some(text) => {
            let chars = chars_of(text);
            let wanted = chars_of(entry);
            if text_has_line(&chars, &wanted) {
                None
            } else {
                let k = trimmed_end_len(&chars);
                let kept = text.substring_char(0, k);
                let appended = String::from_str(kept).concat(line_feed).concat(entry);
                Some(appended)
            }
        },
    }
}


/// The `.gitignore` of the project at `root`.
pub open spec fn gitignore_path(root: Seq<char>) -> Seq<char> {
    joined_path(root, ".gitignore"@)
}

/// Bringing a `.gitignore` to list an entry.
pub enum GitignoreEdit {
    /// Finding out whether the file exists.
    Checking { path: String, entry: String },
    /// Reading the file.
    Reading { path: String, entry: String },
    /// Writing `contents` to the file.
    Writing { path: String, contents: String },
    /// The file at `path` lists the entry.
    Ensured { path: String },
    Failed { message: String },
}

/// The mathematical value of a [`GitignoreEdit`].
pub enum GitignoreEditModel {
    Checking { path: Seq<char>, entry: Seq<char> },
    Reading { path: Seq<char>, entry: Seq<char> },
    Writing { path: Seq<char>, contents: Seq<char> },
    Ensured { path: Seq<char> },
    Failed { message: Seq<char> },
}

impl View for GitignoreEdit {
    type V = GitignoreEditModel;

    open spec fn view(&self) -> GitignoreEditModel {
        match self {
            GitignoreEdit::Checking { path, entry } => GitignoreEditModel::Checking {
                path: path@,
                entry: entry@,
            },
            GitignoreEdit::Reading { path, entry } => GitignoreEditModel::Reading {
                path: path@,
                entry: entry@,
            },
            GitignoreEdit::Writing { path, contents } => GitignoreEditModel::Writing {
                path: path@,
                contents: contents@,
            },
            GitignoreEdit::Ensured { path } => GitignoreEditModel::Ensured { path: path@ },
            GitignoreEdit::Failed { message } => GitignoreEditModel::Failed { message: message@ },
        }
    }
}

impl GitignoreEditModel {
    /// What the edit needs next.
    pub open spec fn status(self) -> StepModel {
        match self {
            GitignoreEditModel::Checking { path, .. } => StepModel::Perform(
                EffectModel::CheckFile { path },
            ),
            GitignoreEditModel::Reading { path, .. } => StepModel::Perform(
                EffectModel::ReadFile { path },
            ),
            GitignoreEditModel::Writing { path, contents } => StepModel::Perform(
                EffectModel::WriteFile { path, contents },
            ),
            GitignoreEditModel::Ensured { path } => StepModel::Done(path),
            GitignoreEditModel::Failed { message } => StepModel::Failed(message),
        }
    }

    /// The edit after `event`: a missing file is created with the entry; an
    /// existing one is read, and written only where it lacks the entry.
    pub open spec fn next(self, event: EventModel) -> GitignoreEditModel {
        match self {
            GitignoreEditModel::Checking { path, entry } => match event {
                EventModel::FileExists { exists } => if exists {
                    GitignoreEditModel::Reading { path, entry }
                } else {
                    GitignoreEditModel::Writing {
                        path,
                        contents: updated_gitignore(None, entry)->0,
                    }
                },
                EventModel::Failed { message } => GitignoreEditModel::Failed { message },
                _ => self,
            },
            GitignoreEditModel::Reading { path, entry } => match event {
                EventModel::FileRead { contents } => match updated_gitignore(Some(contents), entry) {
                    Some(text) => GitignoreEditModel::Writing { path, contents: text },
                    None => GitignoreEditModel::Ensured { path },
                },
                EventModel::Failed { message } => GitignoreEditModel::Failed { message },
                _ => self,
            },
            GitignoreEditModel::Writing { path, .. } => match event {
                EventModel::Done => GitignoreEditModel::Ensured { path },
                EventModel::Failed { message } => GitignoreEditModel::Failed { message },
                _ => self,
            },
            _ => self,
        }
    }
}

/// Starts bringing the `.gitignore` of the project at `project_root` to list
/// `entry`: it is created if missing, and left alone if it lists the entry.
pub fn ensure_gitignore(project_root: &str, entry: &str) -> (r: (GitignoreEdit, Step))
    ensures
        r.0@ == (GitignoreEditModel::Checking { path: gitignore_path(project_root@), entry: entry@ }),
        r.1@ == r.0@.status(),
{
    let path = join_path(project_root, ".gitignore");
    let edit = GitignoreEdit::Checking { path, entry: String::from_str(entry) };
    let step = edit.status();
    (edit, step)
}

impl GitignoreEdit {
    /// Where the edit stands.
    pub fn status(&self) -> (r: Step)
        ensures
            r@ == self@.status(),
    {
        match self {
            GitignoreEdit::Checking { path, .. } => Step::Perform(Effect::CheckFile { path: path.clone() }),
            GitignoreEdit::Reading { path, .. } => Step::Perform(Effect::ReadFile { path: path.clone() }),
            GitignoreEdit::Writing { path, contents } => Step::Perform(
                Effect::WriteFile { path: path.clone(), contents: contents.clone() },
            ),
            GitignoreEdit::Ensured { path } => Step::Done(path.clone()),
            GitignoreEdit::Failed { message } => Step::Failed(message.clone()),
        }
    }

    /// Takes in the outcome of the pending effect.
    pub fn step(&mut self, event: Event) -> (r: Step)
        ensures
            final(self)@ == old(self)@.next(event@),
            r@ == final(self)@.status(),
    {
        let replaced: Option<GitignoreEdit> = match &*self {
            GitignoreEdit::Checking { path, entry } => match event {
                Event::FileExists { exists } => if exists {
                    Some(GitignoreEdit::Reading { path: path.clone(), entry: entry.clone() })
                } else {
                    match gitignore_update(None, entry.as_str()) {
                        Some(contents) => Some(GitignoreEdit::Writing { path: path.clone(), contents }),
                        None => None,
                    }
                },
                Event::Failed { message } => Some(GitignoreEdit::Failed { message }),
                _ => None,
            },
            GitignoreEdit::Reading { path, entry } => match event {
                Event::FileRead { contents } => match gitignore_update(Some(contents.as_str()), entry.as_str()) {
                    Some(text) => Some(GitignoreEdit::Writing { path: path.clone(), contents: text }),
                    None => Some(GitignoreEdit::Ensured { path: path.clone() }),
                },
                Event::Failed { message } => Some(GitignoreEdit::Failed { message }),
                _ => None,
            },
            GitignoreEdit::Writing { path, .. } => match event {
                Event::Done => Some(GitignoreEdit::Ensured { path: path.clone() }),
                Event::Failed { message } => Some(GitignoreEdit::Failed { message }),
                _ => None,
            },
            _ => None,
        };
        if let Some(n) = replaced {
            *self = n;
        }
        self.status()
    }
}

} // verus!
