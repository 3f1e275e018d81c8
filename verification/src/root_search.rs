//! Finding the project root: the nearest directory, walking up from a start
//! directory, that holds a `Cargo.toml`.

use vstd::prelude::*;

use crate::effects::{Effect, EffectModel, Event, EventModel, Step, StepModel};
use crate::paths::{component_count, count_components, joined_path, parent_dir, parent_path, join_path};
use crate::text::concat3;

verus! {

/// The manifest whose presence marks a project root.
pub open spec fn manifest_path(dir: Seq<char>) -> Seq<char> {
    joined_path(dir, "Cargo.toml"@)
}

/// The error of a search from `start` that found no root.
pub open spec fn no_root_message(start: Seq<char>) -> Seq<char> {
    "No Cargo.toml found in '"@ + start + "' or any parent directory."@
}

/// The directory `k` levels up from `start`, if there is one.
pub open spec fn ancestor(start: Seq<char>, k: nat) -> Option<Seq<char>>
    decreases k,
{
    if k == 0 {
        Some(start)
    } else {
        match ancestor(start, (k - 1) as nat) {
            Some(dir) => parent_path(dir),
            None => None,
        }
    }
}

/// The search from `start` after the checks it asked for were answered, in
/// order, by `answers`: whether each directory held a manifest.
pub open spec fn after_answers(start: RootSearchModel, answers: Seq<bool>) -> RootSearchModel
    decreases answers.len(),
{
    if answers.len() == 0 {
        start
    } else {
        after_answers(start, answers.drop_last()).next(
            EventModel::FileExists { exists: answers.last() },
        )
    }
}

/// Every answer among the first `n` says that the manifest is missing.
pub open spec fn all_missing(answers: Seq<bool>, n: int) -> bool {
    forall|i: int| 0 <= i < n ==> !answers[i]
}

/// `root`, `k` levels up from `start`, is the first directory whose manifest
/// was reported present.
pub open spec fn first_present(start: Seq<char>, answers: Seq<bool>, k: int, root: Seq<char>) -> bool {
    &&& 0 <= k < answers.len()
    &&& answers[k]
    &&& all_missing(answers, k)
    &&& ancestor(start, k as nat) == Some(root)
}

/// The directory `k` levels up from `start` has no parent, and no manifest
/// was reported present up to it.
pub open spec fn missing_to_top(start: Seq<char>, answers: Seq<bool>, k: int) -> bool {
    &&& 0 <= k < answers.len()
    &&& all_missing(answers, k + 1)
    &&& ancestor(start, k as nat) is Some
    &&& parent_path(ancestor(start, k as nat)->0) is None
}

/// What the answers given so far say of where the search stands: a root
/// found is the first directory reported to hold a manifest; a search going on
/// looks as many levels up as answers were given, all of them negative; a
/// failed search reached a directory without a parent, all answers negative
/// up to it.
pub open spec fn search_explained(
    start: Seq<char>,
    not_found: Seq<char>,
    answers: Seq<bool>,
    searched: RootSearchModel,
) -> bool {
    &&& searched is Found ==> exists|k: int| first_present(start, answers, k, searched->root)
    &&& searched is Probing ==> {
        &&& searched->not_found == not_found
        &&& all_missing(answers, answers.len() as int)
        &&& ancestor(start, answers.len()) == Some(searched->current)
    }
    &&& searched is Failed ==> {
        &&& searched->message == not_found
        &&& exists|k: int| missing_to_top(start, answers, k)
    }
}

/// The search reports as the project root the nearest directory, walking up
/// from the start, whose manifest was reported present: every nearer
/// directory was reported to lack one. While it goes on, it looks at the
/// directory as many levels up as answers were given; it fails, with its
/// `not_found` error, only after it reached a directory without a parent and
/// found no manifest on the way.
pub proof fn root_search_finds_nearest_root(start: Seq<char>, not_found: Seq<char>, answers: Seq<bool>)
    ensures
        search_explained(
            start,
            not_found,
            answers,
            after_answers(RootSearchModel::Probing { current: start, not_found }, answers),
        ),
    decreases answers.len(),
{
    let after = after_answers(RootSearchModel::Probing { current: start, not_found }, answers);
    if answers.len() == 0 {
        assert(search_explained(start, not_found, answers, after));
    } else {
        let shorter = answers.drop_last();
        let last = (answers.len() - 1) as int;
        assert(forall|i: int| 0 <= i < last ==> answers[i] == shorter[i]);
        root_search_finds_nearest_root(start, not_found, shorter);
        let before = after_answers(RootSearchModel::Probing { current: start, not_found }, shorter);
        assert(after == before.next(EventModel::FileExists { exists: answers[last] }));
        match before {
            RootSearchModel::Found { root } => {
                let k = choose|k: int| first_present(start, shorter, k, root);
                assert(after == before);
                assert(first_present(start, answers, k, after->root));
                assert(search_explained(start, not_found, answers, after));
            },
            RootSearchModel::Failed { message } => {
                let k = choose|k: int| missing_to_top(start, shorter, k);
                assert(missing_to_top(start, answers, k));
                assert(after == before);
                assert(search_explained(start, not_found, answers, after));
            },
            RootSearchModel::Probing { current, .. } => {
                assert(ancestor(start, last as nat) == Some(current));
                if answers[last] {
                    assert(first_present(start, answers, last, current));
                    assert(after == (RootSearchModel::Found { root: current }));
                    assert(first_present(start, answers, last, after->root));
                    assert(search_explained(start, not_found, answers, after));
                } else if parent_path(current) is None {
                    assert(missing_to_top(start, answers, last));
                    assert(search_explained(start, not_found, answers, after));
                } else {
                    assert(search_explained(start, not_found, answers, after));
                }
            },
        }
    }
}

/// A search for the project root.
pub enum RootSearch {
    /// Looking at `current`; `not_found` is the error for the case that no
    /// directory up from the start holds a manifest.
    Probing { current: String, not_found: String },
    Found { root: String },
    Failed { message: String },
}

/// The mathematical value of a [`RootSearch`].
pub enum RootSearchModel {
    Probing { current: Seq<char>, not_found: Seq<char> },
    Found { root: Seq<char> },
    Failed { message: Seq<char> },
}

impl View for RootSearch {
    type V = RootSearchModel;

    open spec fn view(&self) -> RootSearchModel {
        match self {
            RootSearch::Probing { current, not_found } => RootSearchModel::Probing {
                current: current@,
                not_found: not_found@,
            },
            RootSearch::Found { root } => RootSearchModel::Found { root: root@ },
            RootSearch::Failed { message } => RootSearchModel::Failed { message: message@ },
        }
    }
}

impl RootSearchModel {
    /// An upper bound on the checks that the search can still ask for: one
    /// per component of the current directory, and one more.
    pub open spec fn checks_left(self) -> nat {
        match self {
            RootSearchModel::Probing { current, .. } => component_count(current) + 1,
            _ => 0,
        }
    }

    /// The components of the directory that the search looks at, or none
    /// where it is over.
    pub open spec fn levels_left(self) -> nat {
        match self {
            RootSearchModel::Probing { current, .. } => component_count(current),
            _ => 0,
        }
    }

    /// What the search needs next: the manifest of the current directory
    /// checked, or nothing, being done.
    pub open spec fn status(self) -> StepModel {
        match self {
            RootSearchModel::Probing { current, .. } => StepModel::Perform(
                EffectModel::CheckFile { path: manifest_path(current) },
            ),
            RootSearchModel::Found { root } => StepModel::Done(root),
            RootSearchModel::Failed { message } => StepModel::Failed(message),
        }
    }

    /// The search after `event`. A manifest found ends it with the current
    /// directory; one missing moves it to the parent, or ends it with the
    /// `not_found` error where there is none. An event that answers no
    /// pending check changes nothing.
    pub open spec fn next(self, event: EventModel) -> RootSearchModel {
        match self {
            RootSearchModel::Probing { current, not_found } => match event {
                EventModel::FileExists { exists } => if exists {
                    RootSearchModel::Found { root: current }
                } else {
                    match parent_path(current) {
                        Some(parent) => RootSearchModel::Probing { current: parent, not_found },
                        None => RootSearchModel::Failed { message: not_found },
                    }
                },
                EventModel::Failed { message } => RootSearchModel::Failed { message },
                _ => self,
            },
            _ => self,
        }
    }
}

/// Starts the search for the project root from `start_dir`: the nearest
/// directory, walking up from it, that holds a `Cargo.toml`.
pub fn find_project_root(start_dir: &str) -> (r: (RootSearch, Step))
    ensures
        r.0@ == (RootSearchModel::Probing {
            current: start_dir@,
            not_found: no_root_message(start_dir@),
        }),
        r.1@ == r.0@.status(),
{
    let not_found = concat3("No Cargo.toml found in '", start_dir, "' or any parent directory.");
    RootSearch::probing(String::from_str(start_dir), not_found)
}

impl RootSearch {
    /// A search from `start` that fails with `not_found` where no directory
    /// up from it holds a manifest.
    pub fn probing(start: String, not_found: String) -> (r: (RootSearch, Step))
        ensures
            r.0@ == (RootSearchModel::Probing { current: start@, not_found: not_found@ }),
            r.1@ == r.0@.status(),
    {
        let search = RootSearch::Probing { current: start, not_found };
        let step = search.status();
        (search, step)
    }

    /// Where the search stands.
    pub fn status(&self) -> (r: Step)
        ensures
            r@ == self@.status(),
    {
        match self {
            RootSearch::Probing { current, .. } => Step::Perform(
                Effect::CheckFile { path: join_path(current.as_str(), "Cargo.toml") },
            ),
            RootSearch::Found { root } => Step::Done(root.clone()),
            RootSearch::Failed { message } => Step::Failed(message.clone()),
        }
    }

    /// The components of the directory that the search looks at, or 0 where
    /// it is over: it asks for at most one check more than this.
    pub fn levels_left(&self) -> (r: usize)
        ensures
            r as nat == self@.levels_left(),
    {
        match self {
            RootSearch::Probing { current, .. } => count_components(current.as_str()),
            _ => 0,
        }
    }

    /// Takes in the outcome of the pending check. An answer to it moves the
    /// search up, to a proper prefix of the directory with one component
    /// fewer, or ends it: so a search from `start` asks for at most one check
    /// per component of `start`, and one more.
    pub fn step(&mut self, event: Event) -> (r: Step)
        ensures
            final(self)@ == old(self)@.next(event@),
            r@ == final(self)@.status(),
            old(self)@ is Probing && event@ is FileExists ==> final(self)@.checks_left()
                < old(self)@.checks_left(),
            old(self)@ is Probing && final(self)@ is Probing && event@ is FileExists ==> final(self)@->current.len()
                < old(self)@->current.len() && final(self)@->current == old(self)@->current.subrange(
                0,
                final(self)@->current.len() as int,
            ),
    {
        let replaced: Option<RootSearch> = match &*self {
            RootSearch::Probing { current, not_found } => match event {
                Event::FileExists { exists } => if exists {
                    Some(RootSearch::Found { root: current.clone() })
                } else {
                    match parent_dir(current.as_str()) {
                        Some(parent) => Some(
                            RootSearch::Probing { current: parent, not_found: not_found.clone() },
                        ),
                        None => Some(RootSearch::Failed { message: not_found.clone() }),
                    }
                },
                Event::Failed { message } => Some(RootSearch::Failed { message }),
                _ => None,
            },
            _ => None,
        };
        if let Some(n) = replaced {
            *self = n;
        }
        self.status()
    }
}

} // verus!
