//! Picking the rustdoc JSON file out of the entries of a directory.

use vstd::prelude::*;

use crate::effects::texts_chars;
use crate::paths::{join_path, joined_path, plain_component, verbatim};
use crate::text::{chars_of, concat, concat3};

verus! {

/// The position of the last `.` in `name`, or -1 where there is none.
pub open spec fn last_dot(name: Seq<char>) -> int
    decreases name.len(),
{
    if name.len() == 0 {
        -1
    } else if name.last() == '.' {
        name.len() - 1
    } else {
        last_dot(name.drop_last())
    }
}

/// The extension of a file name, as `std::path::Path::extension` documents
/// it: what follows the final `.`, and nothing where the name holds no `.`
/// or only one at its start.
pub open spec fn file_extension(name: Seq<char>) -> Option<Seq<char>> {
    if last_dot(name) > 0 {
        Some(name.subrange(last_dot(name) + 1, name.len() as int))
    } else {
        None
    }
}

/// The name of a JSON file: its extension is `json`.
pub open spec fn is_json_file(name: Seq<char>) -> bool {
    file_extension(name) == Some(seq!['j', 's', 'o', 'n'])
}

/// The names among `names` of JSON files, in their order.
pub open spec fn json_names(names: Seq<Seq<char>>) -> Seq<Seq<char>>
    decreases names.len(),
{
    if names.len() == 0 {
        Seq::empty()
    } else if is_json_file(names.last()) {
        json_names(names.drop_last()).push(names.last())
    } else {
        json_names(names.drop_last())
    }
}

/// The texts of `list`, separated by a comma and a space.
pub open spec fn comma_joined(list: Seq<Seq<char>>) -> Seq<char>
    decreases list.len(),
{
    if list.len() == 0 {
        Seq::empty()
    } else if list.len() == 1 {
        list[0]
    } else {
        comma_joined(list.drop_last()) + ", "@ + list.last()
    }
}

/// The error for a directory that holds no JSON file.
pub open spec fn no_json_message(dir: Seq<char>) -> Seq<char> {
    "No .json file found in "@ + dir + ". Ensure cargo doc ran successfully."@
}

/// The error for a directory that holds the JSON files `found`.
pub open spec fn multiple_json_message(dir: Seq<char>, found: Seq<Seq<char>>) -> Seq<char> {
    "Multiple .json files found in "@ + dir + ". Please specify which one to use:\n  "@
        + comma_joined(found)
}

/// The JSON file of the directory `dir` whose entries are named `names`:
/// its path where there is exactly one, else the error.
pub open spec fn json_output(dir: Seq<char>, names: Seq<Seq<char>>) -> Result<Seq<char>, Seq<char>> {
    let found = json_names(names);
    if found.len() == 0 {
        Err(no_json_message(dir))
    } else if found.len() == 1 {
        Ok(joined_path(dir, found[0]))
    } else {
        Err(multiple_json_message(dir, found))
    }
}

/// The directory yields a JSON file exactly where one, and only one, of its
/// entries is a JSON file, and then it is that entry, joined to the directory.
pub proof fn json_output_needs_exactly_one(dir: Seq<char>, names: Seq<Seq<char>>)
    ensures
        json_output(dir, names) is Ok <==> json_names(names).len() == 1,
        json_output(dir, names) is Ok ==> json_output(dir, names)->Ok_0 == joined_path(
            dir,
            json_names(names)[0],
        ),
{
}

/// Each name that `json_names` keeps is a JSON file's and one of the names.
proof fn lemma_json_names_members(names: Seq<Seq<char>>)
    ensures
        forall|j: int|
            0 <= j < json_names(names).len() ==> is_json_file(#[trigger] json_names(names)[j])
                && names.contains(json_names(names)[j]),
    decreases names.len(),
{
    if names.len() > 0 {
        let rest = names.drop_last();
        lemma_json_names_members(rest);
        assert forall|j: int| 0 <= j < json_names(names).len() implies is_json_file(
            #[trigger] json_names(names)[j],
        ) && names.contains(json_names(names)[j]) by {
            if j < json_names(rest).len() {
                let i = choose|i: int| 0 <= i < rest.len() && rest[i] == json_names(rest)[j];
                assert(names[i] == rest[i]);
            } else {
                assert(names[names.len() - 1] == names.last());
            }
        }
    }
}

/// How often a name occurs among the JSON names: as often as among all the
/// names where it is a JSON file's, never otherwise.
proof fn lemma_json_names_count(names: Seq<Seq<char>>, x: Seq<char>)
    ensures
        json_names(names).to_multiset().count(x) == if is_json_file(x) {
            names.to_multiset().count(x)
        } else {
            0
        },
    decreases names.len(),
{
    broadcast use vstd::seq_lib::group_to_multiset_ensures;
    broadcast use vstd::multiset::group_multiset_axioms;

    if names.len() == 0 {
        assert(!json_names(names).contains(x));
        assert(!names.contains(x));
    } else {
        let rest = names.drop_last();
        lemma_json_names_count(rest, x);
        assert(names =~= rest.push(names.last()));
    }
}

/// The JSON file chosen does not depend on the order in which the entries were
/// read: two listings of the same names, in any order, both yield the same
/// path, or both an error.
pub proof fn json_choice_ignores_listing_order(
    dir: Seq<char>,
    first: Seq<Seq<char>>,
    second: Seq<Seq<char>>,
)
    requires
        first.to_multiset() == second.to_multiset(),
    ensures
        json_output(dir, first) is Ok <==> json_output(dir, second) is Ok,
        json_output(dir, first) is Ok ==> json_output(dir, first) == json_output(dir, second),
{
    broadcast use vstd::seq_lib::group_to_multiset_ensures;
    broadcast use vstd::multiset::group_multiset_axioms;

    let a = json_names(first);
    let b = json_names(second);
    assert forall|x: Seq<char>| a.to_multiset().count(x) == b.to_multiset().count(x) by {
        lemma_json_names_count(first, x);
        lemma_json_names_count(second, x);
    }
    assert(a.to_multiset() =~= b.to_multiset());
    assert(a.len() == a.to_multiset().len());
    assert(b.len() == b.to_multiset().len());
    if a.len() == 1 {
        assert(a.contains(a[0]));
        assert(b.to_multiset().count(a[0]) > 0);
        assert(b.contains(a[0]));
        assert(b[0] == a[0]);
    }
}

/// Where the directory yields a JSON file, it is one of the listed names,
/// the name of a JSON file, joined to the directory.
pub proof fn json_output_is_a_listed_json_file(dir: Seq<char>, names: Seq<Seq<char>>)
    ensures
        json_output(dir, names) is Ok ==> {
            let found = json_names(names)[0];
            &&& names.contains(found)
            &&& is_json_file(found)
            &&& json_output(dir, names)->Ok_0 == joined_path(dir, found)
        },
{
    lemma_json_names_members(names);
    if json_names(names).len() == 1 {
        assert(is_json_file(json_names(names)[0]));
    }
}

/// A path that ends with a name has the extension of that name.
proof fn lemma_last_dot_of_suffix(path: Seq<char>, name: Seq<char>)
    requires
        name.len() <= path.len(),
        path.subrange(path.len() - name.len(), path.len() as int) == name,
        last_dot(name) >= 0,
    ensures
        last_dot(path) == path.len() - name.len() + last_dot(name),
    decreases name.len(),
{
    if name.len() > 0 {
        assert(path.last() == path.subrange(path.len() - name.len(), path.len() as int)[name.len() - 1]);
        if name.last() != '.' {
            let shorter = path.drop_last();
            let short_name = name.drop_last();
            assert(shorter.subrange(shorter.len() - short_name.len(), shorter.len() as int)
                =~= short_name);
            lemma_last_dot_of_suffix(shorter, short_name);
        }
    }
}

proof fn lemma_last_dot_bounds(name: Seq<char>)
    ensures
        -1 <= last_dot(name) < name.len(),
    decreases name.len(),
{
    if name.len() > 0 && name.last() != '.' {
        lemma_last_dot_bounds(name.drop_last());
    }
}

proof fn lemma_json_suffix(path: Seq<char>, name: Seq<char>)
    requires
        name.len() <= path.len(),
        path.subrange(path.len() - name.len(), path.len() as int) == name,
        is_json_file(name),
    ensures
        is_json_file(path),
{
    lemma_last_dot_bounds(name);
    lemma_last_dot_of_suffix(path, name);
    let d = last_dot(path);
    let offset = path.len() - name.len();
    assert forall|k: int| 0 <= k < name.len() implies path[offset + k] == name[k] by {
        assert(path.subrange(offset, path.len() as int)[k] == path[offset + k]);
    }
    assert(path.subrange(d + 1, path.len() as int) =~= name.subrange(
        last_dot(name) + 1,
        name.len() as int,
    ));
}

/// Whether `name` is the name of a JSON file.
pub fn has_json_extension(name: &str) -> (r: bool)
    ensures
        r == is_json_file(name@),
{
    let chars = chars_of(name);
    let n = chars.len();
    let mut k = n;
    assert(chars@.subrange(0, n as int) =~= chars@);
    while k > 0 && chars[k - 1] != '.'
        invariant
            k <= n == chars.len(),
            last_dot(chars@) == last_dot(chars@.subrange(0, k as int)),
        decreases k,
    {
        assert(chars@.subrange(0, k as int).drop_last() =~= chars@.subrange(0, k - 1));
        k = k - 1;
    }
    proof {
        assert(chars@.subrange(0, n as int) =~= chars@);
        if k > 0 {
            assert(chars@.subrange(0, k as int).last() == '.');
        }
    }
    // k is one past the last dot, or 0 where there is none
    if k < 2 {
        return false;
    }
    let tail_len = n - k;
    if tail_len != 4 {
        proof {
            assert(file_extension(chars@)->0.len() == tail_len);
        }
        return false;
    }
    let same = chars[k] == 'j' && chars[k + 1] == 's' && chars[k + 2] == 'o' && chars[k + 3] == 'n';
    proof {
        let ext = chars@.subrange(k as int, n as int);
        assert(file_extension(chars@) == Some(ext));
        if same {
            assert(ext =~= seq!['j', 's', 'o', 'n']);
        } else {
            assert(ext[0] != 'j' || ext[1] != 's' || ext[2] != 'o' || ext[3] != 'n');
        }
    }
    same
}

/// The texts of `list`, separated by a comma and a space.
fn join_with_commas(list: &Vec<String>) -> (r: String)
    ensures
        r@ == comma_joined(texts_chars(list@)),
{
    let ghost views = texts_chars(list@);
    if list.len() == 0 {
        return String::new();
    }
    let mut joined = list[0].clone();
    assert(views.take(1) =~= seq![views[0]]);
    let mut i: usize = 1;
    while i < list.len()
        invariant
            1 <= i <= list.len(),
            views == texts_chars(list@),
            joined@ == comma_joined(views.take(i as int)),
        decreases list.len() - i,
    {
        assert(views.take(i + 1).drop_last() =~= views.take(i as int));
        joined = concat3(joined.as_str(), ", ", list[i].as_str());
        i = i + 1;
    }
    assert(views.take(list.len() as int) =~= views);
    joined
}

/// The JSON file among the entries of the directory `dir`, named `names` in
/// the order they were read: its path where there is exactly one, else an
/// error that says there is none, or names them all. Where the name found is
/// a plain component and `dir` has no verbatim prefix, the path starts with
/// `dir`, ends with that name and has the extension `json`.
pub fn find_json_output(dir: &str, names: &Vec<String>) -> (r: Result<String, String>)
    ensures
        match r {
            Ok(path) => json_output(dir@, texts_chars(names@)) == Ok::<Seq<char>, Seq<char>>(path@),
            Err(message) => json_output(dir@, texts_chars(names@)) == Err::<Seq<char>, Seq<char>>(
                message@,
            ),
        },
        r is Ok && plain_component(json_names(texts_chars(names@))[0]) && !verbatim(dir@) ==> {
            let found = json_names(texts_chars(names@))[0];
            let chosen = r->Ok_0@;
            &&& dir@.is_prefix_of(chosen)
            &&& found.is_suffix_of(chosen)
            &&& is_json_file(chosen)
        },
{
    let ghost views = texts_chars(names@);
    let mut found: Vec<String> = Vec::new();
    let mut i: usize = 0;
    while i < names.len()
        invariant
            i <= names.len(),
            views == texts_chars(names@),
            texts_chars(found@) == json_names(views.take(i as int)),
        decreases names.len() - i,
    {
        assert(views.take(i + 1).drop_last() =~= views.take(i as int));
        if has_json_extension(names[i].as_str()) {
            let name = names[i].clone();
            found.push(name);
            assert(texts_chars(found@) =~= json_names(views.take(i as int)).push(views[i as int]));
        }
        i = i + 1;
    }
    assert(views.take(names.len() as int) =~= views);
    if found.len() == 0 {
        Err(concat3("No .json file found in ", dir, ". Ensure cargo doc ran successfully."))
    } else if found.len() == 1 {
        let path = join_path(dir, found[0].as_str());
        proof {
            let name = json_names(views)[0];
            lemma_json_names_members(views);
            assert(found[0]@ == name);
            if plain_component(name) && !verbatim(dir@) {
                lemma_json_suffix(path@, name);
                assert(dir@.is_prefix_of(path@));
                assert(name.is_suffix_of(path@));
            }
        }
        Ok(path)
    } else {
        let listed = join_with_commas(&found);
        let head = concat3("Multiple .json files found in ", dir, ". Please specify which one to use:\n  ");
        Err(concat(head.as_str(), listed.as_str()))
    }
}

} // verus!
