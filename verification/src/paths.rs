//! The rules on note paths: the display name of a note, the extension that
//! makes a file a note, and the listing of the notes of a directory.

use vstd::prelude::*;
use vstd::relations::{antisymmetric, reflexive, strongly_connected, total_ordering, transitive};
use crate::text::{
    chars_of, ends_with, has_suffix, lemma_lex_asymmetric, lemma_lex_connected,
    lemma_lex_transitive, lex_le, lex_less, line_views, strings_of, text_views,
};

verus! {

/// The extension of a note file, with its dot.
pub open spec fn note_extension() -> Seq<char> {
    seq!['.', 'm', 'd']
}

/// Where the final component of `path` begins: just after its last `/`, or
/// at 0 if it has none.
pub open spec fn name_start(path: Seq<char>) -> int
    decreases path.len(),
{
    if path.len() == 0 {
        0
    } else if path.last() == '/' {
        path.len() as int
    } else {
        name_start(path.drop_last())
    }
}

/// The display name of a note: the final component of its path.
pub open spec fn display_name(path: Seq<char>) -> Seq<char> {
    path.subrange(name_start(path), path.len() as int)
}

/// A file name with the note extension and something before it.
pub open spec fn is_note_name(name: Seq<char>) -> bool {
    name.len() > note_extension().len() && ends_with(name, note_extension())
}

/// A path whose final component is the name of a note.
pub open spec fn is_note_path(path: Seq<char>) -> bool {
    is_note_name(display_name(path))
}

/// The file name of a new note: the typed name, with the note extension
/// added unless the name already ends in it.
pub open spec fn note_file_name(typed: Seq<char>) -> Seq<char> {
    if ends_with(typed, note_extension()) {
        typed
    } else {
        typed + note_extension()
    }
}

/// The paths are in ascending lexicographic order.
pub open spec fn sorted(paths: Seq<Seq<char>>) -> bool {
    forall|i: int, j: int|
        0 <= i < j < paths.len() ==> lex_le(#[trigger] paths[i], #[trigger] paths[j])
}

/// `paths` is the listing of the notes among `entries`: in ascending order,
/// each note path as often as it stands among the entries, and nothing else.
pub open spec fn is_listing_of(paths: Seq<Seq<char>>, entries: Seq<Seq<char>>) -> bool {
    &&& sorted(paths)
    &&& forall|p: Seq<char>| #[trigger]
        paths.to_multiset().count(p) == if is_note_path(p) {
            entries.to_multiset().count(p)
        } else {
            0
        }
}

/// The lexicographic order on paths, as a relation.
pub open spec fn path_order() -> spec_fn(Seq<char>, Seq<char>) -> bool {
    |a: Seq<char>, b: Seq<char>| lex_le(a, b)
}

/// `name_start(path)` is the one position `k` with no `/` from it on that
/// is either 0 or just after a `/`.
pub proof fn lemma_name_start(path: Seq<char>, k: int)
    requires
        0 <= k <= path.len(),
        forall|j: int| k <= j < path.len() ==> path[j] != '/',
        k == 0 || path[k - 1] == '/',
    ensures
        name_start(path) == k,
    decreases path.len(),
{
    if path.len() > 0 && path.last() != '/' {
        lemma_name_start(path.drop_last(), k);
    }
}

/// The display name starts inside the path, at its start or just after a
/// `/`, and holds no `/` itself.
pub proof fn lemma_display_name_has_no_slash(path: Seq<char>)
    ensures
        0 <= name_start(path) <= path.len(),
        name_start(path) == 0 || path[name_start(path) - 1] == '/',
        forall|j: int| 0 <= j < display_name(path).len() ==> display_name(path)[j] != '/',
    decreases path.len(),
{
    if path.len() > 0 && path.last() != '/' {
        let init = path.drop_last();
        lemma_display_name_has_no_slash(init);
        assert forall|j: int| 0 <= j < display_name(path).len() implies display_name(path)[j]
            != '/' by {
            if j < display_name(init).len() {
                assert(display_name(path)[j] == display_name(init)[j]);
            }
        }
    }
}

/// Inserting an element at any position adds it once to the multiset of a
/// sequence.
pub proof fn lemma_insert_to_multiset(s: Seq<Seq<char>>, i: int, x: Seq<char>)
    requires
        0 <= i <= s.len(),
    ensures
        s.insert(i, x).to_multiset() == s.to_multiset().insert(x),
{
    broadcast use vstd::multiset::group_multiset_axioms;

    let t = s.insert(i, x);
    t.to_multiset_ensures();
    assert(t.remove(i) =~= s);
    assert(t[i] == x);
    assert(t.contains(x));
    assert(t.to_multiset() =~= s.to_multiset().insert(x));
}

/// Every path of a listing is a note path.
pub proof fn lemma_listing_holds_notes(paths: Seq<Seq<char>>, entries: Seq<Seq<char>>)
    requires
        is_listing_of(paths, entries),
    ensures
        forall|i: int| 0 <= i < paths.len() ==> is_note_path(#[trigger] paths[i]),
{
    paths.to_multiset_ensures();
    assert forall|i: int| 0 <= i < paths.len() implies is_note_path(#[trigger] paths[i]) by {
        assert(paths.contains(paths[i]));
        assert(paths.to_multiset().count(paths[i]) > 0);
    }
}

/// The lexicographic order is a total order.
pub proof fn lemma_path_order_is_total()
    ensures
        total_ordering(path_order()),
{
    let leq = path_order();
    assert forall|x: Seq<char>, y: Seq<char>| #[trigger] leq(x, y) && #[trigger] leq(y, x) implies x
        == y by {
        lemma_lex_asymmetric(x, y);
    }
    assert forall|x: Seq<char>, y: Seq<char>, z: Seq<char>| #[trigger]
        leq(x, y) && #[trigger] leq(y, z) implies leq(x, z) by {
        if x != y && y != z {
            lemma_lex_transitive(x, y, z);
        }
    }
    assert forall|x: Seq<char>, y: Seq<char>| #[trigger] leq(x, y) || #[trigger] leq(y, x) by {
        lemma_lex_connected(x, y);
    }
    assert(reflexive(leq) && antisymmetric(leq) && transitive(leq) && strongly_connected(leq));
}

/// The characters of the note extension.
fn extension_chars() -> (ext: Vec<char>)
    ensures
        ext@ == note_extension(),
{
    let mut ext: Vec<char> = Vec::new();
    ext.push('.');
    ext.push('m');
    ext.push('d');
    assert(ext@ =~= note_extension());
    ext
}

/// The final component of `path`.
pub fn final_component(path: &Vec<char>) -> (name: Vec<char>)
    ensures
        name@ == display_name(path@),
{
    let mut k: usize = path.len();
    while k > 0 && path[k - 1] != '/'
        invariant
            k <= path.len(),
            forall|j: int| k <= j < path.len() ==> path@[j] != '/',
        decreases k,
    {
        k -= 1;
    }
    proof {
        lemma_name_start(path@, k as int);
    }
    let mut name: Vec<char> = Vec::new();
    let mut i: usize = k;
    while i < path.len()
        invariant
            k <= i <= path.len(),
            name@ == path@.subrange(k as int, i as int),
        decreases path.len() - i,
    {
        name.push(path[i]);
        i += 1;
    }
    name
}

/// Whether the final component of `path` is the name of a note.
pub fn has_note_extension(path: &Vec<char>) -> (r: bool)
    ensures
        r == is_note_path(path@),
{
    let name = final_component(path);
    let ext = extension_chars();
    name.len() > ext.len() && has_suffix(&name, &ext)
}

/// The file name under which a note typed as `typed` is created.
pub fn file_name_for(typed: &Vec<char>) -> (name: Vec<char>)
    ensures
        name@ == note_file_name(typed@),
{
    let mut ext = extension_chars();
    let mut name = typed.clone();
    assert(name@ =~= typed@);
    if !has_suffix(&name, &ext) {
        name.append(&mut ext);
    }
    name
}

/// Inserts `path` into the ascending `paths` at its place in the order.
fn insert_sorted(paths: &mut Vec<Vec<char>>, path: Vec<char>)
    requires
        sorted(line_views(old(paths)@)),
    ensures
        sorted(line_views(final(paths)@)),
        line_views(final(paths)@).to_multiset() == line_views(old(paths)@).to_multiset().insert(
            path@,
        ),
{
    let ghost before = line_views(paths@);
    let mut p: usize = 0;
    while p < paths.len() && !lex_less(&path, &paths[p])
        invariant
            p <= paths.len(),
            before == line_views(paths@),
            forall|i: int| 0 <= i < p ==> lex_le(#[trigger] before[i], path@),
        decreases paths.len() - p,
    {
        proof {
            lemma_lex_connected(path@, before[p as int]);
        }
        p += 1;
    }
    proof {
        assert forall|j: int| p <= j < before.len() implies lex_le(path@, #[trigger] before[j]) by {
            if j > p && before[p as int] != before[j] {
                lemma_lex_transitive(path@, before[p as int], before[j]);
            }
        }
        lemma_insert_to_multiset(before, p as int, path@);
    }
    paths.insert(p, path);
    proof {
        let after = line_views(paths@);
        assert(after =~= before.insert(p as int, path@));
        assert forall|i: int, j: int| 0 <= i < j < after.len() implies lex_le(
            #[trigger] after[i],
            #[trigger] after[j],
        ) by {
            let a = if i < p { i } else { i - 1 };
            let b = if j < p { j } else { j - 1 };
            if i != p {
                assert(after[i] == before[a]);
            }
            if j != p {
                assert(after[j] == before[b]);
            }
        }
    }
}

/// The notes among `entries`, in ascending order of path.
pub fn note_paths(entries: &Vec<String>) -> (paths: Vec<Vec<char>>)
    ensures
        is_listing_of(line_views(paths@), text_views(entries@)),
{
    broadcast use vstd::multiset::group_multiset_axioms;

    let ghost all = text_views(entries@);
    let mut paths: Vec<Vec<char>> = Vec::new();
    let mut i: usize = 0;
    proof {
        all.subrange(0, 0).to_multiset_ensures();
        line_views(paths@).to_multiset_ensures();
    }
    while i < entries.len()
        invariant
            i <= entries.len(),
            all == text_views(entries@),
            is_listing_of(line_views(paths@), all.subrange(0, i as int)),
        decreases entries.len() - i,
    {
        let ghost done = all.subrange(0, i as int);
        let path = chars_of(entries[i].as_str());
        proof {
            done.to_multiset_ensures();
            assert(all.subrange(0, i + 1) == done.push(path@));
        }
        if has_note_extension(&path) {
            insert_sorted(&mut paths, path);
        }
        i += 1;
    }
    assert(all.subrange(0, entries.len() as int) == all);
    paths
}

/// Lists the notes among the entries of a directory: the paths whose final
/// component has the note extension, in ascending order.
pub fn list_md_files(entries: &Vec<String>) -> (files: Vec<String>)
    ensures
        is_listing_of(text_views(files@), text_views(entries@)),
{
    let paths = note_paths(entries);
    strings_of(&paths)
}

} // verus!
