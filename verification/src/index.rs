//! The file index: the paths of the known notes in ascending order, with a
//! selection.

use vstd::prelude::*;
use crate::paths::{
    display_name, final_component, is_listing_of, is_note_path, lemma_listing_holds_notes,
    note_paths, sorted,
};
use crate::text::{chars_of, contains, contains_text, line_views, same_text, string_of, text_views};

verus! {

/// A selection kept inside a list of `len` entries: unchanged where it is in
/// range, else the last entry; 0 for an empty list.
pub open spec fn clamp_index(i: int, len: int) -> int {
    if len <= 0 {
        0
    } else if i < len {
        i
    } else {
        len - 1
    }
}

/// Position of the first entry equal to `path`, or `paths.len()` if there is
/// none.
pub open spec fn first_index_of(paths: Seq<Seq<char>>, path: Seq<char>) -> int
    decreases paths.len(),
{
    if paths.len() == 0 || paths[0] == path {
        0
    } else {
        1 + first_index_of(paths.drop_first(), path)
    }
}

/// The indices of the names that contain `query`, in ascending order.
pub open spec fn matching_indices(names: Seq<Seq<char>>, query: Seq<char>) -> Seq<int>
    decreases names.len(),
{
    if names.len() == 0 {
        Seq::empty()
    } else {
        let rest = matching_indices(names.drop_last(), query);
        if contains_text(names.last(), query) {
            rest.push(names.len() - 1)
        } else {
            rest
        }
    }
}

/// The indices held by a vector, as integers.
pub open spec fn index_views(v: Seq<usize>) -> Seq<int> {
    Seq::new(v.len(), |i: int| v[i] as int)
}

/// `first_index_of(paths, path)` is the one position `k` with no entry equal
/// to `path` before it that is either the end of `paths` or holds `path`.
pub proof fn lemma_first_index_of(paths: Seq<Seq<char>>, path: Seq<char>, k: int)
    requires
        0 <= k <= paths.len(),
        forall|j: int| 0 <= j < k ==> paths[j] != path,
        k == paths.len() || paths[k] == path,
    ensures
        first_index_of(paths, path) == k,
    decreases paths.len(),
{
    if paths.len() > 0 && paths[0] != path {
        lemma_first_index_of(paths.drop_first(), path, k - 1);
    }
}

/// The first position of `path` is a position of `paths` or its length,
/// and where it is a position, `path` stands there.
pub proof fn lemma_first_index_of_bounds(paths: Seq<Seq<char>>, path: Seq<char>)
    ensures
        0 <= first_index_of(paths, path) <= paths.len(),
        first_index_of(paths, path) < paths.len() ==> paths[first_index_of(paths, path)] == path,
    decreases paths.len(),
{
    if paths.len() > 0 && paths[0] != path {
        lemma_first_index_of_bounds(paths.drop_first(), path);
    }
}

/// What the results of a query are: positions of entries whose name
/// contains the query, every such position, in strictly ascending order.
pub proof fn lemma_matching_indices(names: Seq<Seq<char>>, query: Seq<char>)
    ensures
        forall|k: int|
            0 <= k < matching_indices(names, query).len() ==> {
                let i = #[trigger] matching_indices(names, query)[k];
                0 <= i < names.len() && contains_text(names[i], query)
            },
        forall|j: int, k: int|
            0 <= j < k < matching_indices(names, query).len() ==> matching_indices(names, query)[j]
                < matching_indices(names, query)[k],
        forall|i: int|
            0 <= i < names.len() && contains_text(#[trigger] names[i], query)
                ==> matching_indices(names, query).contains(i),
        matching_indices(names, query).len() <= names.len(),
    decreases names.len(),
{
    let r = matching_indices(names, query);
    if names.len() > 0 {
        let init = names.drop_last();
        let rest = matching_indices(init, query);
        lemma_matching_indices(init, query);
        assert forall|i: int| 0 <= i < names.len() && contains_text(
            #[trigger] names[i],
            query,
        ) implies r.contains(i) by {
            if i < names.len() - 1 {
                assert(init[i] == names[i]);
                assert(rest.contains(i));
                let k = choose|k: int| 0 <= k < rest.len() && rest[k] == i;
                assert(r[k] == i);
            } else {
                assert(r[r.len() - 1] == i);
            }
        }
    }
}

/// The mathematical content of a [`FileIndex`].
pub struct IndexView {
    pub paths: Seq<Seq<char>>,
    pub selected: int,
}

impl IndexView {
    /// The paths are note paths in ascending order, and the selection is an
    /// entry, or 0 where there is none.
    pub open spec fn wf(self) -> bool {
        &&& sorted(self.paths)
        &&& forall|i: int| 0 <= i < self.paths.len() ==> is_note_path(#[trigger] self.paths[i])
        &&& self.selected == clamp_index(self.selected, self.paths.len() as int)
        &&& 0 <= self.selected
    }

    /// The display names of the entries.
    pub open spec fn names(self) -> Seq<Seq<char>> {
        Seq::new(self.paths.len(), |i: int| display_name(self.paths[i]))
    }

    /// The selected path, if there is any entry.
    pub open spec fn current(self) -> Option<Seq<char>> {
        if 0 <= self.selected < self.paths.len() {
            Some(self.paths[self.selected])
        } else {
            None
        }
    }

    /// The display name of the selected entry, or `-` where there is none.
    pub open spec fn current_name(self) -> Seq<char> {
        match self.current() {
            Some(path) => display_name(path),
            None => seq!['-'],
        }
    }

    /// The selection moved to the next entry, if there is one.
    pub open spec fn next(self) -> IndexView {
        if self.selected + 1 < self.paths.len() {
            IndexView { selected: self.selected + 1, ..self }
        } else {
            self
        }
    }

    /// The selection moved to the entry before it, if there is one.
    pub open spec fn previous(self) -> IndexView {
        if self.selected > 0 {
            IndexView { selected: self.selected - 1, ..self }
        } else {
            self
        }
    }

    /// The selection put on entry `i`, if there is such an entry.
    pub open spec fn selecting(self, i: int) -> IndexView {
        if 0 <= i < self.paths.len() {
            IndexView { selected: i, ..self }
        } else {
            self
        }
    }

    /// Whether `path` is the path of an entry.
    pub open spec fn holds(self, path: Seq<char>) -> bool {
        first_index_of(self.paths, path) < self.paths.len()
    }

    /// The selection put on the first entry equal to `path`, or on the last
    /// entry where no entry is.
    pub open spec fn selecting_path(self, path: Seq<char>) -> IndexView {
        IndexView {
            selected: clamp_index(first_index_of(self.paths, path), self.paths.len() as int),
            ..self
        }
    }
}

/// Moving the selection changes no display name.
pub proof fn lemma_names_of_selection(index: IndexView, i: int)
    ensures
        index.selecting(i).names() == index.names(),
        index.next().names() == index.names(),
        index.previous().names() == index.names(),
{
}

/// The known notes and the selection among them.
pub struct FileIndex {
    paths: Vec<Vec<char>>,
    selected: usize,
}

impl View for FileIndex {
    type V = IndexView;

    closed spec fn view(&self) -> IndexView {
        IndexView { paths: line_views(self.paths@), selected: self.selected as int }
    }
}

impl FileIndex {
    /// The invariant of the index, which every operation keeps.
    pub open spec fn wf(&self) -> bool {
        self@.wf()
    }

    /// An index without entries.
    pub fn new() -> (index: FileIndex)
        ensures
            index.wf(),
            index@.paths.len() == 0,
            index@.selected == 0,
    {
        FileIndex { paths: Vec::new(), selected: 0 }
    }

    /// Replaces the entries by the notes among `entries`, in ascending
    /// order, and keeps the selection inside the new list.
    pub fn rescan(&mut self, entries: &Vec<String>)
        ensures
            final(self).wf(),
            is_listing_of(final(self)@.paths, text_views(entries@)),
            final(self)@.selected == clamp_index(
                old(self)@.selected,
                final(self)@.paths.len() as int,
            ),
            final(self)@.paths.len() > 0 ==> final(self)@.selected < final(self)@.paths.len(),
            final(self)@.paths.len() == 0 ==> final(self)@.selected == 0,
    {
        self.paths = note_paths(entries);
        let n = self.paths.len();
        if n == 0 {
            self.selected = 0;
        } else if self.selected >= n {
            self.selected = n - 1;
        }
        proof {
            lemma_listing_holds_notes(self@.paths, text_views(entries@));
        }
    }

    /// Moves the selection to the next entry; at the last entry it stays.
    pub fn select_next(&mut self)
        requires
            old(self).wf(),
        ensures
            final(self).wf(),
            final(self)@ == old(self)@.next(),
    {
        if self.paths.len() > 0 && self.selected < self.paths.len() - 1 {
            self.selected += 1;
        }
    }

    /// Moves the selection to the entry before it; at the first entry it
    /// stays.
    pub fn select_previous(&mut self)
        requires
            old(self).wf(),
        ensures
            final(self).wf(),
            final(self)@ == old(self)@.previous(),
    {
        if self.selected > 0 {
            self.selected -= 1;
        }
    }

    /// Puts the selection on entry `i`; without such an entry it stays.
    pub fn select(&mut self, i: usize)
        requires
            old(self).wf(),
        ensures
            final(self).wf(),
            final(self)@ == old(self)@.selecting(i as int),
    {
        if i < self.paths.len() {
            self.selected = i;
        }
    }

    /// Puts the selection on the entry with path `path`, or on the last
    /// entry where there is no such entry, and says whether there is one.
    pub fn select_path(&mut self, path: &str) -> (found: bool)
        requires
            old(self).wf(),
        ensures
            final(self).wf(),
            final(self)@ == old(self)@.selecting_path(path@),
            found == old(self)@.holds(path@),
    {
        let wanted = chars_of(path);
        let n = self.paths.len();
        let mut k: usize = 0;
        while k < n && !same_text(&self.paths[k], &wanted)
            invariant
                n == self.paths.len(),
                k <= n,
                forall|j: int| 0 <= j < k ==> self@.paths[j] != wanted@,
            decreases n - k,
        {
            k += 1;
        }
        proof {
            lemma_first_index_of(self@.paths, wanted@, k as int);
        }
        if k < n {
            self.selected = k;
            true
        } else {
            self.selected = if n > 0 {
                n - 1
            } else {
                0
            };
            false
        }
    }

    /// The number of entries.
    pub fn len(&self) -> (n: usize)
        ensures
            n == self@.paths.len(),
    {
        self.paths.len()
    }

    /// The position of the selected entry.
    pub fn selected(&self) -> (i: usize)
        ensures
            i == self@.selected,
    {
        self.selected
    }

    /// The path of entry `i`, or `None` if there is no such entry.
    pub fn path(&self, i: usize) -> (p: Option<String>)
        ensures
            i < self@.paths.len() ==> p.is_some() && p.unwrap()@ == self@.paths[i as int],
            i >= self@.paths.len() ==> p.is_none(),
    {
        if i < self.paths.len() {
            Some(string_of(&self.paths[i]))
        } else {
            None
        }
    }

    /// The display name of entry `i`, or `None` if there is no such entry.
    pub fn name(&self, i: usize) -> (n: Option<String>)
        ensures
            i < self@.paths.len() ==> n.is_some() && n.unwrap()@ == self@.names()[i as int],
            i >= self@.paths.len() ==> n.is_none(),
    {
        if i < self.paths.len() {
            let chars = final_component(&self.paths[i]);
            Some(string_of(&chars))
        } else {
            None
        }
    }

    /// The path of the selected note, or `None` where the index is empty.
    pub fn current(&self) -> (p: Option<String>)
        ensures
            p.is_some() == self@.current().is_some(),
            p.is_some() ==> p.unwrap()@ == self@.current().unwrap(),
    {
        self.path(self.selected)
    }

    /// The display name of the selected note, or `-` where the index is
    /// empty.
    pub fn current_name(&self) -> (name: String)
        ensures
            name@ == self@.current_name(),
    {
        if self.selected < self.paths.len() {
            let chars = final_component(&self.paths[self.selected]);
            string_of(&chars)
        } else {
            let mut name = String::new();
            name.push('-');
            assert(name@ =~= seq!['-']);
            name
        }
    }

    /// The display names of all entries, in order.
    pub fn names(&self) -> (names: Vec<String>)
        ensures
            text_views(names@) == self@.names(),
    {
        let mut names: Vec<String> = Vec::new();
        let mut i: usize = 0;
        while i < self.paths.len()
            invariant
                i <= self.paths.len(),
                text_views(names@) == self@.names().subrange(0, i as int),
            decreases self.paths.len() - i,
        {
            let ghost before = text_views(names@);
            let chars = final_component(&self.paths[i]);
            names.push(string_of(&chars));
            assert(text_views(names@) =~= before.push(self@.names()[i as int]));
            i += 1;
        }
        assert(self@.names().subrange(0, self.paths.len() as int) == self@.names());
        names
    }

    /// The positions of the entries whose display name contains `query`, in
    /// ascending order.
    pub fn matching(&self, query: &Vec<char>) -> (found: Vec<usize>)
        ensures
            index_views(found@) == matching_indices(self@.names(), query@),
    {
        let mut found: Vec<usize> = Vec::new();
        let mut i: usize = 0;
        let ghost names = self@.names();
        while i < self.paths.len()
            invariant
                i <= self.paths.len(),
                names == self@.names(),
                index_views(found@) == matching_indices(names.subrange(0, i as int), query@),
            decreases self.paths.len() - i,
        {
            let ghost before = index_views(found@);
            assert(names.subrange(0, i + 1).drop_last() == names.subrange(0, i as int));
            let name = final_component(&self.paths[i]);
            if contains(&name, query) {
                found.push(i);
                assert(index_views(found@) =~= before.push(i as int));
            }
            i += 1;
        }
        assert(names.subrange(0, self.paths.len() as int) == names);
        found
    }
}

} // verus!
