//! The search filter: a query, the entries of the file index whose display
//! name contains it, and a selection among those results.

use vstd::prelude::*;
use crate::index::{clamp_index, index_views, lemma_matching_indices, matching_indices, FileIndex};
use crate::text::{chars_of, string_of, text_views};

verus! {

/// The mathematical content of a [`SearchFilter`].
pub struct SearchView {
    pub query: Seq<char>,
    pub results: Seq<int>,
    pub selected: int,
}

impl SearchView {
    /// The results are those of the query over `names`, and the selection
    /// is a result, or 0 where there is none.
    pub open spec fn wf(self, names: Seq<Seq<char>>) -> bool {
        &&& self.results == matching_indices(names, self.query)
        &&& self.selected == clamp_index(self.selected, self.results.len() as int)
        &&& 0 <= self.selected
    }

    /// The filter for `query` over `names`, the selection kept where it is
    /// still a result, else put on the last result.
    pub open spec fn with_query(self, names: Seq<Seq<char>>, query: Seq<char>) -> SearchView {
        let results = matching_indices(names, query);
        SearchView {
            query,
            results,
            selected: clamp_index(self.selected, results.len() as int),
        }
    }

    /// A freshly opened search over `names`: the empty query, the selection
    /// on the first result.
    pub open spec fn opened(names: Seq<Seq<char>>) -> SearchView {
        SearchView {
            query: Seq::empty(),
            results: matching_indices(names, Seq::empty()),
            selected: 0,
        }
    }

    /// The selection moved to the next result, if there is one.
    pub open spec fn next(self) -> SearchView {
        if self.selected + 1 < self.results.len() {
            SearchView { selected: self.selected + 1, ..self }
        } else {
            self
        }
    }

    /// The selection moved to the result before it, if there is one.
    pub open spec fn previous(self) -> SearchView {
        if self.selected > 0 {
            SearchView { selected: self.selected - 1, ..self }
        } else {
            self
        }
    }

    /// The display names of the results, in order.
    pub open spec fn result_names(self, names: Seq<Seq<char>>) -> Seq<Seq<char>> {
        Seq::new(self.results.len(), |k: int| names[self.results[k]])
    }

    /// The entry of the file index that the selection stands for, if there
    /// is any result.
    pub open spec fn confirmed(self) -> Option<int> {
        if 0 <= self.selected < self.results.len() {
            Some(self.results[self.selected])
        } else {
            None
        }
    }
}

/// A live substring filter over the display names of a file index.
pub struct SearchFilter {
    query: Vec<char>,
    results: Vec<usize>,
    selected: usize,
}

impl View for SearchFilter {
    type V = SearchView;

    closed spec fn view(&self) -> SearchView {
        SearchView {
            query: self.query@,
            results: index_views(self.results@),
            selected: self.selected as int,
        }
    }
}

impl SearchFilter {
    /// The invariant of the filter over the index it searches.
    pub open spec fn wf(&self, index: &FileIndex) -> bool {
        self@.wf(index@.names())
    }

    /// A filter with the empty query over an empty index.
    pub fn new() -> (filter: SearchFilter)
        ensures
            filter@ == SearchView::opened(Seq::empty()),
    {
        let filter = SearchFilter { query: Vec::new(), results: Vec::new(), selected: 0 };
        assert(filter@.results =~= matching_indices(Seq::empty(), Seq::empty()));
        filter
    }

    /// Keeps the selection inside the results.
    fn clamp(&mut self)
        ensures
            final(self)@ == (SearchView {
                selected: clamp_index(old(self)@.selected, old(self)@.results.len() as int),
                ..old(self)@
            }),
    {
        let n = self.results.len();
        if n == 0 {
            self.selected = 0;
        } else if self.selected >= n {
            self.selected = n - 1;
        }
    }

    /// Sets the query, computes its results over `index` anew and keeps the
    /// selection inside them.
    pub fn set_query(&mut self, index: &FileIndex, query: &str)
        ensures
            final(self).wf(index),
            final(self)@ == old(self)@.with_query(index@.names(), query@),
            final(self)@.results.len() > 0 ==> final(self)@.selected < final(self)@.results.len(),
            final(self)@.results.len() == 0 ==> final(self)@.selected == 0,
    {
        self.query = chars_of(query);
        self.results = index.matching(&self.query);
        self.clamp();
    }

    /// Opens the search: the empty query, every entry of `index` a result,
    /// the selection on the first.
    pub fn open(&mut self, index: &FileIndex)
        ensures
            final(self).wf(index),
            final(self)@ == SearchView::opened(index@.names()),
    {
        self.query = Vec::new();
        self.results = index.matching(&self.query);
        self.selected = 0;
    }

    /// Appends `c` to the query and filters anew.
    pub fn type_char(&mut self, index: &FileIndex, c: char)
        ensures
            final(self).wf(index),
            final(self)@ == old(self)@.with_query(index@.names(), old(self)@.query.push(c)),
    {
        self.query.push(c);
        self.results = index.matching(&self.query);
        self.clamp();
    }

    /// Removes the last character of the query, if it has one, and filters
    /// anew.
    pub fn erase_char(&mut self, index: &FileIndex)
        ensures
            final(self).wf(index),
            final(self)@ == old(self)@.with_query(
                index@.names(),
                if old(self)@.query.len() > 0 {
                    old(self)@.query.drop_last()
                } else {
                    old(self)@.query
                },
            ),
    {
        self.query.pop();
        self.results = index.matching(&self.query);
        self.clamp();
    }

    /// Computes the results of the present query over `index` anew, after
    /// the index has changed.
    pub fn refresh(&mut self, index: &FileIndex)
        ensures
            final(self).wf(index),
            final(self)@ == old(self)@.with_query(index@.names(), old(self)@.query),
    {
        self.results = index.matching(&self.query);
        self.clamp();
    }

    /// Moves the selection to the next result; at the last result it stays.
    pub fn select_next(&mut self)
        ensures
            final(self)@ == old(self)@.next(),
    {
        if self.results.len() > 0 && self.selected < self.results.len() - 1 {
            self.selected += 1;
        }
    }

    /// Moves the selection to the result before it; at the first result it
    /// stays.
    pub fn select_previous(&mut self)
        ensures
            final(self)@ == old(self)@.previous(),
    {
        if self.selected > 0 {
            self.selected -= 1;
        }
    }

    /// The entry of the file index that the selected result stands for, or
    /// `None` where there is no result.
    pub fn confirm(&self) -> (entry: Option<usize>)
        ensures
            entry.is_some() == self@.confirmed().is_some(),
            entry.is_some() ==> entry.unwrap() == self@.confirmed().unwrap(),
    {
        if self.selected < self.results.len() {
            Some(self.results[self.selected])
        } else {
            None
        }
    }

    /// The query.
    pub fn query(&self) -> (q: String)
        ensures
            q@ == self@.query,
    {
        string_of(&self.query)
    }

    /// The results: positions in the file index, ascending.
    pub fn results(&self) -> (r: Vec<usize>)
        ensures
            index_views(r@) == self@.results,
    {
        self.results.clone()
    }

    /// The display names of the results, in order.
    pub fn result_names(&self, index: &FileIndex) -> (names: Vec<String>)
        requires
            self.wf(index),
        ensures
            text_views(names@) == self@.result_names(index@.names()),
    {
        let mut names: Vec<String> = Vec::new();
        let mut k: usize = 0;
        proof {
            lemma_matching_indices(index@.names(), self@.query);
        }
        while k < self.results.len()
            invariant
                k <= self.results.len(),
                forall|j: int|
                    0 <= j < self@.results.len() ==> 0 <= #[trigger] self@.results[j]
                        < index@.names().len(),
                text_views(names@) == self@.result_names(index@.names()).subrange(0, k as int),
            decreases self.results.len() - k,
        {
            let ghost before = text_views(names@);
            match index.name(self.results[k]) {
                Some(name) => {
                    names.push(name);
                    assert(text_views(names@) =~= before.push(
                        index@.names()[self@.results[k as int]],
                    ));
                },
                None => {},
            }
            k += 1;
        }
        assert(self@.result_names(index@.names()).subrange(0, self.results.len() as int)
            == self@.result_names(index@.names()));
        names
    }

    /// The position of the selected result among the results.
    pub fn selected(&self) -> (i: usize)
        ensures
            i == self@.selected,
    {
        self.selected
    }
}

} // verus!
