//! Laws of the editor, stated over the mathematical content of its types
//! and proved from the definitions.

use vstd::prelude::*;
use vstd::relations::sorted_by;
use vstd::seq_lib::lemma_sorted_unique;
use crate::app::{AppView, EffectView, Focus, Key, KeyPress, Modifiers};
use crate::buffer::{BufferView, Direction};
use crate::index::{
    clamp_index, lemma_first_index_of_bounds, lemma_matching_indices, matching_indices,
};
use crate::lines::{
    join_lines, lemma_join_of_split, lemma_split_gives_plain_lines, lemma_split_of_join,
    plain_lines,
};
use crate::paths::{is_listing_of, lemma_path_order_is_total, path_order};
use crate::search::SearchView;
use crate::text::{contains_text, lemma_contains_prefix, lex_lt, occurs_at};

verus! {

/// Loading the empty text gives exactly one line, the empty one, with the
/// cursor at its start.
pub proof fn law_empty_load()
    ensures
        BufferView::loaded(Seq::empty()) == (BufferView {
            lines: seq![Seq::<char>::empty()],
            row: 0,
            col: 0,
            scroll: 0,
        }),
        BufferView::loaded(Seq::empty()).wf(),
{
}

/// A loaded buffer is well-formed, whatever the text: it has a line, the
/// cursor stands at the start of the first, and no line holds a line feed.
pub proof fn law_load_is_well_formed(text: Seq<char>)
    ensures
        BufferView::loaded(text).wf(),
        BufferView::loaded(text).lines.len() >= 1,
        plain_lines(BufferView::loaded(text).lines),
{
    lemma_split_gives_plain_lines(text);
}

/// Serializing inverts loading: the text of a buffer that has loaded a
/// text is that text, whatever it holds.
pub proof fn law_serialize_inverts_load(text: Seq<char>)
    ensures
        BufferView::loaded(text).text() == text,
{
    lemma_join_of_split(text);
}

/// Round trip: lines without line feeds are joined, loaded and serialized
/// to the text they were joined to; and the loaded buffer holds exactly
/// those lines, if there is at least one (no lines and one empty line are
/// joined to the same text, the empty one, which loads as one empty line).
pub proof fn law_round_trip(lines: Seq<Seq<char>>)
    requires
        plain_lines(lines),
    ensures
        BufferView::loaded(join_lines(lines)).text() == join_lines(lines),
        lines.len() >= 1 ==> BufferView::loaded(join_lines(lines)).lines == lines,
{
    lemma_join_of_split(join_lines(lines));
    if lines.len() >= 1 {
        lemma_split_of_join(lines);
    }
}

/// The buffer after a sequence of cursor movements, first to last.
pub open spec fn moved_all(b: BufferView, moves: Seq<Direction>) -> BufferView
    decreases moves.len(),
{
    if moves.len() == 0 {
        b
    } else {
        moved_all(b, moves.drop_last()).moved(moves.last())
    }
}

/// Cursor bounds: after any sequence of movements from a well-formed
/// buffer the cursor is on a line and within it, and the lines are
/// unchanged.
pub proof fn law_moves_keep_cursor_in_bounds(b: BufferView, moves: Seq<Direction>)
    requires
        b.wf(),
    ensures
        moved_all(b, moves).wf(),
        moved_all(b, moves).lines == b.lines,
        0 <= moved_all(b, moves).row < b.lines.len(),
        0 <= moved_all(b, moves).col <= b.lines[moved_all(b, moves).row].len(),
    decreases moves.len(),
{
    if moves.len() > 0 {
        law_moves_keep_cursor_in_bounds(b, moves.drop_last());
    }
}

/// Every editing operation keeps a well-formed buffer well-formed.
pub proof fn law_edits_keep_buffer_well_formed(b: BufferView, c: char, height: int)
    requires
        b.wf(),
    ensures
        b.inserted(c).wf(),
        b.split_at_cursor().wf(),
        b.backspaced().wf(),
        b.scrolled(height).wf(),
{
}

/// After scrolling, the cursor row is one of the rows of the window.
pub proof fn law_scroll_shows_cursor(b: BufferView, height: int)
    requires
        b.wf(),
        height >= 1,
    ensures
        b.scrolled(height).scroll <= b.row < b.scrolled(height).scroll + height,
        b.scroll <= b.row < b.scroll + height ==> b.scrolled(height) == b,
{
}

/// Split and join are inverse: splitting the line at the cursor and then
/// deleting backward gives the buffer back, cursor included.
pub proof fn law_split_then_backspace(b: BufferView)
    requires
        b.wf(),
    ensures
        b.split_at_cursor().backspaced() == b,
{
    let s = b.split_at_cursor();
    let r = s.backspaced();
    let head = b.current().subrange(0, b.col);
    let tail = b.current().subrange(b.col, b.current().len() as int);
    assert(head + tail =~= b.current());
    assert(r.lines =~= b.lines);
}

/// A selection that was clamped to a list of `len` entries is an entry of
/// it, or 0 where the list is empty; a selection already in range stays.
pub proof fn law_clamped_selection_in_range(i: int, len: int)
    requires
        0 <= i,
        0 <= len,
    ensures
        len == 0 ==> clamp_index(i, len) == 0,
        len > 0 ==> 0 <= clamp_index(i, len) < len,
        i < len ==> clamp_index(i, len) == i,
{
}

/// The entries of a directory have one listing: being in ascending order
/// and holding exactly the note paths among the entries leaves no choice.
pub proof fn law_listing_is_unique(
    a: Seq<Seq<char>>,
    b: Seq<Seq<char>>,
    entries: Seq<Seq<char>>,
)
    requires
        is_listing_of(a, entries),
        is_listing_of(b, entries),
    ensures
        a == b,
{
    lemma_path_order_is_total();
    assert(sorted_by(a, path_order()) && sorted_by(b, path_order()));
    assert(a.to_multiset() =~= b.to_multiset());
    lemma_sorted_unique(a, b, path_order());
}

/// Where no entry of the directory stands twice, the listing is strictly
/// ascending: no note is listed twice.
pub proof fn law_listing_of_distinct_entries_is_strict(
    paths: Seq<Seq<char>>,
    entries: Seq<Seq<char>>,
)
    requires
        is_listing_of(paths, entries),
        entries.no_duplicates(),
    ensures
        paths.no_duplicates(),
        forall|i: int, j: int|
            0 <= i < j < paths.len() ==> lex_lt(#[trigger] paths[i], #[trigger] paths[j]),
{
    broadcast use vstd::multiset::group_multiset_axioms;

    entries.lemma_multiset_has_no_duplicates();
    entries.to_multiset_ensures();
    assert forall|x: Seq<char>| paths.to_multiset().contains(x) implies paths.to_multiset().count(
        x,
    ) == 1 by {
        assert(entries.to_multiset().count(x) > 0);
    }
    paths.lemma_multiset_has_no_duplicates_conv();
}

/// Selection clamping in the index: after the notes directory was listed
/// anew, with or without a new note, the selection is an entry of the new
/// listing, or 0 where it is empty, and so is the selection of the search
/// among the new results.
pub proof fn law_listing_keeps_selections_in_range(
    s: AppView,
    path: Seq<char>,
    paths: Seq<Seq<char>>,
)
    requires
        s.wf(),
    ensures
        paths.len() == 0 ==> s.relisted(paths).index.selected == 0 && s.with_new_note(
            path,
            paths,
        ).index.selected == 0,
        paths.len() > 0 ==> 0 <= s.relisted(paths).index.selected < paths.len(),
        paths.len() > 0 ==> 0 <= s.with_new_note(path, paths).index.selected < paths.len(),
        s.with_new_note(path, paths).index.holds(path) ==> paths[s.with_new_note(
            path,
            paths,
        ).index.selected] == path,
        s.relisted(paths).search.wf(s.relisted(paths).index.names()),
        s.with_new_note(path, paths).search.wf(s.with_new_note(path, paths).index.names()),
{
    lemma_first_index_of_bounds(paths, path);
}

/// Selection clamping in the search: after any change of the query the
/// selection is a result, or 0 where there is no result.
pub proof fn law_query_keeps_selection_in_range(
    s: SearchView,
    names: Seq<Seq<char>>,
    query: Seq<char>,
)
    requires
        0 <= s.selected,
    ensures
        s.with_query(names, query).wf(names),
        s.with_query(names, query).results.len() == 0 ==> s.with_query(names, query).selected
            == 0,
        s.with_query(names, query).results.len() > 0 ==> 0 <= s.with_query(
            names,
            query,
        ).selected < s.with_query(names, query).results.len(),
{
}

/// The empty query is the identity filter: its results are all positions,
/// in order.
pub proof fn law_empty_query_matches_all(names: Seq<Seq<char>>)
    ensures
        matching_indices(names, Seq::empty()) == Seq::new(names.len(), |i: int| i),
    decreases names.len(),
{
    if names.len() > 0 {
        law_empty_query_matches_all(names.drop_last());
        assert(names.last().subrange(0, 0) =~= Seq::<char>::empty());
        assert(occurs_at(names.last(), Seq::empty(), 0));
    }
    assert(matching_indices(names, Seq::empty()) =~= Seq::new(names.len(), |i: int| i));
}

/// `a` is a subsequence of `b`: `a` is what is left of `b` when some of its
/// items are taken out.
pub open spec fn is_subsequence(a: Seq<int>, b: Seq<int>) -> bool
    decreases b.len(),
{
    if a.len() == 0 {
        true
    } else if b.len() == 0 {
        false
    } else {
        ||| (a.last() == b.last() && is_subsequence(a.drop_last(), b.drop_last()))
        ||| is_subsequence(a, b.drop_last())
    }
}

/// Search monotonicity: when characters are appended to a query, the
/// results of the longer query are a subsequence of the results of the
/// shorter one.
pub proof fn law_search_monotone(names: Seq<Seq<char>>, query: Seq<char>, more: Seq<char>)
    ensures
        is_subsequence(matching_indices(names, query + more), matching_indices(names, query)),
    decreases names.len(),
{
    if names.len() > 0 {
        let init = names.drop_last();
        let narrow = matching_indices(init, query + more);
        let wide = matching_indices(init, query);
        law_search_monotone(init, query, more);
        if contains_text(names.last(), query + more) {
            lemma_contains_prefix(names.last(), query, more);
            assert(narrow.push(names.len() - 1).drop_last() =~= narrow);
            assert(wide.push(names.len() - 1).drop_last() =~= wide);
        } else if contains_text(names.last(), query) {
            assert(wide.push(names.len() - 1).drop_last() =~= wide);
        }
    }
}

/// Every result of a longer query is a result of the shorter one.
pub proof fn law_search_narrows(names: Seq<Seq<char>>, query: Seq<char>, more: Seq<char>, i: int)
    requires
        matching_indices(names, query + more).contains(i),
    ensures
        matching_indices(names, query).contains(i),
{
    lemma_matching_indices(names, query + more);
    lemma_matching_indices(names, query);
    lemma_contains_prefix(names[i], query, more);
}

/// Every step keeps a well-formed state well-formed: the buffer has a
/// line, the cursor and both selections are in range, and the search
/// results are those of the query.
pub proof fn law_step_keeps_state_well_formed(s: AppView, press: KeyPress, height: int)
    requires
        s.wf(),
    ensures
        s.step(press, height).next.wf(),
{
    let names = s.index.names();
    assert(s.index.next().names() == names);
    assert(s.index.previous().names() == names);
    if s.search.confirmed().is_some() {
        lemma_matching_indices(names, s.search.query);
        assert(s.index.selecting(s.search.confirmed().unwrap()).names() == names);
    }
}

/// The chords that work everywhere come before the focused pane: whatever
/// the focus, the quit chord ends the session and changes nothing, and the
/// help chord opens the help, or closes it towards the file pane, without
/// touching the buffer or the index.
pub proof fn law_global_chords_preempt(s: AppView, press: KeyPress, height: int)
    ensures
        press.is_quit() ==> s.step(press, height) == s.with(EffectView::Quit),
        press.is_toggle_help() ==> {
            let step = s.step(press, height);
            &&& step.effect == EffectView::Nothing
            &&& step.next.focus == if s.focus == Focus::Help {
                Focus::Files
            } else {
                Focus::Help
            }
            &&& step.next.buffer == s.buffer
            &&& step.next.index == s.index
        },
{
}

/// The input texts are discarded on entry: the name of a new note is empty
/// when its popup opens, the query is empty when the search opens, and both
/// are empty whenever the file pane takes the focus.
pub proof fn law_entering_discards_inputs(s: AppView, press: KeyPress, height: int)
    ensures
        ({
            let next = s.step(press, height).next;
            &&& next.focus == Focus::NewNote && s.focus != Focus::NewNote
                ==> next.new_note_input.len() == 0
            &&& next.focus == Focus::Search && s.focus != Focus::Search ==> next.search
                == SearchView::opened(s.index.names())
            &&& next.focus == Focus::Files && s.focus != Focus::Files ==> {
                &&& next.new_note_input.len() == 0
                &&& next.search == SearchView::opened(s.index.names())
            }
        }),
{
}

/// Only the editor pane changes the text: a step in any other focus leaves
/// the lines of the buffer as they are.
pub proof fn law_text_changes_in_editor_only(s: AppView, press: KeyPress, height: int)
    requires
        s.focus != Focus::Editor,
    ensures
        s.step(press, height).next.buffer == s.buffer,
{
}

/// Scroll-window consistency: after a key that goes to the editor pane,
/// the cursor row is one of the rows of the window.
pub proof fn law_editor_keeps_cursor_visible(s: AppView, press: KeyPress, height: int)
    requires
        s.wf(),
        height >= 1,
        s.focus == Focus::Editor,
        !press.is_quit() && !press.is_toggle_help() && !press.is_switch_pane(),
        !press.is_search() && !press.is_save(),
    ensures
        ({
            let b = s.step(press, height).next.buffer;
            b.scroll <= b.row < b.scroll + height
        }),
{
}

/// Enter then Backspace in the editor pane gives back the lines and the
/// cursor of the buffer.
pub proof fn law_enter_then_backspace(s: AppView, height: int)
    requires
        s.wf(),
        s.focus == Focus::Editor,
    ensures
        ({
            let enter = KeyPress { key: Key::Enter, modifiers: Modifiers::Plain };
            let back = KeyPress { key: Key::Backspace, modifiers: Modifiers::Plain };
            let after = s.step(enter, height).next.step(back, height).next;
            &&& after.buffer.lines == s.buffer.lines
            &&& after.buffer.row == s.buffer.row
            &&& after.buffer.col == s.buffer.col
            &&& after.focus == Focus::Editor
        }),
{
    law_split_then_backspace(s.buffer);
    let split = s.buffer.split_at_cursor();
    let shown = split.scrolled(height);
    assert(shown.lines == split.lines && shown.row == split.row && shown.col == split.col);
    assert(shown.backspaced().lines == split.backspaced().lines);
}

} // verus!
