use termnotes::index::FileIndex;
use termnotes::search::SearchFilter;

fn strs(v: &[&str]) -> Vec<String> {
    v.iter().map(|s| s.to_string()).collect()
}

fn index_of(entries: &[&str]) -> FileIndex {
    let mut index = FileIndex::new();
    index.rescan(&strs(entries));
    index
}

fn opened(index: &FileIndex) -> SearchFilter {
    let mut search = SearchFilter::new();
    search.open(index);
    search
}

fn is_subsequence(a: &[usize], b: &[usize]) -> bool {
    let mut rest = b.iter();
    a.iter().all(|x| rest.any(|y| y == x))
}

#[test]
fn new_filter_has_no_query_and_no_results() {
    let search = SearchFilter::new();
    assert_eq!(search.query(), "");
    assert_eq!(search.results(), Vec::<usize>::new());
    assert_eq!(search.selected(), 0);
    assert_eq!(search.confirm(), None);
}

#[test]
fn query_b_matches_only_b() {
    let index = index_of(&["a.md", "b.md", "c.md"]);
    let mut search = opened(&index);
    search.set_query(&index, "b");
    assert_eq!(search.results(), vec![1]);
    search.set_query(&index, "");
    assert_eq!(search.results(), vec![0, 1, 2]);
}

#[test]
fn open_seeds_the_full_index_in_order() {
    let index = index_of(&["n/c.md", "n/a.md", "n/b.md"]);
    let search = opened(&index);
    assert_eq!(search.query(), "");
    assert_eq!(search.results(), vec![0, 1, 2]);
    assert_eq!(search.selected(), 0);
}

#[test]
fn open_resets_query_and_selection() {
    let index = index_of(&["a.md", "ab.md", "b.md"]);
    let mut search = opened(&index);
    search.set_query(&index, "a");
    search.select_next();
    assert_eq!(search.selected(), 1);
    search.open(&index);
    assert_eq!(search.query(), "");
    assert_eq!(search.selected(), 0);
    assert_eq!(search.results(), vec![0, 1, 2]);
}

#[test]
fn set_query_matches_the_display_name_not_the_directory() {
    let index = index_of(&["notes/alpha.md", "notes/beta.md"]);
    let mut search = opened(&index);
    search.set_query(&index, "notes");
    assert_eq!(search.results(), Vec::<usize>::new());
    search.set_query(&index, "eta");
    assert_eq!(search.results(), vec![1]);
}

#[test]
fn set_query_is_case_sensitive() {
    let index = index_of(&["Alpha.md", "alpha.md"]);
    let mut search = opened(&index);
    search.set_query(&index, "alpha");
    assert_eq!(search.results(), vec![1]);
    search.set_query(&index, "Alpha");
    assert_eq!(search.results(), vec![0]);
}

#[test]
fn set_query_clamps_the_selection_when_results_shrink() {
    let index = index_of(&["a.md", "ab.md", "abc.md", "b.md"]);
    let mut search = opened(&index);
    search.select_next();
    search.select_next();
    search.select_next();
    assert_eq!(search.selected(), 3);
    search.set_query(&index, "a");
    assert_eq!(search.results(), vec![0, 1, 2]);
    assert_eq!(search.selected(), 2);
    search.set_query(&index, "abc");
    assert_eq!(search.results(), vec![2]);
    assert_eq!(search.selected(), 0);
}

#[test]
fn set_query_without_results_puts_the_selection_at_zero() {
    let index = index_of(&["a.md", "b.md"]);
    let mut search = opened(&index);
    search.select_next();
    search.set_query(&index, "zzz");
    assert_eq!(search.results(), Vec::<usize>::new());
    assert_eq!(search.selected(), 0);
    assert_eq!(search.confirm(), None);
}

#[test]
fn set_query_keeps_a_selection_that_is_still_in_range() {
    let index = index_of(&["a.md", "ab.md", "b.md"]);
    let mut search = opened(&index);
    search.select_next();
    search.set_query(&index, "b");
    assert_eq!(search.results(), vec![1, 2]);
    assert_eq!(search.selected(), 1);
}

#[test]
fn type_char_and_erase_char_filter_live() {
    let index = index_of(&["a.md", "ab.md", "b.md"]);
    let mut search = opened(&index);
    search.type_char(&index, 'a');
    assert_eq!(search.query(), "a");
    assert_eq!(search.results(), vec![0, 1]);
    search.type_char(&index, 'b');
    assert_eq!(search.query(), "ab");
    assert_eq!(search.results(), vec![1]);
    search.erase_char(&index);
    assert_eq!(search.query(), "a");
    assert_eq!(search.results(), vec![0, 1]);
    search.erase_char(&index);
    search.erase_char(&index);
    assert_eq!(search.query(), "");
    assert_eq!(search.results(), vec![0, 1, 2]);
}

#[test]
fn longer_query_gives_a_subsequence_of_the_results() {
    let index = index_of(&[
        "meeting.md", "meet.md", "me.md", "memo.md", "times.md", "home.md", "x.md", "emmet.md",
    ]);
    let queries = ["", "m", "me", "mee", "meet", "meeti", "e", "em", "zz", ".", ".m", ".md"];
    for q1 in queries {
        for q2 in queries {
            if q2.starts_with(q1) {
                let mut s1 = opened(&index);
                s1.set_query(&index, q1);
                let mut s2 = opened(&index);
                s2.set_query(&index, q2);
                assert!(
                    is_subsequence(&s2.results(), &s1.results()),
                    "{:?} then {:?}",
                    q1,
                    q2
                );
            }
        }
    }
}

#[test]
fn select_next_and_previous_saturate_in_the_results() {
    let index = index_of(&["a.md", "b.md", "c.md"]);
    let mut search = opened(&index);
    search.select_previous();
    assert_eq!(search.selected(), 0);
    search.select_next();
    search.select_next();
    search.select_next();
    assert_eq!(search.selected(), 2);
    search.select_previous();
    assert_eq!(search.selected(), 1);
}

#[test]
fn select_next_without_results_is_a_no_op() {
    let mut search = SearchFilter::new();
    search.select_next();
    assert_eq!(search.selected(), 0);
}

#[test]
fn confirm_maps_the_selection_back_to_the_index() {
    let index = index_of(&["a.md", "bx.md", "c.md", "db.md"]);
    let mut search = opened(&index);
    search.set_query(&index, "b");
    assert_eq!(search.results(), vec![1, 3]);
    assert_eq!(search.confirm(), Some(1));
    search.select_next();
    assert_eq!(search.confirm(), Some(3));
}

#[test]
fn refresh_filters_the_changed_index_with_the_same_query() {
    let mut index = index_of(&["a.md", "b.md", "bb.md"]);
    let mut search = opened(&index);
    search.set_query(&index, "b");
    search.select_next();
    assert_eq!(search.results(), vec![1, 2]);
    index.rescan(&strs(&["b.md", "c.md"]));
    search.refresh(&index);
    assert_eq!(search.query(), "b");
    assert_eq!(search.results(), vec![0]);
    assert_eq!(search.selected(), 0);
}

#[test]
fn result_names_are_the_names_of_the_results() {
    let index = index_of(&["n/a.md", "n/bx.md", "n/c.md", "n/db.md"]);
    let mut search = opened(&index);
    assert_eq!(search.result_names(&index), strs(&["a.md", "bx.md", "c.md", "db.md"]));
    search.set_query(&index, "b");
    assert_eq!(search.result_names(&index), strs(&["bx.md", "db.md"]));
    search.set_query(&index, "q");
    assert_eq!(search.result_names(&index), Vec::<String>::new());
}
