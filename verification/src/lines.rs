//! The line format of a note: a text is split into lines at its line feeds
//! and lines are joined to a text by line feeds. The two are inverse: every
//! text is what its lines join to.

use vstd::prelude::*;
use crate::text::{chars_of, line_views};

verus! {

/// Position of the first line feed in `s`, or `s.len()` if it has none.
pub open spec fn line_end(s: Seq<char>) -> nat
    decreases s.len(),
{
    if s.len() == 0 || s[0] == '\n' {
        0
    } else {
        1 + line_end(s.drop_first())
    }
}

/// The lines of a text: what stands between its line feeds, before the
/// first and after the last. Every line feed ends one line and starts the
/// next; every other character is kept. A text with `n` line feeds has
/// `n + 1` lines, so the empty text is one empty line.
pub open spec fn split_lines(s: Seq<char>) -> Seq<Seq<char>>
    decreases s.len(),
{
    let k = line_end(s);
    if k >= s.len() {
        seq![s]
    } else {
        seq![s.subrange(0, k as int)] + split_lines(s.subrange(k as int + 1, s.len() as int))
    }
}

/// The lines joined by single line feeds.
pub open spec fn join_lines(lines: Seq<Seq<char>>) -> Seq<char>
    decreases lines.len(),
{
    if lines.len() == 0 {
        Seq::empty()
    } else if lines.len() == 1 {
        lines[0]
    } else {
        join_lines(lines.drop_last()) + seq!['\n'] + lines.last()
    }
}

/// No line of `lines` holds a line feed.
pub open spec fn plain_lines(lines: Seq<Seq<char>>) -> bool {
    forall|i: int, j: int|
        0 <= i < lines.len() && 0 <= j < lines[i].len() ==> #[trigger] lines[i][j] != '\n'
}

/// `line_end(s)` is the one position `k` with no line feed before it that is
/// either the end of `s` or holds a line feed.
pub proof fn lemma_line_end(s: Seq<char>, k: int)
    requires
        0 <= k <= s.len(),
        forall|j: int| 0 <= j < k ==> s[j] != '\n',
        k == s.len() || s[k] == '\n',
    ensures
        line_end(s) == k,
    decreases s.len(),
{
    if s.len() > 0 && s[0] != '\n' {
        lemma_line_end(s.drop_first(), k - 1);
    }
}

/// `line_end(s)` lies in `s` or at its end, no line feed stands before it,
/// and where it lies in `s` a line feed stands there.
pub proof fn lemma_line_end_is_first_feed(s: Seq<char>)
    ensures
        line_end(s) <= s.len(),
        forall|j: int| 0 <= j < line_end(s) ==> s[j] != '\n',
        line_end(s) < s.len() ==> s[line_end(s) as int] == '\n',
    decreases s.len(),
{
    if s.len() > 0 && s[0] != '\n' {
        let rest = s.drop_first();
        lemma_line_end_is_first_feed(rest);
        assert forall|j: int| 0 <= j < line_end(s) implies s[j] != '\n' by {
            if j > 0 {
                assert(s[j] == rest[j - 1]);
            }
        }
        if line_end(s) < s.len() {
            assert(s[line_end(s) as int] == rest[line_end(rest) as int]);
        }
    }
}

/// Lines without line feeds stay so when the first line is left out.
pub proof fn lemma_plain_rest(lines: Seq<Seq<char>>)
    requires
        plain_lines(lines),
        lines.len() >= 1,
    ensures
        plain_lines(lines.drop_first()),
{
    let rest = lines.drop_first();
    assert forall|i: int, j: int| 0 <= i < rest.len() && 0 <= j < rest[i].len() implies
        #[trigger] rest[i][j] != '\n' by {
        assert(rest[i][j] == lines[i + 1][j]);
    }
}

/// Joining from the front: the first line, a line feed, the other lines
/// joined.
pub proof fn lemma_join_front(lines: Seq<Seq<char>>)
    requires
        lines.len() >= 2,
    ensures
        join_lines(lines) == lines[0] + seq!['\n'] + join_lines(lines.drop_first()),
    decreases lines.len(),
{
    let rest = lines.drop_first();
    if lines.len() == 2 {
        assert(join_lines(lines.drop_last()) == lines[0]);
        assert(join_lines(rest) == lines[1]);
    } else {
        lemma_join_front(lines.drop_last());
        assert(lines.drop_last().drop_first() =~= rest.drop_last());
        assert(join_lines(lines) =~= lines[0] + seq!['\n'] + join_lines(rest));
    }
}

/// A text has at least one line, and none of its lines holds a line feed.
pub proof fn lemma_split_gives_plain_lines(s: Seq<char>)
    ensures
        split_lines(s).len() >= 1,
        plain_lines(split_lines(s)),
    decreases s.len(),
{
    let k = line_end(s) as int;
    let lines = split_lines(s);
    lemma_line_end_is_first_feed(s);
    if k < s.len() {
        let rest = split_lines(s.subrange(k + 1, s.len() as int));
        lemma_split_gives_plain_lines(s.subrange(k + 1, s.len() as int));
        assert forall|i: int, j: int| 0 <= i < lines.len() && 0 <= j < lines[i].len() implies
            #[trigger] lines[i][j] != '\n' by {
            if i == 0 {
                assert(lines[0][j] == s[j]);
            } else {
                assert(lines[i] == rest[i - 1]);
            }
        }
    }
}

/// Joining inverts splitting: every text is what its lines join to.
pub proof fn lemma_join_of_split(s: Seq<char>)
    ensures
        join_lines(split_lines(s)) == s,
    decreases s.len(),
{
    let k = line_end(s) as int;
    lemma_line_end_is_first_feed(s);
    if k < s.len() {
        let head = s.subrange(0, k);
        let tail = s.subrange(k + 1, s.len() as int);
        let lines = split_lines(s);
        lemma_join_of_split(tail);
        lemma_split_gives_plain_lines(tail);
        assert(lines.drop_first() =~= split_lines(tail));
        lemma_join_front(lines);
        assert(head + seq!['\n'] + tail =~= s);
    }
}

/// Splitting inverts joining: lines without line feeds, at least one, are
/// the lines of the text they join to.
pub proof fn lemma_split_of_join(lines: Seq<Seq<char>>)
    requires
        plain_lines(lines),
        lines.len() >= 1,
    ensures
        split_lines(join_lines(lines)) == lines,
    decreases lines.len(),
{
    if lines.len() == 1 {
        lemma_line_end(lines[0], lines[0].len() as int);
        assert(lines =~= seq![lines[0]]);
    } else {
        let rest = lines.drop_first();
        let text = join_lines(lines);
        let k = lines[0].len() as int;
        lemma_join_front(lines);
        assert(text[k] == '\n');
        lemma_line_end(text, k);
        assert(text.subrange(0, k) =~= lines[0]);
        assert(text.subrange(k + 1, text.len() as int) =~= join_lines(rest));
        lemma_plain_rest(lines);
        lemma_split_of_join(rest);
        assert(seq![lines[0]] + rest =~= lines);
    }
}

/// Splits a text into its lines.
pub fn split_text(text: &str) -> (lines: Vec<Vec<char>>)
    ensures
        line_views(lines@) == split_lines(text@),
        lines.len() >= 1,
{
    let t = chars_of(text);
    let n = t.len();
    let mut lines: Vec<Vec<char>> = Vec::new();
    let mut cur: Vec<char> = Vec::new();
    let ghost mut start: int = 0;
    let mut i: usize = 0;
    assert(t@.subrange(0, n as int) == t@);
    assert(line_views(lines@) + split_lines(t@) == split_lines(t@));
    while i < n
        invariant
            n == t.len(),
            0 <= start <= i <= n,
            forall|j: int| start <= j < i ==> t@[j] != '\n',
            cur@ == t@.subrange(start, i as int),
            split_lines(t@) == line_views(lines@) + split_lines(t@.subrange(start, n as int)),
        decreases n - i,
    {
        let c = t[i];
        if c == '\n' {
            let ghost rest = t@.subrange(start, n as int);
            let ghost raw = cur@;
            let ghost before = line_views(lines@);
            proof {
                lemma_line_end(rest, i - start);
                assert(rest.subrange(0, i - start) == raw);
                assert(rest.subrange(i - start + 1, rest.len() as int) == t@.subrange(
                    i + 1,
                    n as int,
                ));
            }
            lines.push(cur);
            cur = Vec::new();
            proof {
                start = i + 1;
                assert(line_views(lines@) == before.push(raw));
                assert(cur@ == t@.subrange(start, i + 1));
            }
        } else {
            cur.push(c);
            assert(cur@ == t@.subrange(start, i + 1));
        }
        i += 1;
    }
    let ghost before = line_views(lines@);
    proof {
        lemma_line_end(cur@, cur@.len() as int);
    }
    lines.push(cur);
    assert(line_views(lines@) == before.push(t@.subrange(start, n as int)));
    lines
}

/// Joins lines into one text, with a line feed between neighbours.
pub fn join_text(lines: &Vec<Vec<char>>) -> (text: String)
    ensures
        text@ == join_lines(line_views(lines@)),
{
    let mut text = String::new();
    let mut i: usize = 0;
    let ghost all = line_views(lines@);
    while i < lines.len()
        invariant
            i <= lines.len(),
            all == line_views(lines@),
            text@ == join_lines(all.subrange(0, i as int)),
        decreases lines.len() - i,
    {
        let ghost done = all.subrange(0, i as int);
        let ghost next = all.subrange(0, i + 1);
        if i > 0 {
            text.push('\n');
        }
        let line = &lines[i];
        let mut j: usize = 0;
        let ghost head = text@;
        while j < line.len()
            invariant
                j <= line.len(),
                text@ == head + line@.subrange(0, j as int),
            decreases line.len() - j,
        {
            text.push(line[j]);
            j += 1;
        }
        assert(line@.subrange(0, line.len() as int) == line@);
        assert(next.drop_last() == done);
        assert(next.last() == line@);
        i += 1;
    }
    assert(all.subrange(0, lines.len() as int) == all);
    text
}

} // verus!
