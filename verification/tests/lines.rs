use termnotes::lines::{join_text, split_text};

fn cs(s: &str) -> Vec<char> {
    s.chars().collect()
}

fn split(s: &str) -> Vec<String> {
    split_text(s).iter().map(|l| l.iter().collect::<String>()).collect()
}

fn join(lines: &[&str]) -> String {
    let v: Vec<Vec<char>> = lines.iter().map(|l| cs(l)).collect();
    join_text(&v)
}

#[test]
fn split_text_empty_text_is_one_empty_line() {
    assert_eq!(split(""), vec![""]);
}

#[test]
fn split_text_single_line_without_line_feed() {
    assert_eq!(split("abc"), vec!["abc"]);
}

#[test]
fn split_text_starts_a_line_after_every_line_feed() {
    assert_eq!(split("abc\n"), vec!["abc", ""]);
    assert_eq!(split("abc\ndef"), vec!["abc", "def"]);
    assert_eq!(split("abc\ndef\n"), vec!["abc", "def", ""]);
    assert_eq!(split("a\n"), vec!["a", ""]);
}

#[test]
fn split_text_keeps_empty_lines() {
    assert_eq!(split("a\n\nb"), vec!["a", "", "b"]);
    assert_eq!(split("\n"), vec!["", ""]);
    assert_eq!(split("\n\n"), vec!["", "", ""]);
    assert_eq!(split("\na"), vec!["", "a"]);
}

#[test]
fn split_text_keeps_carriage_returns() {
    assert_eq!(split("a\r\nb"), vec!["a\r", "b"]);
    assert_eq!(split("a\r\n"), vec!["a\r", ""]);
    assert_eq!(split("\r\n"), vec!["\r", ""]);
    assert_eq!(split("a\rb"), vec!["a\rb"]);
    assert_eq!(split("a\r"), vec!["a\r"]);
}

#[test]
fn split_text_agrees_with_std_split_at_line_feeds() {
    let samples = [
        "", "a", "a\n", "\n", "\n\n", "a\nb", "a\r\nb\r\n", "a\r", "\r", "\r\n\r\n",
        "x\n\ny\n", "one\ntwo\rthree\r\nfour", "\n\r\n\r", "ü\nö\n",
    ];
    for s in samples {
        let expected: Vec<String> = s.split('\n').map(|l| l.to_string()).collect();
        assert_eq!(split(s), expected, "text {:?}", s);
    }
}

#[test]
fn split_text_has_one_line_more_than_line_feeds() {
    for s in ["", "a", "\n", "a\nb\n", "\n\n\n", "x\r\ny"] {
        let feeds = s.chars().filter(|c| *c == '\n').count();
        assert_eq!(split_text(s).len(), feeds + 1, "text {:?}", s);
    }
}

#[test]
fn join_text_inverts_split_text() {
    let samples = [
        "", "a", "a\n", "\n", "\n\n", "a\nb", "a\r\nb\r\n", "a\r", "\r\n", "x\n\ny\n",
        "\n\r\n\r", "ü\nö\n",
    ];
    for s in samples {
        assert_eq!(join_text(&split_text(s)), s, "text {:?}", s);
    }
}

#[test]
fn split_text_inverts_join_text() {
    let lists: [&[&str]; 6] =
        [&[""], &["a"], &["a", ""], &["", ""], &["a\r", "b"], &["x", "", "y", ""]];
    for l in lists {
        let expected: Vec<String> = l.iter().map(|x| x.to_string()).collect();
        assert_eq!(split(&join(l)), expected, "lines {:?}", l);
    }
}

#[test]
fn join_text_puts_one_line_feed_between_lines() {
    assert_eq!(join(&[]), "");
    assert_eq!(join(&["abc"]), "abc");
    assert_eq!(join(&["abc", "def"]), "abc\ndef");
    assert_eq!(join(&["a", "", "b"]), "a\n\nb");
    assert_eq!(join(&["", ""]), "\n");
    assert_eq!(join(&[""]), "");
}

#[test]
fn join_text_agrees_with_std_join() {
    let lists: [&[&str]; 5] = [&[], &["x"], &["x", "y", "z"], &["", "", ""], &["é", ""]];
    for l in lists {
        assert_eq!(join(l), l.join("\n"));
    }
}
