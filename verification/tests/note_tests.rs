use std::io::BufRead;
use nt::markdown::{parse_note, to_markdown};
use nt::lines::split_lines;
use nt::note::Note;

#[test]
fn new_keeps_its_parts() {
    let note = Note::new(Some(3), "Title", "Body");
    assert_eq!(note.id, Some(3));
    assert_eq!(note.name, "Title");
    assert_eq!(note.content, "Body");
}

#[test]
fn new_accepts_empty_name_and_content() {
    let note = Note::new(None, "", "");
    assert_eq!(note.id, None);
    assert_eq!(note.name, "");
    assert_eq!(note.content, "");
}

#[test]
fn markdown_has_name_underline_and_content() {
    let note = Note::new(Some(7), "Foo", "bar");
    assert_eq!(note.as_markdown(), "Foo\n===\nbar\n");
}

#[test]
fn markdown_does_not_hold_the_id() {
    let with_id = Note::new(Some(12), "Foo", "bar");
    let without = Note::new(None, "Foo", "bar");
    assert_eq!(with_id.as_markdown(), without.as_markdown());
}

#[test]
fn markdown_of_empty_note() {
    let note = Note::new(None, "", "");
    assert_eq!(note.as_markdown(), "\n\n\n");
}

#[test]
fn markdown_keeps_multi_line_content() {
    assert_eq!(to_markdown("Title", "Body\nLine2"), "Title\n=====\nBody\nLine2\n");
}

#[test]
fn underline_counts_the_bytes_of_the_name() {
    // Two characters, three bytes.
    assert_eq!(to_markdown("h\u{e9}", "x"), "h\u{e9}\n===\nx\n");
}

#[test]
fn display_with_id() {
    let note = Note::new(Some(42), "Shopping", "milk\neggs");
    assert_eq!(note.to_string(), "42. Shopping\nmilk\neggs");
}

#[test]
fn display_without_id() {
    let note = Note::new(None, "Shopping", "milk");
    assert_eq!(note.to_string(), "[unsaved] Shopping\nmilk");
}

#[test]
fn display_of_zero_and_negative_ids() {
    assert_eq!(Note::new(Some(0), "a", "b").to_string(), "0. a\nb");
    assert_eq!(Note::new(Some(-120), "a", "b").to_string(), "-120. a\nb");
    assert_eq!(Note::new(Some(1000), "a", "b").to_string(), "1000. a\nb");
}

#[test]
fn display_of_extreme_ids() {
    let least = Note::new(Some(isize::MIN), "a", "b");
    assert_eq!(least.to_string(), format!("{}. a\nb", isize::MIN));
    let most = Note::new(Some(isize::MAX), "a", "b");
    assert_eq!(most.to_string(), format!("{}. a\nb", isize::MAX));
}

#[test]
fn duplicate_holds_the_same() {
    let note = Note::new(Some(5), "n", "c\nd");
    let copy = note.duplicate();
    assert_eq!(copy.id, Some(5));
    assert_eq!(copy.name, "n");
    assert_eq!(copy.content, "c\nd");
}

#[test]
fn lines_end_at_line_feeds() {
    assert_eq!(split_lines("a\nb\nc"), vec!["a", "b", "c"]);
    assert_eq!(split_lines("a\nb\nc\n"), vec!["a", "b", "c"]);
}

#[test]
fn lines_of_empty_text() {
    assert!(split_lines("").is_empty());
}

#[test]
fn empty_lines_are_lines() {
    assert_eq!(split_lines("\n"), vec![""]);
    assert_eq!(split_lines("a\n\nb\n"), vec!["a", "", "b"]);
    assert_eq!(split_lines("\n\n"), vec!["", ""]);
}

#[test]
fn carriage_return_before_line_feed_is_dropped() {
    assert_eq!(split_lines("a\r\nb\r\n"), vec!["a", "b"]);
    assert_eq!(split_lines("a\r\r\nb"), vec!["a\r", "b"]);
    assert_eq!(split_lines("\r\n"), vec![""]);
}

#[test]
fn other_carriage_returns_stay() {
    assert_eq!(split_lines("a\rb\n"), vec!["a\rb"]);
    assert_eq!(split_lines("a\nb\r"), vec!["a", "b\r"]);
    assert_eq!(split_lines("\r"), vec!["\r"]);
}

#[test]
fn lines_agree_with_the_standard_library() {
    let samples = [
        "", "\n", "\r", "\r\n", "a", "a\n", "a\r\n", "a\r", "\na", "\r\na", "a\n\nb", "a\r\n\r\nb",
        "a\r\r\n", "\r\r", "\n\r\n", "x\ny\r\nz\r", "h\u{e9}\nw\u{f6}\r\n",
    ];
    for text in samples.iter() {
        let expected: Vec<String> = text.as_bytes().lines().map(|line| line.unwrap()).collect();
        assert_eq!(split_lines(text), expected, "for {:?}", text);
    }
}

#[test]
fn parse_reads_name_and_content() {
    let note = parse_note("Foo\n===\nbar\n").unwrap();
    assert_eq!(note.id, None);
    assert_eq!(note.name, "Foo");
    assert_eq!(note.content, "bar\n");
}

#[test]
fn parse_passes_over_the_second_line_whatever_it_holds() {
    let note = parse_note("Foo\nnot an underline\nbar\n").unwrap();
    assert_eq!(note.name, "Foo");
    assert_eq!(note.content, "bar\n");
}

#[test]
fn parse_of_empty_text_is_no_note() {
    assert!(parse_note("").is_none());
}

#[test]
fn parse_of_short_texts() {
    let only_name = parse_note("Foo").unwrap();
    assert_eq!(only_name.name, "Foo");
    assert_eq!(only_name.content, "");
    let two_lines = parse_note("Foo\n===\n").unwrap();
    assert_eq!(two_lines.name, "Foo");
    assert_eq!(two_lines.content, "");
    let empty_name = parse_note("\n").unwrap();
    assert_eq!(empty_name.name, "");
    assert_eq!(empty_name.content, "");
}

#[test]
fn parse_ends_every_content_line_with_a_line_feed() {
    let note = parse_note("T\n=\na\n\nb").unwrap();
    assert_eq!(note.content, "a\n\nb\n");
    let crlf = parse_note("T\r\n=\r\na\r\nb\r\n").unwrap();
    assert_eq!(crlf.name, "T");
    assert_eq!(crlf.content, "a\nb\n");
}

#[test]
fn round_trip_gives_name_and_content_with_final_line_feed() {
    let cases = [
        ("Foo", "bar"),
        ("Title", "Body\nLine2"),
        ("x", ""),
        ("", ""),
        ("name with spaces", "\n\nleading and trailing\n\n"),
        ("h\u{e9}llo", "w\u{f6}rld\nzwei"),
        ("=", "===\n==="),
        ("cr\rinside", "a\rb\nc"),
    ];
    for (name, content) in cases.iter() {
        let note = Note::new(Some(9), name, content);
        let back = parse_note(&note.as_markdown()).unwrap();
        assert_eq!(back.id, None);
        assert_eq!(back.name, *name);
        assert_eq!(back.content, format!("{}\n", content));
    }
}

#[test]
fn round_trip_is_lossy_for_carriage_return_before_line_feed() {
    let note = Note::new(None, "N", "a\r\nb");
    let back = parse_note(&note.as_markdown()).unwrap();
    assert_eq!(back.content, "a\nb\n");
    let ends_in_cr = Note::new(None, "N", "a\r");
    assert_eq!(parse_note(&ends_in_cr.as_markdown()).unwrap().content, "a\n");
}

#[test]
fn round_trip_cuts_a_name_of_two_lines() {
    let note = Note::new(None, "first\nsecond", "body");
    let back = parse_note(&note.as_markdown()).unwrap();
    assert_eq!(back.name, "first");
}
