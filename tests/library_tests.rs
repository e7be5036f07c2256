use khat::{
    apply, reverse_chars_within_lines, reverse_lines, reverse_text, select_mode, Error,
    ErrorKind, File, Mode,
};

const SAMPLE: &str = "Hello there!\nGeneral Kenobi";

#[test]
fn full_reverse_twice_is_identity() {
    let once = reverse_text(SAMPLE);
    assert_eq!(once, "iboneK lareneG\n!ereht olleH");
    assert_eq!(reverse_text(&once), SAMPLE);
    let t = "a\n\nbc\n";
    assert_eq!(reverse_text(&reverse_text(t)), t);
}

#[test]
fn line_reverse_twice_is_identity() {
    let t = "one\ntwo\n\nthree\n";
    let once = reverse_lines(t);
    assert_eq!(once, "\nthree\n\ntwo\none");
    assert_eq!(reverse_lines(&once), t);
}

#[test]
fn chars_reverse_twice_is_identity() {
    let t = "ab\ncde\n";
    let once = reverse_chars_within_lines(t);
    assert_eq!(once, "ba\nedc\n");
    assert_eq!(reverse_chars_within_lines(&once), t);
}

#[test]
fn plain_keeps_content() {
    assert_eq!(apply("Hello there!", Mode::Plain), "Hello there!");
    assert_eq!(apply("x\ny\n", Mode::Plain), "x\ny\n");
}

#[test]
fn modes_on_sample() {
    assert_eq!(apply(SAMPLE, Mode::FullReverse), "iboneK lareneG\n!ereht olleH");
    assert_eq!(apply(SAMPLE, Mode::LineReverse), "General Kenobi\nHello there!");
    assert_eq!(apply(SAMPLE, Mode::CharsWithinLineReverse), "!ereht olleH\niboneK lareneG");
}

#[test]
fn empty_content_stays_empty() {
    for mode in [Mode::Plain, Mode::FullReverse, Mode::LineReverse, Mode::CharsWithinLineReverse] {
        assert_eq!(apply("", mode), "");
    }
}

#[test]
fn trailing_newline_gives_empty_line() {
    assert_eq!(reverse_lines("a\nb\n"), "\nb\na");
    assert_eq!(reverse_chars_within_lines("ab\n"), "ba\n");
    assert_eq!(reverse_lines("\n"), "\n");
}

#[test]
fn multibyte_characters_reverse_whole() {
    assert_eq!(reverse_text("añb€"), "€bña");
}

#[test]
fn load_without_path_is_path_not_specified() {
    let mut file = File::new();
    let r = file.load_content(Some(String::from("text")));
    assert_eq!(r.unwrap_err().kind(), ErrorKind::PathNotSpecified);
    assert_eq!(file.content, None);
}

#[test]
fn load_unreadable_is_file_not_found() {
    let mut file = File::from_path(String::from("missing.txt"));
    let r = file.load_content(None);
    assert_eq!(r.unwrap_err().kind(), ErrorKind::FileNotFound);
    assert_eq!(file.content, None);
}

#[test]
fn load_then_print() {
    let mut file = File::new();
    file.set_path(String::from("notes.txt"));
    assert!(file.load_content(Some(String::from(SAMPLE))).is_ok());
    assert_eq!(file.path, Some(String::from("notes.txt")));
    assert_eq!(file.print_lines_reverse().unwrap(), "General Kenobi\nHello there!");
}

#[test]
fn print_before_load_is_empty_content() {
    let file = File::from_path(String::from("a.txt"));
    assert_eq!(file.print_with(Mode::FullReverse).unwrap_err().kind(), ErrorKind::EmptyContent);
}

#[test]
fn flags_select_mode() {
    assert_eq!(select_mode(false, false, false).unwrap(), Mode::Plain);
    assert_eq!(select_mode(true, false, false).unwrap(), Mode::FullReverse);
    assert_eq!(select_mode(false, true, false).unwrap(), Mode::LineReverse);
    assert_eq!(select_mode(false, false, true).unwrap(), Mode::CharsWithinLineReverse);
}

#[test]
fn several_flags_are_refused() {
    for (f, l, c) in [(true, true, false), (true, false, true), (false, true, true), (true, true, true)] {
        assert_eq!(select_mode(f, l, c).unwrap_err().kind(), ErrorKind::MultipleFlags);
    }
}

#[test]
fn error_texts() {
    let e = Error::new(ErrorKind::MultipleFlags);
    assert_eq!(e.summary(), "Can't use more than one flag");
    assert_eq!(e.error, "Don't use multiple flags. It doesn't make sense.");
    assert_eq!(
        e.details(),
        "khat error.\nCan't use more than one flag\nDon't use multiple flags. It doesn't make sense."
    );
    assert_eq!(Error::new(ErrorKind::FileNotFound).summary(), "Didn't found any file");
}

#[test]
fn describe_file() {
    assert_eq!(File::default().describe(), "\nThe file has no path");
    let mut file = File::from_path(String::from("a.txt"));
    assert_eq!(file.describe(), "\nThe file has the a.txt path, but has no content");
    file.load_content(Some(String::from("hi"))).unwrap();
    assert_eq!(file.describe(), "\nThe file a.txt has the following content:\n\n hi");
}

#[test]
fn empty_content_error_texts() {
    let file = File::new();
    let e = file.print_content().unwrap_err();
    assert_eq!(
        e.summary(),
        "You didn't get the content from the file, invoque the `get_content()` method"
    );
    assert_eq!(e.error, "The file has no content. Execute the `get_content()` method first.");
}
