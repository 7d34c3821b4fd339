use xtest_data::commit::{trim, white_space, CommitId, CommitIdError};
use xtest_data::fspath::join;
use xtest_data::pathspec::{
    pathspec_file_input, sparse_checkout_input, sparse_filter_input, PathSpec, PathSpecFilter,
};

const HEX40: &str = "0123456789abcdef0123456789abcdef01234567";

fn lit(p: &str) -> PathSpec {
    PathSpec::Path(p.to_string())
}

fn shown(ps: &[PathSpec]) -> Vec<String> {
    ps.iter()
        .map(|p| p.as_encompassing_path().unwrap().to_string())
        .collect()
}

#[test]
fn commit_id_shorter_than_forty_is_refused() {
    for len in [0usize, 1, 7, 39] {
        let s: String = HEX40[..len].to_string();
        match CommitId::parse(&s) {
            Err(CommitIdError::TooShort { len: got }) => assert_eq!(got, len),
            Ok(_) => panic!("accepted an identifier of {} characters", len),
        }
    }
}

#[test]
fn commit_id_of_forty_is_accepted() {
    let id = CommitId::parse(HEX40).unwrap();
    assert_eq!(id.as_str(), HEX40);
}

#[test]
fn commit_id_is_trimmed_before_the_length_check() {
    let padded = format!("  \t{}\n", HEX40);
    let id = CommitId::parse(&padded).unwrap();
    assert_eq!(id.as_str(), HEX40);
    let short = format!("   {}   ", &HEX40[..39]);
    assert_eq!(
        CommitId::parse(&short).unwrap_err(),
        CommitIdError::TooShort { len: 39 }
    );
}

#[test]
fn trim_removes_only_the_ends() {
    assert_eq!(trim("  a b \n"), "a b");
    assert_eq!(trim("\t\r\n "), "");
    assert_eq!(trim("x"), "x");
    assert_eq!(trim("\u{2003}y\u{2003}"), "y");
}

#[test]
fn shallow_marker_is_the_id_and_a_newline() {
    let id = CommitId::parse(HEX40).unwrap();
    assert_eq!(id.shallow_marker(), format!("{}\n", HEX40));
}

#[test]
fn simple_paths_hold_no_line_break_or_nul() {
    assert!(lit("testdata/a.bin").is_simple());
    assert!(lit("").is_simple());
    assert!(!lit("bad\nname").is_simple());
    assert!(!lit("bad\0name").is_simple());
}

#[test]
fn display_is_a_top_literal_pathspec() {
    assert_eq!(lit("testdata/a.bin").display(), ":(top,literal)testdata/a.bin");
}

#[test]
fn split_keeps_order_and_separates_complex_paths() {
    let paths = vec![lit("a"), lit("b\nc"), lit("d"), lit("e\0")];
    let split = PathSpecFilter::from_paths(&paths);
    assert_eq!(shown(&split.simple_filter), vec!["a", "d"]);
    assert_eq!(shown(&split.complex_paths), vec!["b\nc", "e\0"]);
}

#[test]
fn extend_appends_to_what_is_there() {
    let mut split = PathSpecFilter::new();
    split.extend(&vec![lit("a"), lit("x\ny")]);
    split.extend(&vec![lit("b")]);
    assert_eq!(shown(&split.simple_filter), vec!["a", "b"]);
    assert_eq!(shown(&split.complex_paths), vec!["x\ny"]);
}

#[test]
fn streams_for_two_test_files() {
    let paths = vec![lit("testdata/a.bin"), lit("testdata/b.bin")];
    assert_eq!(sparse_filter_input(&paths), "testdata/a.bin\0testdata/b.bin\0");
    assert_eq!(sparse_checkout_input(&paths), "/testdata/a.bin\n/testdata/b.bin\n");
    assert_eq!(
        pathspec_file_input(&paths),
        ":(top,literal)testdata/a.bin\0:(top,literal)testdata/b.bin\0"
    );
    assert_eq!(sparse_filter_input(&vec![]), "");
}

#[test]
fn join_places_a_name_inside_a_directory() {
    assert_eq!(join("out", "xtest-data"), "out/xtest-data");
    assert_eq!(join("out/", "xtest-data"), "out/xtest-data");
    assert_eq!(join("", "xtest-data"), "xtest-data");
    assert_eq!(join("/", "shallow"), "/shallow");
}

#[test]
fn different_simple_path_lists_give_different_streams() {
    let joined = vec![lit("ab")];
    let split = vec![lit("a"), lit("b")];
    assert_ne!(sparse_filter_input(&joined), sparse_filter_input(&split));
    assert_ne!(sparse_checkout_input(&joined), sparse_checkout_input(&split));
    assert_ne!(sparse_filter_input(&vec![lit("")]), sparse_filter_input(&vec![]));
}

#[test]
fn sparse_patterns_are_anchored_and_escaped() {
    assert_eq!(lit("a.bin").sparse_pattern(), "/a.bin");
    assert_eq!(lit("d/*x?[y]").sparse_pattern(), "/d/\\*x\\?\\[y]");
    assert_eq!(lit("!neg #c").sparse_pattern(), "/\\!neg\\ \\#c");
    assert_eq!(lit("back\\slash ").sparse_pattern(), "/back\\\\slash\\ ");
    assert_eq!(
        sparse_checkout_input(&vec![lit("a b"), lit("c")]),
        "/a\\ b\n/c\n"
    );
}

#[test]
fn white_space_matches_std() {
    for c in ['\t', '\n', '\u{b}', '\u{c}', '\r', ' ', '\u{85}', '\u{a0}', '\u{1680}', '\u{2000}', '\u{200a}', '\u{2028}', '\u{2029}', '\u{202f}', '\u{205f}', '\u{3000}', 'a', '0', '\u{200b}', '\u{180e}', '\u{feff}', '_'] {
        assert_eq!(white_space(c), c.is_whitespace(), "{:?}", c);
    }
}
