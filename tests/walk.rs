use file_bundle::block::process_file;
use file_bundle::walk::{classify_entry, decide_entry, load_gitignore, EntryAction};
use file_bundle::Args;

fn list(items: &[&str]) -> Vec<String> {
    items.iter().map(|s| s.to_string()).collect()
}

#[test]
fn ignored_entries_are_skipped() {
    let allowed = list(&["txt"]);
    assert_eq!(decide_entry("./a.txt", false, true, &allowed), EntryAction::Skip);
    assert_eq!(decide_entry("./target", true, true, &allowed), EntryAction::Skip);
    assert_eq!(decide_entry("./target", true, false, &allowed), EntryAction::Descend);
    assert_eq!(decide_entry("./a.txt", false, false, &allowed), EntryAction::Process);
    assert_eq!(decide_entry("./a.rs", false, false, &allowed), EntryAction::Skip);
    assert_eq!(decide_entry("./a.rs", false, false, &[]), EntryAction::Process);
}

#[test]
fn no_gitignore_ignores_nothing() {
    let rules = load_gitignore(".", None);
    assert_eq!(classify_entry(&rules, "./b.bin", false, &[]), EntryAction::Process);
    assert_eq!(classify_entry(&rules, "./target", true, &[]), EntryAction::Descend);
}

#[test]
fn gitignore_patterns_skip_files_and_directories() {
    let lines = list(&["# build output", "", "target/", "*.log", "!keep.log"]);
    let rules = load_gitignore(".", Some(&lines));
    assert_eq!(classify_entry(&rules, "./target", true, &[]), EntryAction::Skip);
    assert_eq!(classify_entry(&rules, "./target", false, &[]), EntryAction::Process);
    assert_eq!(classify_entry(&rules, "./src/run.log", false, &[]), EntryAction::Skip);
    assert_eq!(classify_entry(&rules, "./keep.log", false, &[]), EntryAction::Process);
    assert_eq!(classify_entry(&rules, "./src", true, &[]), EntryAction::Descend);
}

#[test]
fn gitignore_matches_relative_to_its_root() {
    let lines = list(&["/docs"]);
    let rules = load_gitignore("/proj", Some(&lines));
    assert_eq!(classify_entry(&rules, "/proj/docs", true, &[]), EntryAction::Skip);
    assert_eq!(classify_entry(&rules, "/proj/src/docs", true, &[]), EntryAction::Descend);
}

#[test]
fn unreadable_gitignore_ignores_nothing() {
    let rules = load_gitignore(".", Some(&Vec::new()));
    assert_eq!(classify_entry(&rules, "./b.bin", false, &[]), EntryAction::Process);
    assert_eq!(classify_entry(&rules, "./target", true, &[]), EntryAction::Descend);
}

#[test]
fn unparsable_line_is_dropped_and_the_rest_kept() {
    let rules = load_gitignore(".", Some(&list(&["{a", "b.bin"])));
    assert_eq!(classify_entry(&rules, "./b.bin", false, &[]), EntryAction::Skip);
    assert_eq!(classify_entry(&rules, "./a", false, &[]), EntryAction::Process);
}

#[test]
fn plain_name_matches_at_any_depth() {
    let rules = load_gitignore(".", Some(&list(&["b.bin"])));
    assert_eq!(classify_entry(&rules, "./b.bin", false, &[]), EntryAction::Skip);
    assert_eq!(classify_entry(&rules, "./sub/b.bin", false, &[]), EntryAction::Skip);
    assert_eq!(classify_entry(&rules, "./a.txt", false, &[]), EntryAction::Process);
}

#[test]
fn leading_slash_anchors_at_the_root() {
    let rules = load_gitignore("/proj", Some(&list(&["/a.txt", "build/"])));
    assert_eq!(classify_entry(&rules, "/proj/a.txt", false, &[]), EntryAction::Skip);
    assert_eq!(classify_entry(&rules, "/proj/sub/a.txt", false, &[]), EntryAction::Process);
    assert_eq!(classify_entry(&rules, "/proj/build", true, &[]), EntryAction::Skip);
    assert_eq!(classify_entry(&rules, "/proj/build", false, &[]), EntryAction::Process);
}

#[test]
fn same_lines_give_rules_that_decide_alike() {
    let lines = list(&["*.log", "!keep.log", "out/"]);
    let a = load_gitignore(".", Some(&lines));
    let b = load_gitignore(".", Some(&lines));
    for (path, is_dir) in [("./x.log", false), ("./keep.log", false), ("./out", true), ("./a.txt", false)] {
        assert_eq!(classify_entry(&a, path, is_dir, &[]), classify_entry(&b, path, is_dir, &[]));
    }
}

#[test]
fn byte_order_mark_on_the_first_line_is_dropped() {
    let lines = list(&["\u{feff}secret.txt", "other.txt"]);
    let rules = load_gitignore(".", Some(&lines));
    assert_eq!(classify_entry(&rules, "./secret.txt", false, &[]), EntryAction::Skip);
    assert_eq!(classify_entry(&rules, "./other.txt", false, &[]), EntryAction::Skip);
    assert_eq!(classify_entry(&rules, "./third.txt", false, &[]), EntryAction::Process);
}

#[test]
fn text_file_ignored_binary_and_allow_list_example() {
    let rules = load_gitignore(".", Some(&list(&["b.bin"])));
    let allowed = list(&["txt"]);
    let entries: Vec<(&str, &[u8])> = vec![
        ("./a.txt", b"hello"),
        ("./b.bin", &[0xff, 0xfe, 0x00]),
        ("./.gitignore", b"b.bin\n"),
    ];
    let mut out = Vec::new();
    for (path, bytes) in entries {
        if classify_entry(&rules, path, false, &allowed) == EntryAction::Process {
            if let Some(block) = process_file(path, bytes, false) {
                out.extend(block);
            }
        }
    }
    assert_eq!(
        String::from_utf8(out).unwrap(),
        "<<<START_FILE:./a.txt>>\nhello\n<<<END_FILE:./a.txt>>\n"
    );
}

#[test]
fn root_defaults_to_current_directory() {
    let args = Args { include_binary: false, path: None, output: None, allowed_extensions: vec![] };
    assert_eq!(args.root(), ".");
    let args = Args {
        include_binary: true,
        path: Some("src".to_string()),
        output: None,
        allowed_extensions: list(&["rs"]),
    };
    assert_eq!(args.root(), "src");
}
