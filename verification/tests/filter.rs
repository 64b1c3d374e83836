use restricted_fs::listing::filter_listing;
use restricted_fs::listing::keep_entry;
use restricted_fs::path::path_has_hidden_components;
use restricted_fs::path::segment_is_hidden;
use restricted_fs::path::LogicalPath;
use restricted_fs::path::Segment;
use restricted_fs::policy::Access;
use restricted_fs::policy::ListAccess;
use restricted_fs::policy::RestrictedFs;
use restricted_fs::utf8::is_valid_utf8;

fn normal(name: &str) -> Segment {
    Segment::Normal(name.as_bytes().to_vec())
}

fn path(segments: Vec<Segment>) -> LogicalPath {
    LogicalPath { segments }
}

fn hidden_file() -> LogicalPath {
    path(vec![Segment::Root, normal(".secret"), normal("file.txt")])
}

fn plain_file() -> LogicalPath {
    path(vec![Segment::Root, normal("a"), normal("b")])
}

#[test]
fn hidden_path_denied_without_flag() {
    let fs = RestrictedFs::new(String::from("/srv"), false);
    let p = hidden_file();
    assert_eq!(fs.open_decision(&p), Access::NotFound);
    assert_eq!(fs.metadata_decision(&p), Access::NotFound);
    assert_eq!(fs.symlink_metadata_decision(&p), Access::NotFound);
}

#[test]
fn hidden_path_forwards_with_flag() {
    let fs = RestrictedFs::new(String::from("/srv"), true);
    let p = hidden_file();
    assert_eq!(fs.open_decision(&p), Access::Forward);
    assert_eq!(fs.metadata_decision(&p), Access::Forward);
    assert_eq!(fs.symlink_metadata_decision(&p), Access::Forward);
    assert_eq!(fs.read_dir_decision(&p), ListAccess::Forward);
}

#[test]
fn visible_path_forwards_regardless_of_flag() {
    let p = plain_file();
    let shown = RestrictedFs::new(String::from("/srv"), true);
    let hidden = RestrictedFs::new(String::from("/srv"), false);
    assert_eq!(shown.open_decision(&p), Access::Forward);
    assert_eq!(hidden.open_decision(&p), Access::Forward);
    assert_eq!(shown.metadata_decision(&p), Access::Forward);
    assert_eq!(hidden.metadata_decision(&p), Access::Forward);
    assert_eq!(shown.symlink_metadata_decision(&p), Access::Forward);
    assert_eq!(hidden.symlink_metadata_decision(&p), Access::Forward);
    assert_eq!(shown.read_dir_decision(&p), ListAccess::Forward);
    assert_eq!(hidden.read_dir_decision(&p), ListAccess::FilterHidden);
}

#[test]
fn listing_drops_dot_entries_in_order() {
    let entries = vec![
        Some(b".git".to_vec()),
        Some(b"readme.txt".to_vec()),
        Some(b".env".to_vec()),
    ];
    assert_eq!(filter_listing(entries), vec![b"readme.txt".to_vec()]);
}

#[test]
fn listing_keeps_order_of_survivors() {
    let entries = vec![
        Some(b"b.txt".to_vec()),
        Some(b".hidden".to_vec()),
        Some(b"a.txt".to_vec()),
        Some(b"c.txt".to_vec()),
    ];
    assert_eq!(
        filter_listing(entries),
        vec![b"b.txt".to_vec(), b"a.txt".to_vec(), b"c.txt".to_vec()]
    );
}

#[test]
fn listing_of_hidden_directory_denied() {
    let fs = RestrictedFs::new(String::from("/srv"), false);
    let p = path(vec![Segment::Root, normal(".secret")]);
    assert_eq!(fs.read_dir_decision(&p), ListAccess::NotFound);
}

#[test]
fn errored_entries_are_dropped() {
    let entries = vec![None, Some(b"a".to_vec()), None];
    assert_eq!(filter_listing(entries), vec![b"a".to_vec()]);
    assert!(!keep_entry(&None));
}

#[test]
fn keep_entry_matches_leading_dot_rule() {
    assert!(keep_entry(&Some(b"readme".to_vec())));
    assert!(!keep_entry(&Some(b".env".to_vec())));
    assert!(keep_entry(&Some(b"".to_vec())));
}

#[test]
fn current_dir_marker_never_hides() {
    let p = path(vec![Segment::Root, normal("a"), Segment::CurrentDir, normal("b")]);
    assert!(!path_has_hidden_components(&p));
}

#[test]
fn parent_marker_does_not_hide_but_dot_name_does() {
    let markers_only = path(vec![Segment::Root, normal("a"), Segment::ParentDir]);
    assert!(!path_has_hidden_components(&markers_only));
    let with_dot_name = path(vec![Segment::Root, normal("a"), Segment::ParentDir, normal(".b")]);
    assert!(path_has_hidden_components(&with_dot_name));
}

#[test]
fn unreadable_name_is_hidden() {
    assert!(segment_is_hidden(&Segment::Normal(vec![0xFF, 0x61])));
    assert!(!segment_is_hidden(&Segment::Normal(vec![0xC3, 0xA9])));
    assert!(segment_is_hidden(&Segment::Normal(b".cfg".to_vec())));
    assert!(!segment_is_hidden(&Segment::ParentDir));
}

#[test]
fn utf8_checker_exact_cases() {
    assert!(is_valid_utf8(&Vec::new()));
    assert!(is_valid_utf8(&b"plain ascii".to_vec()));
    assert!(is_valid_utf8(&vec![0xC3, 0xA9]));
    assert!(is_valid_utf8(&vec![0xE2, 0x82, 0xAC]));
    assert!(is_valid_utf8(&vec![0xF0, 0x9F, 0x92, 0xA9]));
    assert!(is_valid_utf8(&vec![0xF4, 0x8F, 0xBF, 0xBF]));
    assert!(!is_valid_utf8(&vec![0x80]));
    assert!(!is_valid_utf8(&vec![0xC3]));
    assert!(!is_valid_utf8(&vec![0xC0, 0xAF]));
    assert!(!is_valid_utf8(&vec![0xE0, 0x80, 0x80]));
    assert!(!is_valid_utf8(&vec![0xED, 0xA0, 0x80]));
    assert!(!is_valid_utf8(&vec![0xF4, 0x90, 0x80, 0x80]));
    assert!(!is_valid_utf8(&vec![0xFF]));
}

#[test]
fn repeated_calls_answer_identically() {
    let fs = RestrictedFs::new(String::from("/srv"), false);
    let p = hidden_file();
    let first = fs.open_decision(&p);
    let second = fs.open_decision(&p);
    assert_eq!(first, second);
    let entries = vec![Some(b".git".to_vec()), Some(b"readme.txt".to_vec())];
    let once = filter_listing(entries.clone());
    let twice = filter_listing(entries);
    assert_eq!(once, twice);
}
