//! End-to-end checks of the snapshot engine on concrete raw snapshots.

use notte_fs::builder::{
    create_dir_entry, create_dir_entry_with_status, create_file_entry,
    create_file_entry_with_status, create_file_type, create_file_type_with_status,
    create_link_entry, create_link_entry_with_status,
};
use notte_fs::classify::{classify, classify_kind, ClassificationOutcome, MetaProbe};
use notte_fs::entry::{FileType, RawNode};
use notte_fs::lines::split_lines;
use notte_fs::outcome::{
    outcome_of, status_of, FsErrorKind, Outcome, UnknownDetail, STATUS_FORBIDDEN,
    STATUS_INTERNAL_ERROR, STATUS_NOT_FOUND, STATUS_OK,
};

fn probe(is_symlink: bool, is_dir: bool, is_file: bool) -> MetaProbe {
    MetaProbe {
        is_symlink,
        is_dir,
        is_file,
    }
}

fn raw_file(name: &str, path: &str, text: &str) -> RawNode {
    RawNode::File {
        name: String::from(name),
        path: String::from(path),
        read: Ok(String::from(text)),
    }
}

#[test]
fn split_lines_empty_text_has_no_lines() {
    assert_eq!(split_lines(""), Vec::<String>::new());
}

#[test]
fn split_lines_splits_at_line_feeds() {
    assert_eq!(split_lines("alpha\nbeta\ngamma"), vec!["alpha", "beta", "gamma"]);
}

#[test]
fn split_lines_strips_carriage_return_before_line_feed() {
    assert_eq!(split_lines("alpha\r\nbeta"), vec!["alpha", "beta"]);
}

#[test]
fn split_lines_final_terminator_is_optional() {
    assert_eq!(split_lines("alpha\n"), vec!["alpha"]);
    assert_eq!(split_lines("alpha\r\n"), vec!["alpha"]);
}

#[test]
fn split_lines_lone_carriage_return_ends_no_line() {
    assert_eq!(split_lines("alpha\rbeta"), vec!["alpha\rbeta"]);
    assert_eq!(split_lines("alpha\r"), vec!["alpha\r"]);
}

#[test]
fn split_lines_empty_lines_are_kept() {
    assert_eq!(split_lines("\n"), vec![""]);
    assert_eq!(split_lines("\r\n"), vec![""]);
    assert_eq!(split_lines("alpha\n\r\nbeta"), vec!["alpha", "", "beta"]);
}

#[test]
fn classify_kind_recognizes_each_kind() {
    assert_eq!(classify_kind(probe(false, false, true)), ClassificationOutcome::IsFile);
    assert_eq!(classify_kind(probe(false, true, false)), ClassificationOutcome::IsDirectory);
    assert_eq!(classify_kind(probe(true, false, false)), ClassificationOutcome::IsSymlink);
    assert_eq!(classify_kind(probe(false, false, false)), ClassificationOutcome::IsOther);
}

#[test]
fn classify_kind_never_masks_a_symlink() {
    assert_eq!(classify_kind(probe(true, true, true)), ClassificationOutcome::IsSymlink);
}

#[test]
fn classify_reports_not_found() {
    assert_eq!(
        classify(&Err(FsErrorKind::NotFound)),
        ClassificationOutcome::ClassifyFailed(Outcome::NotFound)
    );
}

#[test]
fn classify_reports_permission_denied() {
    assert_eq!(
        classify(&Err(FsErrorKind::PermissionDenied)),
        ClassificationOutcome::ClassifyFailed(Outcome::PermissionDenied)
    );
}

#[test]
fn classify_reports_other_errors_as_unknown() {
    assert_eq!(
        classify(&Err(FsErrorKind::TimedOut)),
        ClassificationOutcome::ClassifyFailed(Outcome::Unknown(UnknownDetail::Io(
            FsErrorKind::TimedOut
        )))
    );
}

#[test]
fn outcome_of_keeps_the_two_named_kinds() {
    assert_eq!(outcome_of(FsErrorKind::NotFound), Outcome::NotFound);
    assert_eq!(outcome_of(FsErrorKind::PermissionDenied), Outcome::PermissionDenied);
    assert_eq!(
        outcome_of(FsErrorKind::InvalidData),
        Outcome::Unknown(UnknownDetail::Io(FsErrorKind::InvalidData))
    );
}

#[test]
fn status_of_maps_each_outcome() {
    assert_eq!(status_of(Outcome::NotFound), STATUS_NOT_FOUND);
    assert_eq!(status_of(Outcome::PermissionDenied), STATUS_FORBIDDEN);
    assert_eq!(status_of(Outcome::Unknown(UnknownDetail::UnresolvedLink)), STATUS_INTERNAL_ERROR);
    assert_eq!(STATUS_OK, 200);
    assert_eq!(STATUS_NOT_FOUND, 404);
    assert_eq!(STATUS_FORBIDDEN, 403);
    assert_eq!(STATUS_INTERNAL_ERROR, 500);
}

#[test]
fn readable_file_builds_with_its_lines() {
    let name = String::from("notes.txt");
    let path = String::from("/tmp/notes.txt");
    let read: Result<String, FsErrorKind> = Ok(String::from("first\nsecond\n"));
    let entry = create_file_entry(&name, &path, &read).unwrap();
    assert_eq!(entry.name, "notes.txt");
    assert_eq!(entry.path, "/tmp/notes.txt");
    assert_eq!(entry.content, vec!["first", "second"]);
}

#[test]
fn missing_file_read_yields_not_found() {
    let name = String::from("gone.txt");
    let path = String::from("/tmp/gone.txt");
    let read: Result<String, FsErrorKind> = Err(FsErrorKind::NotFound);
    assert_eq!(create_file_entry(&name, &path, &read), Err(Outcome::NotFound));
}

#[test]
fn undecodable_file_read_yields_unknown() {
    let name = String::from("blob.bin");
    let path = String::from("/tmp/blob.bin");
    let read: Result<String, FsErrorKind> = Err(FsErrorKind::InvalidData);
    assert_eq!(
        create_file_entry(&name, &path, &read),
        Err(Outcome::Unknown(UnknownDetail::Io(FsErrorKind::InvalidData)))
    );
}

#[test]
fn file_entry_status_is_200_on_success() {
    let name = String::from("a");
    let path = String::from("/a");
    let read: Result<String, FsErrorKind> = Ok(String::from("x"));
    let (status, entry) = create_file_entry_with_status(&name, &path, &read);
    assert_eq!(status, 200);
    assert_eq!(entry.unwrap().content, vec!["x"]);
}

#[test]
fn file_entry_status_reflects_the_error() {
    let name = String::from("a");
    let path = String::from("/a");
    assert_eq!(create_file_entry_with_status(&name, &path, &Err(FsErrorKind::NotFound)).0, 404);
    assert_eq!(
        create_file_entry_with_status(&name, &path, &Err(FsErrorKind::PermissionDenied)).0,
        403
    );
    assert_eq!(create_file_entry_with_status(&name, &path, &Err(FsErrorKind::Other)).0, 500);
}

#[test]
fn directory_with_file_and_subdirectory_builds_both_children() {
    let name = String::from("top");
    let path = String::from("/top");
    let listing: Result<Vec<RawNode>, FsErrorKind> = Ok(vec![
        raw_file("a.txt", "/top/a.txt", "hello\nworld"),
        RawNode::Dir {
            name: String::from("b"),
            path: String::from("/top/b"),
            listing: Ok(vec![raw_file("c.txt", "/top/b/c.txt", "deep")]),
        },
    ]);
    let dir = create_dir_entry(&name, &path, &listing).unwrap();
    assert_eq!(dir.name, "top");
    assert_eq!(dir.path, "/top");
    assert_eq!(dir.content.len(), 2);
    match &dir.content[0] {
        FileType::File(f) => {
            assert_eq!(f.name, "a.txt");
            assert_eq!(f.content, vec!["hello", "world"]);
        }
        other => panic!("expected a file entry, got {:?}", other),
    }
    match &dir.content[1] {
        FileType::Dir(d) => {
            assert_eq!(d.name, "b");
            assert_eq!(d.content.len(), 1);
            match &d.content[0] {
                FileType::File(f) => assert_eq!(f.content, vec!["deep"]),
                other => panic!("expected a file entry, got {:?}", other),
            }
        }
        other => panic!("expected a directory entry, got {:?}", other),
    }
}

#[test]
fn empty_directory_builds_with_no_children() {
    let name = String::from("empty");
    let path = String::from("/empty");
    let listing: Result<Vec<RawNode>, FsErrorKind> = Ok(Vec::new());
    let dir = create_dir_entry(&name, &path, &listing).unwrap();
    assert_eq!(dir.content.len(), 0);
}

#[test]
fn unreadable_directory_listing_yields_its_outcome() {
    let name = String::from("locked");
    let path = String::from("/locked");
    let listing: Result<Vec<RawNode>, FsErrorKind> = Err(FsErrorKind::PermissionDenied);
    assert_eq!(create_dir_entry(&name, &path, &listing), Err(Outcome::PermissionDenied));
}

#[test]
fn one_failing_child_fails_the_whole_directory() {
    let name = String::from("top");
    let path = String::from("/top");
    let listing: Result<Vec<RawNode>, FsErrorKind> = Ok(vec![
        raw_file("ok.txt", "/top/ok.txt", "fine"),
        RawNode::File {
            name: String::from("secret.txt"),
            path: String::from("/top/secret.txt"),
            read: Err(FsErrorKind::PermissionDenied),
        },
        raw_file("later.txt", "/top/later.txt", "never built"),
    ]);
    assert_eq!(create_dir_entry(&name, &path, &listing), Err(Outcome::PermissionDenied));
    let (status, entry) = create_dir_entry_with_status(&name, &path, &listing);
    assert_eq!(status, 403);
    assert!(entry.is_none());
}

#[test]
fn directory_status_is_200_on_success() {
    let name = String::from("top");
    let path = String::from("/top");
    let listing: Result<Vec<RawNode>, FsErrorKind> =
        Ok(vec![raw_file("a.txt", "/top/a.txt", "hi")]);
    let (status, entry) = create_dir_entry_with_status(&name, &path, &listing);
    assert_eq!(status, 200);
    assert_eq!(entry.unwrap().content.len(), 1);
}

#[test]
fn building_a_link_reports_the_unresolved_failure() {
    let name = String::from("ln");
    let path = String::from("/ln");
    assert_eq!(
        create_link_entry(&name, &path),
        Err(Outcome::Unknown(UnknownDetail::UnresolvedLink))
    );
    let (status, entry) = create_link_entry_with_status(&name, &path);
    assert_eq!(status, 500);
    assert!(entry.is_none());
}

#[test]
fn symlink_is_classified_as_a_link_and_builds_unresolved() {
    assert_eq!(classify(&Ok(probe(true, false, false))), ClassificationOutcome::IsSymlink);
    let raw = RawNode::Link {
        name: String::from("ln"),
        path: String::from("/ln"),
    };
    assert_eq!(
        create_file_type(&raw),
        Err(Outcome::Unknown(UnknownDetail::UnresolvedLink))
    );
}

#[test]
fn other_nodes_build_to_the_other_marker_with_success() {
    assert_eq!(create_file_type(&RawNode::Other), Ok(FileType::Other));
    let (status, entry) = create_file_type_with_status(&RawNode::Other);
    assert_eq!(status, 200);
    assert_eq!(entry, Some(FileType::Other));
}

#[test]
fn nonexistent_path_builds_to_not_found() {
    let raw = RawNode::Failed {
        err: FsErrorKind::NotFound,
    };
    assert_eq!(create_file_type(&raw), Err(Outcome::NotFound));
    let (status, entry) = create_file_type_with_status(&raw);
    assert_eq!(status, 404);
    assert!(entry.is_none());
}

#[test]
fn inaccessible_path_builds_to_permission_denied() {
    let raw = RawNode::Failed {
        err: FsErrorKind::PermissionDenied,
    };
    assert_eq!(create_file_type(&raw), Err(Outcome::PermissionDenied));
    assert_eq!(create_file_type_with_status(&raw).0, 403);
}

#[test]
fn building_twice_from_equal_snapshots_is_structurally_equal() {
    let make = || RawNode::Dir {
        name: String::from("top"),
        path: String::from("/top"),
        listing: Ok(vec![
            raw_file("a.txt", "/top/a.txt", "one\ntwo"),
            RawNode::Other,
        ]),
    };
    let first = create_file_type(&make());
    let second = create_file_type(&make());
    assert_eq!(first, second);
    assert!(first.is_ok());
}

#[test]
fn file_node_builds_to_a_file_entry() {
    let raw = raw_file("a.txt", "/top/a.txt", "line");
    let (status, entry) = create_file_type_with_status(&raw);
    assert_eq!(status, 200);
    match entry.unwrap() {
        FileType::File(f) => assert_eq!(f.content, vec!["line"]),
        other => panic!("expected a file entry, got {:?}", other),
    }
}
