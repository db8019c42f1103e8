use git2::error::{doit, doit_flag, native_bool, Error, ErrorKind, LastError, CLASS_NONE};
use git2::marshal::{from_native, prepare_path, to_native};
use git2::revspec::{Revspec, RevspecKind, REVPARSE_MERGE_BASE, REVPARSE_RANGE, REVPARSE_SINGLE};
use git2::state::RepositoryState;

fn not_found() -> Option<LastError> {
    Some(LastError { klass: 6, message: "could not find repository".to_string() })
}

#[test]
fn status_zero_and_positive_pass_through() {
    assert_eq!(doit(0, None).unwrap(), 0);
    assert_eq!(doit(1, not_found()).unwrap(), 1);
    assert_eq!(doit(i32::MAX, None).unwrap(), i32::MAX);
}

#[test]
fn negative_status_is_native_error_with_last_error() {
    let e = doit(-3, not_found()).unwrap_err();
    assert_eq!(e.kind(), ErrorKind::Native);
    assert_eq!(e.raw_code(), -3);
    assert_eq!(e.raw_class(), 6);
    assert_eq!(e.message(), "could not find repository");
}

#[test]
fn negative_status_without_last_error() {
    let e = doit(-1, None).unwrap_err();
    assert_eq!(e.kind(), ErrorKind::Native);
    assert_eq!(e.raw_code(), -1);
    assert_eq!(e.raw_class(), CLASS_NONE);
    assert_eq!(e.message(), "");
    assert!(e.message.is_none());
}

#[test]
fn error_from_native_keeps_fields() {
    let e = Error::from_native(i32::MIN, not_found());
    assert_eq!(e.raw_code(), i32::MIN);
    assert_eq!(e.raw_class(), 6);
    assert_eq!(e.message(), "could not find repository");
}

#[test]
fn flag_status() {
    assert_eq!(doit_flag(1, None).unwrap(), true);
    assert_eq!(doit_flag(0, None).unwrap(), false);
    assert_eq!(doit_flag(2, None).unwrap(), false);
    let e = doit_flag(-9, not_found()).unwrap_err();
    assert_eq!(e.kind(), ErrorKind::Native);
    assert_eq!(e.raw_code(), -9);
    assert_eq!(e.raw_class(), 6);
    assert_eq!(e.message(), "could not find repository");
    let e = doit_flag(-1, None).unwrap_err();
    assert_eq!(e.raw_class(), CLASS_NONE);
    assert!(e.message.is_none());
}

#[test]
fn plain_bool_answer() {
    assert!(native_bool(1));
    assert!(!native_bool(0));
    assert!(!native_bool(-1));
}

#[test]
fn to_native_terminates() {
    assert_eq!(to_native(b"/tmp/repo").unwrap(), b"/tmp/repo\0".to_vec());
    assert_eq!(to_native(b"").unwrap(), vec![0u8]);
}

#[test]
fn to_native_refuses_inner_nul() {
    let e = to_native(b"a\0b").unwrap_err();
    assert_eq!(e.kind(), ErrorKind::Encoding);
    let e = to_native(b"\0").unwrap_err();
    assert_eq!(e.kind(), ErrorKind::Encoding);
}

#[test]
fn prepare_path_marshals() {
    assert_eq!(prepare_path(b"HEAD").unwrap(), b"HEAD\0".to_vec());
    assert_eq!(prepare_path(b"x\0").unwrap_err().kind(), ErrorKind::Encoding);
}

#[test]
fn from_native_stops_at_terminator() {
    assert_eq!(from_native(b"abc\0def"), b"abc".to_vec());
    assert_eq!(from_native(b"\0"), Vec::<u8>::new());
    assert_eq!(from_native(b"no terminator"), b"no terminator".to_vec());
}

#[test]
fn native_round_trip() {
    let s = b"/home/user/project/.git/";
    assert_eq!(from_native(&to_native(s).unwrap()), s.to_vec());
}

#[test]
fn state_decoding() {
    let expected = [
        (0, RepositoryState::Clean),
        (1, RepositoryState::Merge),
        (2, RepositoryState::Revert),
        (4, RepositoryState::CherryPick),
        (6, RepositoryState::Bisect),
        (7, RepositoryState::Rebase),
        (8, RepositoryState::RebaseInteractive),
        (9, RepositoryState::RebaseMerge),
        (10, RepositoryState::ApplyMailbox),
        (11, RepositoryState::ApplyMailboxOrRebase),
    ];
    for (code, state) in expected.iter() {
        assert_eq!(RepositoryState::from_raw(*code), Some(*state));
    }
    assert_eq!(RepositoryState::from_raw(3), None);
    assert_eq!(RepositoryState::from_raw(5), None);
    assert_eq!(RepositoryState::from_raw(12), None);
    assert_eq!(RepositoryState::from_raw(-1), None);
}

#[test]
fn state_matches_engine_numbering() {
    assert_eq!(RepositoryState::Clean.raw(), libgit2_sys::GIT_REPOSITORY_STATE_NONE as i32);
    assert_eq!(RepositoryState::Merge.raw(), libgit2_sys::GIT_REPOSITORY_STATE_MERGE as i32);
    assert_eq!(RepositoryState::Revert.raw(), libgit2_sys::GIT_REPOSITORY_STATE_REVERT as i32);
    assert_eq!(RepositoryState::CherryPick.raw(), libgit2_sys::GIT_REPOSITORY_STATE_CHERRYPICK as i32);
    assert_eq!(RepositoryState::Bisect.raw(), libgit2_sys::GIT_REPOSITORY_STATE_BISECT as i32);
    assert_eq!(RepositoryState::Rebase.raw(), libgit2_sys::GIT_REPOSITORY_STATE_REBASE as i32);
    assert_eq!(
        RepositoryState::RebaseInteractive.raw(),
        libgit2_sys::GIT_REPOSITORY_STATE_REBASE_INTERACTIVE as i32
    );
    assert_eq!(RepositoryState::RebaseMerge.raw(), libgit2_sys::GIT_REPOSITORY_STATE_REBASE_MERGE as i32);
    assert_eq!(RepositoryState::ApplyMailbox.raw(), libgit2_sys::GIT_REPOSITORY_STATE_APPLY_MAILBOX as i32);
    assert_eq!(
        RepositoryState::ApplyMailboxOrRebase.raw(),
        libgit2_sys::GIT_REPOSITORY_STATE_APPLY_MAILBOX_OR_REBASE as i32
    );
    assert_eq!(
        RepositoryState::from_raw(libgit2_sys::GIT_REPOSITORY_STATE_REVERT_SEQUENCE as i32),
        None
    );
    assert_eq!(
        RepositoryState::from_raw(libgit2_sys::GIT_REPOSITORY_STATE_CHERRYPICK_SEQUENCE as i32),
        None
    );
}

#[test]
fn state_round_trip_and_clean() {
    let all = [
        RepositoryState::Clean,
        RepositoryState::Merge,
        RepositoryState::Revert,
        RepositoryState::CherryPick,
        RepositoryState::Bisect,
        RepositoryState::Rebase,
        RepositoryState::RebaseInteractive,
        RepositoryState::RebaseMerge,
        RepositoryState::ApplyMailbox,
        RepositoryState::ApplyMailboxOrRebase,
    ];
    for s in all.iter() {
        assert_eq!(RepositoryState::from_raw(s.raw()), Some(*s));
        assert_eq!(s.is_clean(), *s == RepositoryState::Clean);
    }
}

#[test]
fn revparse_flags_match_engine() {
    assert_eq!(REVPARSE_SINGLE, libgit2_sys::GIT_REVPARSE_SINGLE as u32);
    assert_eq!(REVPARSE_RANGE, libgit2_sys::GIT_REVPARSE_RANGE as u32);
    assert_eq!(REVPARSE_MERGE_BASE, libgit2_sys::GIT_REVPARSE_MERGE_BASE as u32);
}

#[test]
fn single_revspec_has_no_second_object() {
    let s = Revspec::from_native(REVPARSE_SINGLE, Some("c0ffee"), None).unwrap();
    assert_eq!(s.kind(), RevspecKind::Single);
    assert_eq!(s.from(), Some(&"c0ffee"));
    assert!(s.to().is_none());
}

#[test]
fn range_revspec_keeps_both_objects() {
    let s = Revspec::from_native(REVPARSE_RANGE, Some(1u32), Some(2u32)).unwrap();
    assert_eq!(s.kind(), RevspecKind::Range);
    assert_eq!(s.from(), Some(&1));
    assert_eq!(s.to(), Some(&2));
    let m = Revspec::from_native(REVPARSE_RANGE | REVPARSE_MERGE_BASE, Some(1u32), Some(2u32)).unwrap();
    assert_eq!(m.kind(), RevspecKind::MergeBase);
    assert_eq!(m.to(), Some(&2));
}

#[test]
fn unrecognized_revspec_flags_are_refused() {
    let e = Revspec::from_native(0, Some(1u32), None).unwrap_err();
    assert_eq!(e.kind(), ErrorKind::UnsupportedRevspec);
    let e = Revspec::from_native(REVPARSE_MERGE_BASE, Some(1u32), Some(2u32)).unwrap_err();
    assert_eq!(e.kind(), ErrorKind::UnsupportedRevspec);
}
