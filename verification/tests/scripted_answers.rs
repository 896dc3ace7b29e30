use codex_fs_guard::attachments::{
    AttachmentPathCheck, EntryKind, FsAnswer, FsQuery, MetadataObservation, ValidationStep,
};
use codex_fs_guard::linux_sandbox::{restricted_read_error, CodexErr};
use codex_fs_guard::native_path::NativePath;
use codex_fs_guard::rpc_error::JSONRPCErrorError;

fn canonical(path: &str) -> FsAnswer {
    FsAnswer::Canonical(Ok(path.as_bytes().to_vec()))
}

fn found(kind: EntryKind) -> FsAnswer {
    FsAnswer::Metadata(MetadataObservation::Found(kind))
}

fn not_found() -> FsAnswer {
    FsAnswer::Metadata(MetadataObservation::NotFound)
}

fn query_text(query: &FsQuery) -> String {
    match query {
        FsQuery::Canonicalize(p) => format!("canonicalize {}", String::from_utf8(p.to_bytes()).unwrap()),
        FsQuery::SymlinkMetadata(p) => format!("metadata {}", String::from_utf8(p.to_bytes()).unwrap()),
    }
}

/// Feeds the answers in order, checking each query on the way; gives the result.
fn script(path: &str, steps: Vec<(&str, FsAnswer)>) -> Result<NativePath, JSONRPCErrorError> {
    let (mut check, mut query) = AttachmentPathCheck::start(
        &NativePath::from_bytes(b"/h"),
        &NativePath::from_bytes(path.as_bytes()),
        "writeFile",
    );
    let total = steps.len();
    for (i, (expected_query, answer)) in steps.into_iter().enumerate() {
        assert_eq!(query_text(&query), expected_query);
        let (next, step) = check.advance(answer);
        match step {
            ValidationStep::Finished(result) => {
                assert_eq!(i + 1, total, "finished early");
                return result;
            }
            ValidationStep::Query(q) => {
                check = next;
                query = q;
            }
        }
    }
    panic!("the check asked for more answers");
}

#[test]
fn new_file_walks_up_to_an_existing_parent() {
    let result = script(
        "/h/attachments/a/b.txt",
        vec![
            ("canonicalize /h", canonical("/h")),
            ("metadata /h/attachments/a", not_found()),
            ("metadata /h/attachments", found(EntryKind::Directory)),
            ("metadata /h/attachments/a/b.txt", not_found()),
            ("metadata /h/attachments/a", not_found()),
            ("metadata /h/attachments", found(EntryKind::Directory)),
            ("canonicalize /h/attachments", canonical("/h/attachments")),
            ("canonicalize /h/attachments", canonical("/h/attachments")),
        ],
    );
    assert_eq!(result.unwrap().to_bytes(), b"/h/attachments/a/b.txt".to_vec());
}

#[test]
fn failed_ancestor_inspection_is_refused() {
    let err = script(
        "/h/attachments/a.txt",
        vec![
            ("canonicalize /h", canonical("/h")),
            (
                "metadata /h/attachments",
                FsAnswer::Metadata(MetadataObservation::Failed("Permission denied".to_string())),
            ),
        ],
    )
    .unwrap_err();
    assert_eq!(err.message, "fs/writeFile cannot inspect mutation path: Permission denied");
}

#[test]
fn failed_target_inspection_is_refused() {
    let err = script(
        "/h/attachments/a.txt",
        vec![
            ("canonicalize /h", canonical("/h")),
            ("metadata /h/attachments", found(EntryKind::Directory)),
            (
                "metadata /h/attachments/a.txt",
                FsAnswer::Metadata(MetadataObservation::Failed("I/O error".to_string())),
            ),
        ],
    )
    .unwrap_err();
    assert_eq!(err.message, "fs/writeFile cannot inspect target: I/O error");
}

#[test]
fn failed_target_canonicalization_is_refused() {
    let err = script(
        "/h/attachments/a.txt",
        vec![
            ("canonicalize /h", canonical("/h")),
            ("metadata /h/attachments", found(EntryKind::Directory)),
            ("metadata /h/attachments/a.txt", found(EntryKind::File)),
            ("canonicalize /h/attachments/a.txt", FsAnswer::Canonical(Err("gone".to_string()))),
        ],
    )
    .unwrap_err();
    assert_eq!(err.message, "fs/writeFile cannot canonicalize target: gone");
}

#[test]
fn target_resolving_elsewhere_is_refused() {
    let err = script(
        "/h/attachments/a.txt",
        vec![
            ("canonicalize /h", canonical("/h")),
            ("metadata /h/attachments", found(EntryKind::Directory)),
            ("metadata /h/attachments/a.txt", found(EntryKind::File)),
            ("canonicalize /h/attachments/a.txt", canonical("/etc/passwd")),
            ("canonicalize /h/attachments", canonical("/h/attachments")),
        ],
    )
    .unwrap_err();
    assert_eq!(err.message, "fs/writeFile target resolves outside CODEX_HOME/attachments");
}

#[test]
fn parent_resolving_elsewhere_is_refused() {
    let err = script(
        "/h/attachments/a.txt",
        vec![
            ("canonicalize /h", canonical("/h")),
            ("metadata /h/attachments", found(EntryKind::Directory)),
            ("metadata /h/attachments/a.txt", not_found()),
            ("metadata /h/attachments", found(EntryKind::Directory)),
            ("canonicalize /h/attachments", canonical("/elsewhere")),
            ("canonicalize /h/attachments", canonical("/h/attachments")),
        ],
    )
    .unwrap_err();
    assert_eq!(err.message, "fs/writeFile parent resolves outside CODEX_HOME/attachments");
}

#[test]
fn failed_parent_canonicalization_is_refused() {
    let err = script(
        "/h/attachments/a.txt",
        vec![
            ("canonicalize /h", canonical("/h")),
            ("metadata /h/attachments", found(EntryKind::Directory)),
            ("metadata /h/attachments/a.txt", not_found()),
            ("metadata /h/attachments", found(EntryKind::Directory)),
            ("canonicalize /h/attachments", FsAnswer::Canonical(Err("loop".to_string()))),
        ],
    )
    .unwrap_err();
    assert_eq!(err.message, "fs/writeFile cannot canonicalize existing parent: loop");
}

#[test]
fn failed_parent_inspection_is_refused() {
    let err = script(
        "/h/attachments/a.txt",
        vec![
            ("canonicalize /h", canonical("/h")),
            ("metadata /h/attachments", found(EntryKind::Directory)),
            ("metadata /h/attachments/a.txt", not_found()),
            (
                "metadata /h/attachments",
                FsAnswer::Metadata(MetadataObservation::Failed("denied".to_string())),
            ),
        ],
    )
    .unwrap_err();
    assert_eq!(err.message, "fs/writeFile cannot inspect existing parent: denied");
}

#[test]
fn missing_every_parent_is_refused() {
    let err = script(
        "/h/attachments/a.txt",
        vec![
            ("canonicalize /h", canonical("/h")),
            ("metadata /h/attachments", not_found()),
            ("metadata /h/attachments/a.txt", not_found()),
            ("metadata /h/attachments", not_found()),
            ("metadata /h", not_found()),
            ("metadata /", not_found()),
        ],
    )
    .unwrap_err();
    assert_eq!(err.message, "fs/writeFile cannot find an existing parent");
}

#[test]
fn symlinked_existing_parent_is_refused() {
    let err = script(
        "/h/attachments/a/b.txt",
        vec![
            ("canonicalize /h", canonical("/h")),
            ("metadata /h/attachments/a", found(EntryKind::Directory)),
            ("metadata /h/attachments", found(EntryKind::Directory)),
            ("metadata /h/attachments/a/b.txt", not_found()),
            ("metadata /h/attachments/a", found(EntryKind::Symlink)),
        ],
    )
    .unwrap_err();
    assert_eq!(err.message, "fs/writeFile rejects symlink/reparse-point ancestors");
}

#[test]
fn restricted_reads_are_unsupported_by_legacy_landlock() {
    match restricted_read_error() {
        CodexErr::UnsupportedOperation(message) => assert_eq!(
            message,
            "Restricted read-only access is not supported by the legacy Linux Landlock filesystem backend."
        ),
        _ => panic!("expected UnsupportedOperation"),
    }
}
