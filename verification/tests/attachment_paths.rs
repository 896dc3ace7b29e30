use codex_fs_guard::app_server_protocol::{FsCopyParams, FsCreateDirectoryParams, FsWriteFileParams};
use codex_fs_guard::attachments::{
    AttachmentPathCheck, EntryKind, FsAnswer, FsQuery, MetadataObservation, ValidationStep,
};
use codex_fs_guard::fs_processor::FsRequestProcessor;
use codex_fs_guard::handler_flow::{HandlerAnswer, HandlerQuery, HandlerStep, MutationFlow, MutationOp};
use codex_fs_guard::native_path::NativePath;
use codex_fs_guard::path_uri::{AbsolutePathBuf, PathUri};
use codex_fs_guard::rpc_error::JSONRPCErrorError;
use std::collections::HashMap;

/// A filesystem held in memory: each path maps to its entry type and, when
/// it is a symlink, to the path it points at.
struct MemoryFs {
    entries: HashMap<Vec<u8>, (EntryKind, Option<Vec<u8>>)>,
}

impl MemoryFs {
    fn new() -> Self {
        let mut fs = MemoryFs { entries: HashMap::new() };
        fs.add_dir("/");
        fs
    }

    fn add_dir(&mut self, path: &str) {
        self.entries.insert(path.as_bytes().to_vec(), (EntryKind::Directory, None));
    }

    fn add_file(&mut self, path: &str) {
        self.entries.insert(path.as_bytes().to_vec(), (EntryKind::File, None));
    }

    fn add_symlink(&mut self, path: &str, target: &str) {
        self.entries.insert(
            path.as_bytes().to_vec(),
            (EntryKind::Symlink, Some(target.as_bytes().to_vec())),
        );
    }

    fn metadata(&self, path: &NativePath) -> MetadataObservation {
        match self.entries.get(&path.to_bytes()) {
            Some((kind, _)) => MetadataObservation::Found(*kind),
            None => MetadataObservation::NotFound,
        }
    }

    /// Resolves every symlink along the path; fails when a component is missing.
    fn canonicalize(&self, path: &NativePath) -> Result<Vec<u8>, String> {
        let mut resolved: Vec<u8> = b"/".to_vec();
        let text = String::from_utf8(path.to_bytes()).unwrap();
        for part in text.split('/').filter(|p| !p.is_empty()) {
            let mut candidate = resolved.clone();
            if candidate != b"/" {
                candidate.push(b'/');
            }
            candidate.extend_from_slice(part.as_bytes());
            match self.entries.get(&candidate) {
                None => return Err("No such file or directory (os error 2)".to_string()),
                Some((EntryKind::Symlink, Some(target))) => resolved = target.clone(),
                Some(_) => resolved = candidate,
            }
        }
        Ok(resolved)
    }

    fn answer(&self, query: &FsQuery) -> FsAnswer {
        match query {
            FsQuery::Canonicalize(p) => FsAnswer::Canonical(self.canonicalize(p)),
            FsQuery::SymlinkMetadata(p) => FsAnswer::Metadata(self.metadata(p)),
        }
    }

    fn run(&self, mut check: AttachmentPathCheck, mut query: FsQuery) -> Result<NativePath, JSONRPCErrorError> {
        loop {
            let answer = self.answer(&query);
            let (next, step) = check.advance(answer);
            match step {
                ValidationStep::Finished(result) => return result,
                ValidationStep::Query(q) => {
                    check = next;
                    query = q;
                }
            }
        }
    }

    fn run_flow(
        &self,
        mut flow: MutationFlow,
        mut query: HandlerQuery,
        file_system_available: bool,
    ) -> Result<MutationOp, JSONRPCErrorError> {
        loop {
            let reply = match &query {
                HandlerQuery::Check(q) => HandlerAnswer::Check(self.answer(q)),
                HandlerQuery::SourceMetadata(p) => HandlerAnswer::SourceMetadata(match self.metadata(p) {
                    MetadataObservation::Found(kind) => Ok(kind),
                    _ => Err("No such file or directory (os error 2)".to_string()),
                }),
                HandlerQuery::FileSystem => HandlerAnswer::FileSystem(file_system_available),
            };
            let (next, step) = flow.advance(reply);
            match step {
                HandlerStep::Query(q) => {
                    flow = next;
                    query = q;
                }
                HandlerStep::Perform(op) => return Ok(op),
                HandlerStep::Finished(err) => return Err(err),
            }
        }
    }

    fn validate(&self, home: &str, path: &str, operation: &str) -> Result<NativePath, JSONRPCErrorError> {
        let (check, query) = AttachmentPathCheck::start(
            &NativePath::from_bytes(home.as_bytes()),
            &NativePath::from_bytes(path.as_bytes()),
            operation,
        );
        self.run(check, query)
    }
}

fn home_with_attachments() -> MemoryFs {
    let mut fs = MemoryFs::new();
    fs.add_dir("/tmp");
    fs.add_dir("/tmp/home");
    fs.add_dir("/tmp/home/attachments");
    fs
}

fn abs(path: &str) -> AbsolutePathBuf {
    AbsolutePathBuf::from_native_path(NativePath::from_bytes(path.as_bytes())).unwrap()
}

fn text(path: &NativePath) -> String {
    String::from_utf8(path.to_bytes()).unwrap()
}

#[test]
fn mutation_path_allows_only_attachments_tree() {
    let fs = home_with_attachments();
    let allowed = fs.validate("/tmp/home", "/tmp/home/attachments/note.txt", "writeFile");
    let outside = fs.validate("/tmp/home", "/tmp/home/outside.txt", "writeFile");
    assert!(allowed.is_ok());
    assert!(outside.is_err());
}

#[test]
fn mutation_path_rejects_symlink_escape() {
    let mut fs = home_with_attachments();
    fs.add_dir("/tmp/home/outside");
    fs.add_symlink("/tmp/home/attachments/escape", "/tmp/home/outside");
    let escaped = fs.validate("/tmp/home", "/tmp/home/attachments/escape/secret.txt", "writeFile");
    assert!(escaped.is_err());
}

#[test]
fn accepted_path_is_the_target_itself() {
    let fs = home_with_attachments();
    let accepted = fs.validate("/tmp/home", "/tmp/home/attachments/a/b/note.txt", "writeFile");
    assert_eq!(text(&accepted.unwrap()), "/tmp/home/attachments/a/b/note.txt");
}

#[test]
fn attachments_root_itself_is_refused() {
    let fs = home_with_attachments();
    let err = fs.validate("/tmp/home", "/tmp/home/attachments", "writeFile").unwrap_err();
    assert_eq!(err.code, -32600);
    assert_eq!(err.message, "fs/writeFile is restricted to CODEX_HOME/attachments");
}

#[test]
fn sibling_with_common_prefix_is_refused() {
    let mut fs = home_with_attachments();
    fs.add_dir("/tmp/home/attachments-old");
    let err = fs
        .validate("/tmp/home", "/tmp/home/attachments-old/note.txt", "copy")
        .unwrap_err();
    assert_eq!(err.message, "fs/copy is restricted to CODEX_HOME/attachments");
}

#[test]
fn symlink_ancestor_message_names_ancestors() {
    let mut fs = home_with_attachments();
    fs.add_dir("/tmp/home/outside");
    fs.add_symlink("/tmp/home/attachments/escape", "/tmp/home/outside");
    let err = fs
        .validate("/tmp/home", "/tmp/home/attachments/escape/secret.txt", "writeFile")
        .unwrap_err();
    assert_eq!(err.message, "fs/writeFile rejects symlink/reparse-point ancestors");
}

#[test]
fn symlink_target_is_refused() {
    let mut fs = home_with_attachments();
    fs.add_file("/tmp/home/secret.txt");
    fs.add_symlink("/tmp/home/attachments/link.txt", "/tmp/home/secret.txt");
    let err = fs
        .validate("/tmp/home", "/tmp/home/attachments/link.txt", "writeFile")
        .unwrap_err();
    assert_eq!(err.message, "fs/writeFile rejects symlink/reparse-point targets");
}

#[test]
fn existing_target_is_accepted() {
    let mut fs = home_with_attachments();
    fs.add_file("/tmp/home/attachments/note.txt");
    assert!(fs.validate("/tmp/home", "/tmp/home/attachments/note.txt", "writeFile").is_ok());
}

#[test]
fn missing_home_is_refused() {
    let fs = MemoryFs::new();
    let err = fs
        .validate("/nowhere", "/nowhere/attachments/note.txt", "writeFile")
        .unwrap_err();
    assert_eq!(
        err.message,
        "fs/writeFile cannot establish canonical CODEX_HOME: No such file or directory (os error 2)"
    );
}

#[test]
fn symlinked_home_is_resolved_first() {
    let mut fs = home_with_attachments();
    fs.add_symlink("/home-link", "/tmp/home");
    let via_link = fs.validate("/home-link", "/tmp/home/attachments/note.txt", "writeFile");
    assert!(via_link.is_ok());
    let err = fs
        .validate("/home-link", "/home-link/attachments/note.txt", "writeFile")
        .unwrap_err();
    assert_eq!(err.message, "fs/writeFile is restricted to CODEX_HOME/attachments");
}

#[test]
fn missing_attachments_root_is_refused() {
    let mut fs = MemoryFs::new();
    fs.add_dir("/home");
    let err = fs
        .validate("/home", "/home/attachments/note.txt", "writeFile")
        .unwrap_err();
    assert_eq!(
        err.message,
        "fs/writeFile cannot establish canonical attachments root: No such file or directory (os error 2)"
    );
}

#[test]
fn relative_path_uri_is_an_invalid_path() {
    let processor = FsRequestProcessor::new(NativePath::from_bytes(b"/tmp/home"));
    let uri = PathUri::from_native_path(NativePath::from_bytes(b"attachments/note.txt"));
    let err = processor.validate_attachment_mutation(&uri, "writeFile").unwrap_err();
    assert_eq!(err.code, -32600);
    assert_eq!(err.message, "fs/writeFile has an invalid path: path is not absolute");
}

#[test]
fn write_is_performed_after_its_target_passes() {
    let fs = home_with_attachments();
    let processor = FsRequestProcessor::new(NativePath::from_bytes(b"/tmp/home"));
    let (flow, query) = processor
        .write_file(FsWriteFileParams {
            path: abs("/tmp/home/attachments/note.txt"),
            data_base64: "aGVsbG8=".to_string(),
        })
        .ok()
        .unwrap();
    match fs.run_flow(flow, query, true).ok().unwrap() {
        MutationOp::WriteFile { path, bytes, options } => {
            assert_eq!(text(&path), "/tmp/home/attachments/note.txt");
            assert_eq!(bytes, b"hello".to_vec());
            assert!(!options.follow_symlinks);
        }
        _ => panic!("expected a write"),
    }
}

#[test]
fn write_outside_attachments_is_never_performed() {
    let fs = home_with_attachments();
    let processor = FsRequestProcessor::new(NativePath::from_bytes(b"/tmp/home"));
    let (flow, query) = processor
        .write_file(FsWriteFileParams {
            path: abs("/tmp/home/outside.txt"),
            data_base64: "aGVsbG8=".to_string(),
        })
        .ok()
        .unwrap();
    let err = fs.run_flow(flow, query, true).err().unwrap();
    assert_eq!(err.message, "fs/writeFile is restricted to CODEX_HOME/attachments");
}

#[test]
fn write_without_local_filesystem_is_an_internal_error() {
    let fs = home_with_attachments();
    let processor = FsRequestProcessor::new(NativePath::from_bytes(b"/tmp/home"));
    let (flow, query) = processor
        .write_file(FsWriteFileParams {
            path: abs("/tmp/home/attachments/note.txt"),
            data_base64: "aGVsbG8=".to_string(),
        })
        .ok()
        .unwrap();
    let err = fs.run_flow(flow, query, false).err().unwrap();
    assert_eq!(err.code, -32603);
    assert_eq!(err.message, "local filesystem is not configured");
}

#[test]
fn write_request_rejects_invalid_base64() {
    let processor = FsRequestProcessor::new(NativePath::from_bytes(b"/tmp/home"));
    let err = processor
        .write_file(FsWriteFileParams {
            path: abs("/tmp/home/attachments/note.txt"),
            data_base64: "not base64!".to_string(),
        })
        .err()
        .unwrap();
    assert_eq!(err.code, -32600);
    assert!(err
        .message
        .starts_with("fs/writeFile requires valid base64 dataBase64: "));
}

#[test]
fn create_directory_defaults_to_recursive() {
    let fs = home_with_attachments();
    let processor = FsRequestProcessor::new(NativePath::from_bytes(b"/tmp/home"));
    let (flow, query) = processor.create_directory(FsCreateDirectoryParams {
        path: abs("/tmp/home/attachments/dir"),
        recursive: None,
    });
    match fs.run_flow(flow, query, true).ok().unwrap() {
        MutationOp::CreateDirectory { path, options } => {
            assert_eq!(text(&path), "/tmp/home/attachments/dir");
            assert!(options.recursive);
            assert!(!options.follow_symlinks);
        }
        _ => panic!("expected a directory creation"),
    }
    let (flow, query) = processor.create_directory(FsCreateDirectoryParams {
        path: abs("/tmp/home/attachments/dir2"),
        recursive: Some(false),
    });
    match fs.run_flow(flow, query, true).ok().unwrap() {
        MutationOp::CreateDirectory { options, .. } => assert!(!options.recursive),
        _ => panic!("expected a directory creation"),
    }
    let (flow, query) = processor.create_directory(FsCreateDirectoryParams {
        path: abs("/tmp/home/outside"),
        recursive: Some(false),
    });
    let err = fs.run_flow(flow, query, true).err().unwrap();
    assert_eq!(err.message, "fs/createDirectory is restricted to CODEX_HOME/attachments");
}

#[test]
fn copy_checks_source_then_destination() {
    let mut fs = home_with_attachments();
    fs.add_file("/tmp/home/attachments/a.txt");
    let processor = FsRequestProcessor::new(NativePath::from_bytes(b"/tmp/home"));
    let (flow, query) = processor.copy(FsCopyParams {
        source_path: abs("/tmp/home/attachments/a.txt"),
        destination_path: abs("/tmp/home/attachments/b.txt"),
        recursive: false,
    });
    match fs.run_flow(flow, query, true).ok().unwrap() {
        MutationOp::Copy { source, destination, options } => {
            assert_eq!(text(&source), "/tmp/home/attachments/a.txt");
            assert_eq!(text(&destination), "/tmp/home/attachments/b.txt");
            assert!(!options.recursive);
        }
        _ => panic!("expected a copy"),
    }
    let (flow, query) = processor.copy(FsCopyParams {
        source_path: abs("/tmp/home/attachments/a.txt"),
        destination_path: abs("/tmp/home/b.txt"),
        recursive: true,
    });
    let err = fs.run_flow(flow, query, true).err().unwrap();
    assert_eq!(err.message, "fs/copy is restricted to CODEX_HOME/attachments");
}

#[test]
fn copy_source_must_exist_as_file_or_directory() {
    let mut fs = home_with_attachments();
    fs.entries.insert(b"/tmp/home/attachments/fifo".to_vec(), (EntryKind::Other, None));
    let processor = FsRequestProcessor::new(NativePath::from_bytes(b"/tmp/home"));
    let (flow, query) = processor.copy(FsCopyParams {
        source_path: abs("/tmp/home/attachments/missing.txt"),
        destination_path: abs("/tmp/home/attachments/b.txt"),
        recursive: false,
    });
    let err = fs.run_flow(flow, query, true).err().unwrap();
    assert_eq!(
        err.message,
        "fs/copy source must exist inside CODEX_HOME/attachments: No such file or directory (os error 2)"
    );
    let (flow, query) = processor.copy(FsCopyParams {
        source_path: abs("/tmp/home/attachments/fifo"),
        destination_path: abs("/tmp/home/attachments/b.txt"),
        recursive: false,
    });
    let err = fs.run_flow(flow, query, true).err().unwrap();
    assert_eq!(
        err.message,
        "fs/copy source must be a regular file or directory inside CODEX_HOME/attachments"
    );
}

#[test]
fn copy_source_must_be_file_or_directory() {
    let path = NativePath::from_bytes(b"/tmp/home/attachments/a");
    let err = FsRequestProcessor::validate_attachment_source("copy", path, Ok(EntryKind::Other))
        .unwrap_err();
    assert_eq!(
        err.message,
        "fs/copy source must be a regular file or directory inside CODEX_HOME/attachments"
    );
    let path = NativePath::from_bytes(b"/tmp/home/attachments/a");
    assert!(FsRequestProcessor::validate_attachment_source("copy", path, Ok(EntryKind::Directory)).is_ok());
}

#[test]
fn parent_dir_component_cannot_climb_out_of_attachments() {
    let fs = home_with_attachments();
    let err = fs
        .validate("/tmp/home", "/tmp/home/attachments/new/../../x", "createDirectory")
        .unwrap_err();
    assert_eq!(err.code, -32600);
    assert_eq!(err.message, "fs/createDirectory is restricted to CODEX_HOME/attachments");
    let inside = fs.validate("/tmp/home", "/tmp/home/attachments/new/../x", "writeFile");
    assert!(inside.is_err());
}
