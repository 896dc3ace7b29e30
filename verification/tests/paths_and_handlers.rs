use landlock::{Access, AccessFs, ABI};
use codex_fs_guard::app_server_protocol::FsRemoveParams;
use codex_fs_guard::fs_processor::{FileMetadata, FsRequestProcessor, ReadDirectoryEntry};
use codex_fs_guard::linux_sandbox::{
    delete_deny_landlock_ruleset, filesystem_landlock_ruleset, landlock_install_result,
    landlock_restriction_result,
    network_seccomp_mode, plan_permission_profile_for_current_thread,
    should_install_network_seccomp, CodexErr, FileSystemSandboxSummary, FilesystemLandlockStep,
    NetworkSandboxPolicy, NetworkSeccompMode, RulesetStatus, SandboxAction, SandboxErr,
    SandboxRun,
};
use codex_fs_guard::native_path::{bytes_equal, NativePath};
use codex_fs_guard::path_uri::AbsolutePathBuf;
use codex_fs_guard::rpc_error::{map_fs_error, FsCallError};

fn components(path: &str) -> usize {
    NativePath::from_bytes(path.as_bytes()).component_count()
}

fn render(path: &str) -> String {
    String::from_utf8(NativePath::from_bytes(path.as_bytes()).to_bytes()).unwrap()
}

fn abs(path: &str) -> AbsolutePathBuf {
    AbsolutePathBuf::from_native_path(NativePath::from_bytes(path.as_bytes())).unwrap()
}

#[test]
fn paths_split_like_std_components() {
    assert_eq!(components("/tmp//home/./attachments/"), 4);
    assert_eq!(render("/tmp//home/./attachments/"), "/tmp/home/attachments");
    assert_eq!(components(""), 0);
    assert_eq!(components("."), 1);
    assert_eq!(render("./a/./b"), "./a/b");
    assert_eq!(render("../a"), "../a");
    assert_eq!(render("/"), "/");
    assert_eq!(render("a/b/"), "a/b");
}

#[test]
fn paths_compare_by_components() {
    let a = NativePath::from_bytes(b"/tmp/home/attachments");
    let b = NativePath::from_bytes(b"/tmp//home/attachments/");
    let c = NativePath::from_bytes(b"/tmp/home/attachments-old");
    let home = NativePath::from_bytes(b"/tmp/home");
    assert!(a.same_path(&b));
    assert!(a.starts_with(&home));
    assert!(!c.starts_with(&a));
    assert!(!home.starts_with(&a));
    assert!(!NativePath::from_bytes(b"tmp/home").starts_with(&home));
    assert!(bytes_equal(b"abc", b"abc"));
    assert!(!bytes_equal(b"abc", b"abd"));
}

#[test]
fn parent_stops_at_the_root() {
    let p = NativePath::from_bytes(b"/tmp/home");
    let parent = p.parent().unwrap();
    assert_eq!(String::from_utf8(parent.to_bytes()).unwrap(), "/tmp");
    let root = parent.parent().unwrap();
    assert_eq!(String::from_utf8(root.to_bytes()).unwrap(), "/");
    assert!(root.parent().is_none());
    let rel = NativePath::from_bytes(b"x").parent().unwrap();
    assert_eq!(rel.component_count(), 0);
    assert!(rel.parent().is_none());
    let joined = p.join_component(b"attachments");
    assert_eq!(String::from_utf8(joined.to_bytes()).unwrap(), "/tmp/home/attachments");
    assert!(AbsolutePathBuf::from_native_path(NativePath::from_bytes(b"a/b")).is_none());
}

#[test]
fn remove_is_always_refused() {
    let processor = FsRequestProcessor::new(NativePath::from_bytes(b"/tmp/home"));
    let err = processor
        .remove(FsRemoveParams {
            path: abs("/tmp/home/attachments/note.txt"),
            recursive: Some(true),
            force: Some(true),
        })
        .err()
        .unwrap();
    assert_eq!(err.code, -32600);
    assert_eq!(
        err.message,
        "fs/remove is disabled because this RPC has no scoped deletion authority"
    );
}

#[test]
fn read_response_is_standard_base64() {
    let response = FsRequestProcessor::read_file_response(b"hello world~");
    assert_eq!(response.data_base64, "aGVsbG8gd29ybGR+");
    let response = FsRequestProcessor::read_file_response(b"");
    assert_eq!(response.data_base64, "");
    let response = FsRequestProcessor::read_file_response(&[0xff, 0x00]);
    assert_eq!(response.data_base64, "/wA=");
}

#[test]
fn read_then_write_payload_round_trips() {
    let bytes: Vec<u8> = (0u8..=255).collect();
    let response = FsRequestProcessor::read_file_response(&bytes);
    let decoded = FsRequestProcessor::decode_write_payload(&response.data_base64).unwrap();
    assert_eq!(decoded, bytes);
}

#[test]
fn invalid_payload_names_the_decoding_error() {
    let err = FsRequestProcessor::decode_write_payload("abc").unwrap_err();
    assert_eq!(
        err.message,
        "fs/writeFile requires valid base64 dataBase64: Invalid padding"
    );
}

#[test]
fn filesystem_errors_map_by_kind() {
    let err = map_fs_error(FsCallError { invalid_input: true, message: "bad path".to_string() });
    assert_eq!(err.code, -32600);
    assert_eq!(err.message, "bad path");
    let err = map_fs_error(FsCallError { invalid_input: false, message: "disk on fire".to_string() });
    assert_eq!(err.code, -32603);
    assert_eq!(err.message, "disk on fire");
}

#[test]
fn missing_local_filesystem_is_an_internal_error() {
    let processor = FsRequestProcessor::new(NativePath::from_bytes(b"/tmp/home"));
    assert!(processor.file_system(true).is_ok());
    let err = processor.file_system(false).unwrap_err();
    assert_eq!(err.code, -32603);
    assert_eq!(err.message, "local filesystem is not configured");
}

#[test]
fn metadata_and_listing_are_copied_field_by_field() {
    let response = FsRequestProcessor::get_metadata_response(FileMetadata {
        is_directory: false,
        is_file: true,
        is_symlink: false,
        created_at_ms: 1,
        modified_at_ms: 2,
    });
    assert!(response.is_file && !response.is_directory && !response.is_symlink);
    assert_eq!((response.created_at_ms, response.modified_at_ms), (1, 2));
    let listing = FsRequestProcessor::read_directory_response(vec![
        ReadDirectoryEntry { file_name: "b".to_string(), is_directory: true, is_file: false },
        ReadDirectoryEntry { file_name: "a".to_string(), is_directory: false, is_file: true },
    ]);
    assert_eq!(listing.entries.len(), 2);
    assert_eq!(listing.entries[0].file_name, "b");
    assert!(listing.entries[0].is_directory);
    assert_eq!(listing.entries[1].file_name, "a");
    assert!(listing.entries[1].is_file);
}

#[test]
fn network_seccomp_follows_policy_and_managed_network() {
    assert!(should_install_network_seccomp(NetworkSandboxPolicy::Restricted, false));
    assert!(!should_install_network_seccomp(NetworkSandboxPolicy::Enabled, false));
    assert!(should_install_network_seccomp(NetworkSandboxPolicy::Enabled, true));
    assert!(network_seccomp_mode(NetworkSandboxPolicy::Enabled, false, true).is_none());
    assert!(matches!(
        network_seccomp_mode(NetworkSandboxPolicy::Enabled, true, true),
        Some(NetworkSeccompMode::ProxyRouted)
    ));
    assert!(matches!(
        network_seccomp_mode(NetworkSandboxPolicy::Restricted, false, false),
        Some(NetworkSeccompMode::Restricted)
    ));
}

fn summary(write: bool, read: bool, roots: Vec<AbsolutePathBuf>) -> FileSystemSandboxSummary {
    FileSystemSandboxSummary {
        full_disk_write_access: write,
        full_disk_read_access: read,
        writable_roots: roots,
    }
}

#[test]
fn full_access_needs_no_privilege_lock() {
    let plan = plan_permission_profile_for_current_thread(
        &summary(true, true, vec![]),
        NetworkSandboxPolicy::Enabled,
        false,
        false,
        true,
        false,
    );
    assert!(!plan.set_no_new_privs);
    assert!(plan.network_seccomp.is_none());
    assert!(matches!(plan.filesystem, FilesystemLandlockStep::Skip));
}

#[test]
fn restricted_write_keeps_network_but_shuts_vm_sockets() {
    let plan = plan_permission_profile_for_current_thread(
        &summary(false, true, vec![]),
        NetworkSandboxPolicy::Enabled,
        false,
        false,
        false,
        false,
    );
    assert!(plan.set_no_new_privs);
    assert!(matches!(plan.network_seccomp, Some(NetworkSeccompMode::VmSocketRestricted)));
    assert!(matches!(plan.filesystem, FilesystemLandlockStep::Skip));
}

#[test]
fn managed_network_stays_fail_closed() {
    let plan = plan_permission_profile_for_current_thread(
        &summary(true, true, vec![]),
        NetworkSandboxPolicy::Enabled,
        true,
        true,
        false,
        false,
    );
    assert!(plan.set_no_new_privs);
    assert!(matches!(plan.network_seccomp, Some(NetworkSeccompMode::ProxyRouted)));
}

#[test]
fn legacy_landlock_rejects_restricted_reads() {
    let plan = plan_permission_profile_for_current_thread(
        &summary(false, false, vec![]),
        NetworkSandboxPolicy::Restricted,
        false,
        false,
        true,
        true,
    );
    assert!(plan.set_no_new_privs);
    assert!(plan.deny_destructive_filesystem);
    assert!(matches!(plan.network_seccomp, Some(NetworkSeccompMode::Restricted)));
    assert!(matches!(plan.filesystem, FilesystemLandlockStep::RejectRestrictedRead));
}

#[test]
fn legacy_landlock_grants_write_without_deletion() {
    let plan = plan_permission_profile_for_current_thread(
        &summary(false, true, vec![abs("/work/repo")]),
        NetworkSandboxPolicy::Enabled,
        false,
        false,
        true,
        false,
    );
    match plan.filesystem {
        FilesystemLandlockStep::Install(ruleset) => {
            assert_eq!(ruleset.handled_access, 0xffff);
            assert_eq!(ruleset.handled_access & (16 | 32 | 8192), 16 | 32 | 8192);
            assert_eq!(ruleset.rules.len(), 3);
            assert_eq!(ruleset.rules[0].path.to_bytes(), b"/".to_vec());
            assert_eq!(ruleset.rules[0].access, 13);
            assert_eq!(ruleset.rules[1].path.to_bytes(), b"/dev/null".to_vec());
            assert_eq!(ruleset.rules[2].path.to_bytes(), b"/work/repo".to_vec());
            for rule in &ruleset.rules[1..] {
                assert_eq!(rule.access, 0xffff & !(16 | 32 | 8192));
            }
            for rule in &ruleset.rules {
                assert_eq!(rule.access & (16 | 32 | 8192), 0);
            }
        }
        _ => panic!("expected a ruleset"),
    }
}

#[test]
fn landlock_access_masks_match_the_crate() {
    let ruleset = filesystem_landlock_ruleset(&vec![]);
    let write = AccessFs::from_all(ABI::V5)
        & !AccessFs::RemoveDir
        & !AccessFs::RemoveFile
        & !AccessFs::Refer;
    assert_eq!(ruleset.handled_access, AccessFs::from_all(ABI::V5).bits());
    assert_eq!(ruleset.rules[0].access, AccessFs::from_read(ABI::V5).bits());
    assert_eq!(ruleset.rules[1].access, write.bits());
    let deny = delete_deny_landlock_ruleset();
    assert_eq!(
        deny.handled_access,
        (AccessFs::RemoveDir | AccessFs::RemoveFile | AccessFs::Refer).bits()
    );
    assert!(deny.rules.is_empty());
}

#[test]
fn unenforced_ruleset_is_an_error() {
    assert!(landlock_restriction_result(RulesetStatus::FullyEnforced).is_ok());
    assert!(landlock_restriction_result(RulesetStatus::PartiallyEnforced).is_ok());
    assert!(matches!(
        landlock_restriction_result(RulesetStatus::NotEnforced),
        Err(CodexErr::Sandbox(SandboxErr::LandlockRestrict))
    ));
}

#[test]
fn failed_landlock_rulesets_are_sandbox_errors() {
    assert!(landlock_install_result(Ok(RulesetStatus::PartiallyEnforced)).is_ok());
    assert!(matches!(
        landlock_install_result(Ok(RulesetStatus::NotEnforced)),
        Err(CodexErr::Sandbox(SandboxErr::LandlockRestrict))
    ));
    match landlock_install_result(Err("missing kernel support".to_string())) {
        Err(CodexErr::Sandbox(SandboxErr::LandlockRuleset(message))) => {
            assert_eq!(message, "missing kernel support")
        }
        _ => panic!("expected a sandbox error"),
    }
}

#[test]
fn sandbox_steps_run_in_plan_order() {
    let plan = plan_permission_profile_for_current_thread(
        &summary(false, true, vec![abs("/work/repo")]),
        NetworkSandboxPolicy::Restricted,
        false,
        false,
        true,
        true,
    );
    let (run, first) = SandboxRun::start(plan);
    assert!(matches!(first, SandboxAction::SetNoNewPrivs));
    let (run, second) = run.advance(Ok(()));
    assert!(matches!(
        second,
        SandboxAction::InstallNetworkSeccomp(NetworkSeccompMode::Restricted)
    ));
    let (run, third) = run.advance(Ok(()));
    match third {
        SandboxAction::InstallLandlock(ruleset) => {
            assert_eq!(ruleset.handled_access, 16 | 32 | 8192);
            assert!(ruleset.rules.is_empty());
        }
        _ => panic!("expected the delete-deny ruleset"),
    }
    let (run, fourth) = run.advance(Ok(()));
    match fourth {
        SandboxAction::InstallLandlock(ruleset) => {
            assert_eq!(ruleset.handled_access, 0xffff);
            assert_eq!(ruleset.rules.len(), 3);
        }
        _ => panic!("expected the filesystem ruleset"),
    }
    let (_, fifth) = run.advance(Ok(()));
    assert!(matches!(fifth, SandboxAction::Finish(Ok(()))));
}

#[test]
fn sandbox_setup_stops_at_the_first_failure() {
    let plan = plan_permission_profile_for_current_thread(
        &summary(false, true, vec![]),
        NetworkSandboxPolicy::Restricted,
        false,
        false,
        true,
        true,
    );
    let (run, first) = SandboxRun::start(plan);
    assert!(matches!(first, SandboxAction::SetNoNewPrivs));
    let (_, next) = run.advance(Err(CodexErr::Io("Operation not permitted".to_string())));
    match next {
        SandboxAction::Finish(Err(CodexErr::Io(message))) => {
            assert_eq!(message, "Operation not permitted")
        }
        _ => panic!("expected the set-up to end with the failure"),
    }
}

#[test]
fn sandbox_setup_rejects_restricted_reads_after_earlier_steps() {
    let plan = plan_permission_profile_for_current_thread(
        &summary(false, false, vec![]),
        NetworkSandboxPolicy::Enabled,
        false,
        false,
        true,
        false,
    );
    let (run, first) = SandboxRun::start(plan);
    assert!(matches!(first, SandboxAction::SetNoNewPrivs));
    let (run, second) = run.advance(Ok(()));
    assert!(matches!(
        second,
        SandboxAction::InstallNetworkSeccomp(NetworkSeccompMode::VmSocketRestricted)
    ));
    let (_, third) = run.advance(Ok(()));
    match third {
        SandboxAction::Finish(Err(CodexErr::UnsupportedOperation(message))) => assert_eq!(
            message,
            "Restricted read-only access is not supported by the legacy Linux Landlock filesystem backend."
        ),
        _ => panic!("expected the restricted-read error"),
    }
}
