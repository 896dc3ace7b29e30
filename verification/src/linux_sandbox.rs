//! What the in-process Linux sandbox installs on the current thread:
//! `no_new_privs`, the network seccomp filter, and Landlock rulesets.  The
//! system calls happen outside; which of them run, in which order and with
//! which access rights stands here.

use landlock::Access;
use landlock::AccessFs;
use landlock::ABI;
use vstd::prelude::*;

use crate::native_path::NativePath;
use crate::path_uri::AbsolutePathBuf;

verus! {

/// Landlock access right "remove an empty directory or rename one".
pub const ACCESS_FS_REMOVE_DIR: u64 = 16u64;

/// Landlock access right "unlink (or rename) a file".
pub const ACCESS_FS_REMOVE_FILE: u64 = 32u64;

/// Landlock access right "link or rename a file from or to another directory".
pub const ACCESS_FS_REFER: u64 = 8192u64;

/// The access rights by which files leave a place: removal and reparenting.
pub open spec fn deletion_rights() -> u64 {
    ACCESS_FS_REMOVE_DIR | ACCESS_FS_REMOVE_FILE | ACCESS_FS_REFER
}

/// Calls `AccessFs::from_all(ABI::V5)` of the `landlock` crate and gives its
/// bits.  Claims the value that the crate's source gives: the sixteen rights
/// from `Execute` (bit 0) to `IoctlDev` (bit 15).
#[verifier::external_body]
fn access_fs_all_v5() -> (bits: u64)
    ensures
        bits == 0xffffu64,
{
    AccessFs::from_all(ABI::V5).bits()
}

/// Calls `AccessFs::from_read(ABI::V5)` of the `landlock` crate and gives its
/// bits.  Claims the value that the crate's source gives: `Execute`,
/// `ReadFile` and `ReadDir`.
#[verifier::external_body]
fn access_fs_read_v5() -> (bits: u64)
    ensures
        bits == 13u64,
{
    AccessFs::from_read(ABI::V5).bits()
}

/// Calls `AccessFs::RemoveDir` of the `landlock` crate and gives its bit,
/// which the crate's source sets to the kernel's 16.
#[verifier::external_body]
fn access_fs_remove_dir() -> (bits: u64)
    ensures
        bits == ACCESS_FS_REMOVE_DIR,
{
    AccessFs::RemoveDir as u64
}

/// Calls `AccessFs::RemoveFile` of the `landlock` crate and gives its bit,
/// which the crate's source sets to the kernel's 32.
#[verifier::external_body]
fn access_fs_remove_file() -> (bits: u64)
    ensures
        bits == ACCESS_FS_REMOVE_FILE,
{
    AccessFs::RemoveFile as u64
}

/// Calls `AccessFs::Refer` of the `landlock` crate and gives its bit, which
/// the crate's source sets to the kernel's 8192.
#[verifier::external_body]
fn access_fs_refer() -> (bits: u64)
    ensures
        bits == ACCESS_FS_REFER,
{
    AccessFs::Refer as u64
}

/// Whether the sandboxed process may use the network.
#[derive(Clone, Copy, Debug)]
pub enum NetworkSandboxPolicy {
    Restricted,
    Enabled,
}

impl NetworkSandboxPolicy {
    pub fn is_enabled(&self) -> (res: bool)
        ensures
            res == (*self is Enabled),
    {
        match self {
            NetworkSandboxPolicy::Enabled => true,
            NetworkSandboxPolicy::Restricted => false,
        }
    }
}

/// The seccomp filter installed for network isolation.
#[derive(Clone, Copy, Debug)]
pub enum NetworkSeccompMode {
    /// No network at all.
    Restricted,
    /// Network only through the managed proxy.
    ProxyRouted,
    /// Ordinary network, without VM sockets (a bridge to host services).
    VmSocketRestricted,
}

/// Whether a network seccomp filter is needed: when the policy keeps the
/// network off, and always for managed-network sessions, which stay fail
/// closed even under a policy that grants full network access.
pub fn should_install_network_seccomp(
    network_sandbox_policy: NetworkSandboxPolicy,
    allow_network_for_proxy: bool,
) -> (res: bool)
    ensures
        res == (!(network_sandbox_policy is Enabled) || allow_network_for_proxy),
{
    !network_sandbox_policy.is_enabled() || allow_network_for_proxy
}

pub open spec fn network_seccomp_mode_spec(
    network_sandbox_policy: NetworkSandboxPolicy,
    allow_network_for_proxy: bool,
    proxy_routed_network: bool,
) -> Option<NetworkSeccompMode> {
    if !(!(network_sandbox_policy is Enabled) || allow_network_for_proxy) {
        None
    } else if proxy_routed_network {
        Some(NetworkSeccompMode::ProxyRouted)
    } else {
        Some(NetworkSeccompMode::Restricted)
    }
}

/// The network filter to install, if any: routed through the proxy when
/// proxy routing is active, fully restricted otherwise.
pub fn network_seccomp_mode(
    network_sandbox_policy: NetworkSandboxPolicy,
    allow_network_for_proxy: bool,
    proxy_routed_network: bool,
) -> (res: Option<NetworkSeccompMode>)
    ensures
        res == network_seccomp_mode_spec(
            network_sandbox_policy,
            allow_network_for_proxy,
            proxy_routed_network,
        ),
        res is Some <==> (!(network_sandbox_policy is Enabled) || allow_network_for_proxy),
        res is Some ==> ((res == Some(NetworkSeccompMode::ProxyRouted)) <==> proxy_routed_network),
        res is Some && !proxy_routed_network ==> res == Some(NetworkSeccompMode::Restricted),
{
    if !should_install_network_seccomp(network_sandbox_policy, allow_network_for_proxy) {
        None
    } else if proxy_routed_network {
        Some(NetworkSeccompMode::ProxyRouted)
    } else {
        Some(NetworkSeccompMode::Restricted)
    }
}

/// Errors of the sandbox set-up.
pub enum SandboxErr {
    /// The kernel did not enforce the Landlock ruleset.
    LandlockRestrict,
    /// The Landlock ruleset could not be built or applied, with the message.
    LandlockRuleset(String),
}

/// Errors of the sandbox set-up, as the caller sees them.
pub enum CodexErr {
    UnsupportedOperation(String),
    Sandbox(SandboxErr),
    /// A failed system call, with its message.
    Io(String),
}

/// The kernel's report on a Landlock ruleset once it restricts the thread.
#[derive(Clone, Copy, Debug)]
pub enum RulesetStatus {
    FullyEnforced,
    PartiallyEnforced,
    NotEnforced,
}

/// A ruleset that is not enforced at all is an error; a partly enforced one
/// (best effort) is accepted.
pub fn landlock_restriction_result(status: RulesetStatus) -> (res: Result<(), CodexErr>)
    ensures
        status is NotEnforced ==> (res matches Err(CodexErr::Sandbox(
            SandboxErr::LandlockRestrict,
        ))),
        !(status is NotEnforced) ==> res is Ok,
{
    match status {
        RulesetStatus::NotEnforced => Err(CodexErr::Sandbox(SandboxErr::LandlockRestrict)),
        _ => Ok(()),
    }
}

/// The result of installing a Landlock ruleset, from what the kernel
/// reported (its status, or the message of the failure to build or apply the
/// ruleset): every failure is a sandbox error, and so is a ruleset that is
/// not enforced at all; a fully or partly enforced one is accepted.
pub fn landlock_install_result(outcome: Result<RulesetStatus, String>) -> (res: Result<(), CodexErr>)
    ensures
        outcome matches Err(m) ==> (res matches Err(CodexErr::Sandbox(SandboxErr::LandlockRuleset(e)))
            && e@ == m@),
        outcome matches Ok(RulesetStatus::NotEnforced) ==> (res matches Err(CodexErr::Sandbox(
            SandboxErr::LandlockRestrict,
        ))),
        outcome matches Ok(status) && !(status is NotEnforced) ==> res is Ok,
{
    match outcome {
        Err(message) => Err(CodexErr::Sandbox(SandboxErr::LandlockRuleset(message))),
        Ok(status) => landlock_restriction_result(status),
    }
}

/// One Landlock rule: `access` under the directory tree at `path`.
pub struct LandlockRule {
    pub path: NativePath,
    pub access: u64,
}

/// A Landlock ruleset, handled with best-effort compatibility and with
/// `no_new_privs` set when it restricts the thread.
pub struct LandlockRuleset {
    pub handled_access: u64,
    pub rules: Vec<LandlockRule>,
}

/// The ruleset that denies removal and rename effects, leaving reading,
/// writing and creation alone: it handles exactly the deletion rights and
/// grants them nowhere.
pub fn delete_deny_landlock_ruleset() -> (res: LandlockRuleset)
    ensures
        res.handled_access == deletion_rights(),
        res.rules@.len() == 0,
{
    let handled_access: u64 = access_fs_remove_dir() | access_fs_remove_file() | access_fs_refer();
    LandlockRuleset { handled_access, rules: Vec::new() }
}

/// The write access that workspace-write grants: every right of ABI v5 but
/// the deletion rights.
pub open spec fn workspace_write_access() -> u64 {
    0xffffu64 & !deletion_rights()
}

/// The read access granted on the whole filesystem.
pub open spec fn read_only_access() -> u64 {
    13u64
}

pub open spec fn root_path_bytes() -> Seq<u8> {
    seq![47u8]
}

pub open spec fn dev_null_bytes() -> Seq<u8> {
    seq![47u8, 100u8, 101u8, 118u8, 47u8, 110u8, 117u8, 108u8, 108u8]
}

/// Every filesystem right of ABI v5.
pub open spec fn all_access() -> u64 {
    0xffffu64
}

/// `ruleset` is the legacy filesystem ruleset for `writable_roots`: it
/// handles every right, so that what no rule grants is denied; its first
/// rule grants read access under `/`, its second workspace-write access to
/// `/dev/null`, and then one rule per writable root, in order, grants
/// workspace-write access under it.
pub open spec fn is_filesystem_ruleset_for(
    ruleset: LandlockRuleset,
    writable_roots: Seq<AbsolutePathBuf>,
) -> bool {
    &&& ruleset.handled_access == all_access()
    &&& ruleset.rules@.len() == writable_roots.len() + 2
    &&& ruleset.rules@[0].path@ == crate::native_path::path_components(root_path_bytes())
    &&& ruleset.rules@[0].access == read_only_access()
    &&& ruleset.rules@[1].path@ == crate::native_path::path_components(dev_null_bytes())
    &&& ruleset.rules@[1].access == workspace_write_access()
    &&& forall|i: int|
        0 <= i < writable_roots.len() ==> {
            &&& (#[trigger] ruleset.rules@[i + 2]).path@ == writable_roots[i]@
            &&& ruleset.rules@[i + 2].access == workspace_write_access()
        }
}

/// The legacy Landlock filesystem ruleset: read access to the whole
/// filesystem, write access to `/dev/null` and to each writable root, in
/// that order.  Every right is handled, so writing is denied elsewhere; and
/// since write access never includes the deletion rights, removing or
/// renaming is denied everywhere, the writable roots included.
pub fn filesystem_landlock_ruleset(writable_roots: &Vec<AbsolutePathBuf>) -> (res: LandlockRuleset)
    ensures
        is_filesystem_ruleset_for(res, writable_roots@),
{
    let all: u64 = access_fs_all_v5();
    let deletion: u64 = access_fs_remove_dir() | access_fs_remove_file() | access_fs_refer();
    let access_rw: u64 = all & !deletion;
    let access_ro: u64 = access_fs_read_v5();
    let root_bytes: Vec<u8> = vec![47u8];
    let dev_null: Vec<u8> = vec![47u8, 100u8, 101u8, 118u8, 47u8, 110u8, 117u8, 108u8, 108u8];
    assert(root_bytes@ =~= root_path_bytes());
    assert(dev_null@ =~= dev_null_bytes());
    let mut rules: Vec<LandlockRule> = Vec::new();
    rules.push(LandlockRule { path: NativePath::from_bytes(root_bytes.as_slice()), access: access_ro });
    rules.push(LandlockRule { path: NativePath::from_bytes(dev_null.as_slice()), access: access_rw });
    let n: usize = writable_roots.len();
    let mut i: usize = 0;
    while i < n
        invariant
            n == writable_roots@.len(),
            i <= n,
            rules@.len() == i + 2,
            rules@[0].path@ == crate::native_path::path_components(root_path_bytes()),
            rules@[0].access == read_only_access(),
            rules@[1].path@ == crate::native_path::path_components(dev_null_bytes()),
            rules@[1].access == workspace_write_access(),
            access_rw == workspace_write_access(),
            all == all_access(),
            forall|j: int|
                0 <= j < i ==> {
                    &&& (#[trigger] rules@[j + 2]).path@ == writable_roots@[j]@
                    &&& rules@[j + 2].access == workspace_write_access()
                },
        decreases n - i,
    {
        let root = writable_roots[i].as_native_path().duplicate();
        rules.push(LandlockRule { path: root, access: access_rw });
        i = i + 1;
    }
    LandlockRuleset { handled_access: all, rules }
}

/// What the thread's sandbox set-up reads of the filesystem policy: whether
/// it grants writing and reading everywhere, and its writable roots resolved
/// against the working directory.
pub struct FileSystemSandboxSummary {
    pub full_disk_write_access: bool,
    pub full_disk_read_access: bool,
    pub writable_roots: Vec<AbsolutePathBuf>,
}

/// The Landlock filesystem step of the set-up.
pub enum FilesystemLandlockStep {
    /// No legacy Landlock filesystem rules.
    Skip,
    /// Fail with `UnsupportedOperation`: the legacy backend cannot restrict reads.
    RejectRestrictedRead,
    /// Install this ruleset.
    Install(LandlockRuleset),
}

/// The set-up of the current thread, in the order it runs: set
/// `no_new_privs`, install the network seccomp filter, install the
/// delete-deny ruleset, then the filesystem step.  The first failure stops it.
pub struct ThreadSandboxPlan {
    pub set_no_new_privs: bool,
    pub network_seccomp: Option<NetworkSeccompMode>,
    pub deny_destructive_filesystem: bool,
    pub filesystem: FilesystemLandlockStep,
}

/// The message of the filesystem step that rejects restricted reads.
pub open spec fn restricted_read_message() -> Seq<char> {
    "Restricted read-only access is not supported by the legacy Linux Landlock filesystem backend."@
}

pub fn restricted_read_error() -> (res: CodexErr)
    ensures
        res matches CodexErr::UnsupportedOperation(m) && m@ == restricted_read_message(),
{
    CodexErr::UnsupportedOperation(
        String::from_str(
            "Restricted read-only access is not supported by the legacy Linux Landlock filesystem backend.",
        ),
    )
}

/// The network filter of the set-up: the one the network policy asks for,
/// or else, when the filesystem policy does not grant writing everywhere, the
/// one that only shuts VM sockets.
pub open spec fn planned_network_seccomp(
    full_disk_write_access: bool,
    network_sandbox_policy: NetworkSandboxPolicy,
    managed_network: bool,
    proxy_routing_active: bool,
) -> Option<NetworkSeccompMode> {
    match network_seccomp_mode_spec(network_sandbox_policy, managed_network, proxy_routing_active) {
        Some(m) => Some(m),
        None => if !full_disk_write_access {
            Some(NetworkSeccompMode::VmSocketRestricted)
        } else {
            None
        },
    }
}

/// Plans the sandbox of the current thread from the permission profile (its
/// filesystem policy summary and network policy), whether a managed network
/// is present, whether proxy routing is active, whether the legacy Landlock
/// filesystem backend applies, and whether destructive filesystem effects
/// are denied.
///
/// `no_new_privs` is set exactly when something needs it (a seccomp filter,
/// the delete-deny ruleset, or the legacy filesystem ruleset), since it also
/// stops setuid helpers.
pub fn plan_permission_profile_for_current_thread(
    file_system_policy: &FileSystemSandboxSummary,
    network_sandbox_policy: NetworkSandboxPolicy,
    managed_network: bool,
    proxy_routing_active: bool,
    apply_landlock_fs: bool,
    deny_destructive_filesystem: bool,
) -> (res: ThreadSandboxPlan)
    ensures
        res.network_seccomp == planned_network_seccomp(
            file_system_policy.full_disk_write_access,
            network_sandbox_policy,
            managed_network,
            proxy_routing_active,
        ),
        res.set_no_new_privs == (res.network_seccomp is Some || deny_destructive_filesystem || (
        apply_landlock_fs && !file_system_policy.full_disk_write_access)),
        res.deny_destructive_filesystem == deny_destructive_filesystem,
        !(apply_landlock_fs && !file_system_policy.full_disk_write_access) ==> res.filesystem is Skip,
        apply_landlock_fs && !file_system_policy.full_disk_write_access
            && !file_system_policy.full_disk_read_access ==> res.filesystem is RejectRestrictedRead,
        apply_landlock_fs && !file_system_policy.full_disk_write_access
            && file_system_policy.full_disk_read_access ==> (res.filesystem matches FilesystemLandlockStep::Install(
            ruleset,
        ) && is_filesystem_ruleset_for(ruleset, file_system_policy.writable_roots@)),
        managed_network ==> res.network_seccomp is Some,
        res.network_seccomp is Some ==> res.set_no_new_privs,
        res.filesystem is Install ==> res.set_no_new_privs,
        deny_destructive_filesystem ==> res.set_no_new_privs,
{
    let full_write = file_system_policy.full_disk_write_access;
    let network_seccomp = match network_seccomp_mode(
        network_sandbox_policy,
        managed_network,
        proxy_routing_active,
    ) {
        Some(m) => Some(m),
        None => if !full_write {
            Some(NetworkSeccompMode::VmSocketRestricted)
        } else {
            None
        },
    };
    let legacy_fs = apply_landlock_fs && !full_write;
    let set_no_new_privs = network_seccomp.is_some() || deny_destructive_filesystem || legacy_fs;
    let filesystem = if legacy_fs {
        if !file_system_policy.full_disk_read_access {
            FilesystemLandlockStep::RejectRestrictedRead
        } else {
            FilesystemLandlockStep::Install(
                filesystem_landlock_ruleset(&file_system_policy.writable_roots),
            )
        }
    } else {
        FilesystemLandlockStep::Skip
    };
    ThreadSandboxPlan {
        set_no_new_privs,
        network_seccomp,
        deny_destructive_filesystem,
        filesystem,
    }
}

/// One step of the thread's sandbox set-up, for the caller to perform and
/// report on; `Finish` ends the set-up with its result.
pub enum SandboxAction {
    SetNoNewPrivs,
    InstallNetworkSeccomp(NetworkSeccompMode),
    InstallLandlock(LandlockRuleset),
    Finish(Result<(), CodexErr>),
}

/// What a step of the set-up is, as the plan decides it.
pub enum ActionView {
    SetNoNewPrivs,
    InstallNetworkSeccomp(NetworkSeccompMode),
    /// Install the delete-deny ruleset.
    InstallDeleteDenyLandlock,
    /// Install the legacy filesystem ruleset.
    InstallFilesystemLandlock(LandlockRuleset),
    /// End the set-up successfully.
    FinishOk,
    /// End the set-up with the error that rejects restricted reads.
    RejectRestrictedRead,
}

/// The action `a` is the step `v`.
pub open spec fn action_is(a: SandboxAction, v: ActionView) -> bool {
    match v {
        ActionView::SetNoNewPrivs => a is SetNoNewPrivs,
        ActionView::InstallNetworkSeccomp(m) => a == SandboxAction::InstallNetworkSeccomp(m),
        ActionView::InstallDeleteDenyLandlock => a matches SandboxAction::InstallLandlock(r)
            && r.handled_access == deletion_rights() && r.rules@.len() == 0,
        ActionView::InstallFilesystemLandlock(r) => a == SandboxAction::InstallLandlock(r),
        ActionView::FinishOk => a == SandboxAction::Finish(Ok(())),
        ActionView::RejectRestrictedRead => a matches SandboxAction::Finish(
            Err(CodexErr::UnsupportedOperation(m)),
        ) && m@ == restricted_read_message(),
    }
}

/// The steps of a plan, in the order they run: `no_new_privs`, the network
/// filter, the delete-deny ruleset, the filesystem ruleset, each only where
/// the plan asks for it, then the end (an error where the plan rejects
/// restricted reads).
pub open spec fn planned_actions(plan: ThreadSandboxPlan) -> Seq<ActionView> {
    (if plan.set_no_new_privs {
        seq![ActionView::SetNoNewPrivs]
    } else {
        Seq::<ActionView>::empty()
    }) + (match plan.network_seccomp {
        Some(m) => seq![ActionView::InstallNetworkSeccomp(m)],
        None => Seq::<ActionView>::empty(),
    }) + (if plan.deny_destructive_filesystem {
        seq![ActionView::InstallDeleteDenyLandlock]
    } else {
        Seq::<ActionView>::empty()
    }) + (match plan.filesystem {
        FilesystemLandlockStep::Skip => seq![ActionView::FinishOk],
        FilesystemLandlockStep::RejectRestrictedRead => seq![ActionView::RejectRestrictedRead],
        FilesystemLandlockStep::Install(r) => seq![
            ActionView::InstallFilesystemLandlock(r),
            ActionView::FinishOk,
        ],
    })
}

/// `first` and then `rest` are the steps `views`, in order.
pub open spec fn actions_follow(
    first: SandboxAction,
    rest: Seq<SandboxAction>,
    views: Seq<ActionView>,
) -> bool {
    &&& views.len() == rest.len() + 1
    &&& action_is(first, views[0])
    &&& forall|i: int| 0 <= i < rest.len() ==> action_is(#[trigger] rest[i], views[i + 1])
}

/// The actions end with one `Finish`, and only there.
pub open spec fn ends_with_finish(actions: Seq<SandboxAction>) -> bool {
    &&& actions.len() > 0
    &&& actions.last() is Finish
    &&& forall|i: int| 0 <= i < actions.len() - 1 ==> !(#[trigger] actions[i] is Finish)
}

/// The set-up of the current thread as it runs: the steps still to come.
pub struct SandboxRun {
    actions: Vec<SandboxAction>,
}

impl SandboxRun {
    /// The steps that come after the one last handed out.
    pub closed spec fn remaining(&self) -> Seq<SandboxAction> {
        self.actions@
    }

    pub open spec fn well_formed(&self) -> bool {
        ends_with_finish(self.remaining())
    }

    /// Starts the set-up of `plan`: gives its first step, and the run that
    /// holds the others, in the order of the plan.
    pub fn start(plan: ThreadSandboxPlan) -> (res: (SandboxRun, SandboxAction))
        ensures
            actions_follow(res.1, res.0.remaining(), planned_actions(plan)),
            res.1 is Finish <==> res.0.remaining().len() == 0,
            !(res.1 is Finish) ==> res.0.well_formed(),
            plan.set_no_new_privs ==> res.1 is SetNoNewPrivs,
            plan.deny_destructive_filesystem ==> ((res.1 matches SandboxAction::InstallLandlock(r)
                && r.handled_access == deletion_rights() && r.rules@.len() == 0) || (exists|i: int|
                0 <= i < res.0.remaining().len() - 1 && ((#[trigger] res.0.remaining()[i]) matches SandboxAction::InstallLandlock(
                    r,
                ) && r.handled_access == deletion_rights() && r.rules@.len() == 0))),
    {
        let ghost whole = plan;
        let ThreadSandboxPlan {
            set_no_new_privs,
            network_seccomp,
            deny_destructive_filesystem,
            filesystem,
        } = plan;
        let mut actions: Vec<SandboxAction> = Vec::new();
        let ghost mut views: Seq<ActionView> = Seq::empty();
        if set_no_new_privs {
            actions.push(SandboxAction::SetNoNewPrivs);
            proof {
                views = views.push(ActionView::SetNoNewPrivs);
            }
        }
        let ghost head1 = views;
        match network_seccomp {
            Some(m) => {
                actions.push(SandboxAction::InstallNetworkSeccomp(m));
                proof {
                    views = views.push(ActionView::InstallNetworkSeccomp(m));
                }
            },
            None => {},
        }
        let ghost head2 = views;
        if deny_destructive_filesystem {
            actions.push(SandboxAction::InstallLandlock(delete_deny_landlock_ruleset()));
            proof {
                views = views.push(ActionView::InstallDeleteDenyLandlock);
            }
        }
        let ghost head3 = views;
        let ghost deny_at: int = head2.len() as int;
        let ghost n_head = actions@.len();
        assert(forall|i: int| 0 <= i < n_head ==> !(#[trigger] actions@[i] is Finish));
        assert(actions@.len() == views.len());
        assert(forall|i: int| 0 <= i < n_head ==> action_is(#[trigger] actions@[i], views[i]));
        match filesystem {
            FilesystemLandlockStep::Skip => {
                actions.push(SandboxAction::Finish(Ok(())));
                proof {
                    views = views.push(ActionView::FinishOk);
                }
            },
            FilesystemLandlockStep::RejectRestrictedRead => {
                actions.push(SandboxAction::Finish(Err(restricted_read_error())));
                proof {
                    views = views.push(ActionView::RejectRestrictedRead);
                }
            },
            FilesystemLandlockStep::Install(r) => {
                let ghost rv = r;
                actions.push(SandboxAction::InstallLandlock(r));
                actions.push(SandboxAction::Finish(Ok(())));
                proof {
                    views = views.push(ActionView::InstallFilesystemLandlock(rv)).push(
                        ActionView::FinishOk,
                    );
                }
            },
        }
        assert(views =~= planned_actions(whole));
        assert(actions@.len() == views.len());
        assert(forall|i: int| 0 <= i < actions@.len() ==> action_is(#[trigger] actions@[i], views[i]));
        assert(ends_with_finish(actions@));
        let ghost all = actions@;
        proof {
            if deny_destructive_filesystem {
                assert(views[deny_at] == ActionView::InstallDeleteDenyLandlock);
                assert(action_is(all[deny_at], views[deny_at]));
                assert(deny_at < all.len() - 1);
            }
            if set_no_new_privs {
                assert(views[0] == ActionView::SetNoNewPrivs);
                assert(action_is(all[0], views[0]));
            }
        }
        let first = actions.remove(0);
        proof {
            if deny_destructive_filesystem && deny_at > 0 {
                assert(actions@[deny_at - 1] == all[deny_at]);
            }
        }
        assert forall|i: int| 0 <= i < actions@.len() implies action_is(
            #[trigger] actions@[i],
            views[i + 1],
        ) by {
            assert(actions@[i] == all[i + 1]);
        }
        assert forall|i: int| 0 <= i < actions@.len() - 1 implies !(
        #[trigger] actions@[i] is Finish) by {
            assert(actions@[i] == all[i + 1]);
        }
        if actions.len() > 0 {
            assert(actions@.last() == all.last());
        }
        (SandboxRun { actions }, first)
    }

    /// Takes the result of the step last handed out and gives the next step:
    /// a failure ends the set-up with that failure, and no step after it
    /// runs; a success hands out the next step of the plan.
    pub fn advance(self, result: Result<(), CodexErr>) -> (res: (SandboxRun, SandboxAction))
        requires
            self.well_formed(),
        ensures
            result is Err ==> res.1 == SandboxAction::Finish(result) && res.0.remaining().len() == 0,
            result is Ok ==> res.1 == self.remaining()[0] && res.0.remaining()
                == self.remaining().drop_first(),
            res.1 is Finish <==> res.0.remaining().len() == 0,
            !(res.1 is Finish) ==> res.0.well_formed(),
    {
        let SandboxRun { mut actions } = self;
        match result {
            Err(e) => (SandboxRun { actions: Vec::new() }, SandboxAction::Finish(Err(e))),
            Ok(()) => {
                let ghost all = actions@;
                let next = actions.remove(0);
                assert(actions@ =~= all.drop_first());
                assert forall|i: int| 0 <= i < actions@.len() - 1 implies !(
                #[trigger] actions@[i] is Finish) by {
                    assert(actions@[i] == all[i + 1]);
                }
                if actions.len() > 0 {
                    assert(actions@.last() == all.last());
                    assert(!(all[0] is Finish));
                } else {
                    assert(all.len() == 1);
                    assert(all[0] == all.last());
                }
                (SandboxRun { actions }, next)
            },
        }
    }
}

/// A network filter is installed exactly when the network policy keeps the
/// network off or a managed network is present; it routes through the proxy
/// exactly when proxy routing is active, and shuts the network otherwise.
pub proof fn network_filter_follows_proxy_routing(
    network_sandbox_policy: NetworkSandboxPolicy,
    allow_network_for_proxy: bool,
    proxy_routed_network: bool,
)
    ensures
        network_seccomp_mode_spec(network_sandbox_policy, allow_network_for_proxy, proxy_routed_network)
            is Some <==> (!(network_sandbox_policy is Enabled) || allow_network_for_proxy),
        network_seccomp_mode_spec(network_sandbox_policy, allow_network_for_proxy, proxy_routed_network)
            is Some ==> ((network_seccomp_mode_spec(
            network_sandbox_policy,
            allow_network_for_proxy,
            proxy_routed_network,
        ) == Some(NetworkSeccompMode::ProxyRouted)) <==> proxy_routed_network),
        network_seccomp_mode_spec(network_sandbox_policy, allow_network_for_proxy, proxy_routed_network)
            is Some && !proxy_routed_network ==> network_seccomp_mode_spec(
            network_sandbox_policy,
            allow_network_for_proxy,
            proxy_routed_network,
        ) == Some(NetworkSeccompMode::Restricted),
{
}

/// When a plan denies destructive filesystem effects, whatever its
/// filesystem step, its set-up installs the delete-deny ruleset before it
/// ends, and after `no_new_privs` when the plan sets that.
pub proof fn delete_deny_is_installed_when_asked(plan: ThreadSandboxPlan)
    requires
        plan.deny_destructive_filesystem,
    ensures
        exists|i: int|
            0 <= i < planned_actions(plan).len() - 1 && #[trigger] planned_actions(plan)[i]
                == ActionView::InstallDeleteDenyLandlock && (plan.set_no_new_privs ==> 0 < i),
        plan.set_no_new_privs ==> planned_actions(plan)[0] == ActionView::SetNoNewPrivs,
{
    let a = if plan.set_no_new_privs {
        seq![ActionView::SetNoNewPrivs]
    } else {
        Seq::<ActionView>::empty()
    };
    let b = match plan.network_seccomp {
        Some(m) => seq![ActionView::InstallNetworkSeccomp(m)],
        None => Seq::<ActionView>::empty(),
    };
    let i = a.len() + b.len();
    assert(planned_actions(plan)[i as int] == ActionView::InstallDeleteDenyLandlock);
}

/// Workspace-write access never includes a deletion right, and together
/// with the deletion rights it makes up every filesystem right of ABI v5;
/// it includes the read access.
pub proof fn workspace_write_excludes_deletion()
    ensures
        workspace_write_access() & deletion_rights() == 0,
        workspace_write_access() | deletion_rights() == all_access(),
        workspace_write_access() & read_only_access() == read_only_access(),
        read_only_access() & deletion_rights() == 0,
{
    assert(workspace_write_access() & deletion_rights() == 0) by (bit_vector);
    assert(workspace_write_access() | deletion_rights() == 0xffffu64) by (bit_vector);
    assert(workspace_write_access() & read_only_access() == read_only_access()) by (bit_vector);
    assert(read_only_access() & deletion_rights() == 0) by (bit_vector);
}

/// The legacy filesystem ruleset handles the deletion rights and no rule of
/// it grants any of them: removing and renaming are denied everywhere.
pub proof fn filesystem_ruleset_denies_deletion(
    ruleset: LandlockRuleset,
    writable_roots: Seq<AbsolutePathBuf>,
)
    requires
        is_filesystem_ruleset_for(ruleset, writable_roots),
    ensures
        ruleset.handled_access & deletion_rights() == deletion_rights(),
        forall|i: int|
            0 <= i < ruleset.rules@.len() ==> #[trigger] ruleset.rules@[i].access
                & deletion_rights() == 0,
{
    workspace_write_excludes_deletion();
    assert(all_access() & deletion_rights() == deletion_rights()) by (bit_vector);
    assert forall|i: int| 0 <= i < ruleset.rules@.len() implies #[trigger] ruleset.rules@[i].access
        & deletion_rights() == 0 by {
        if i >= 2 {
            assert(ruleset.rules@[(i - 2) + 2] == ruleset.rules@[i]);
        }
    }
}

} // verus!
