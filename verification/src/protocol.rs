//! Filesystem requests that the exec server receives, in their checked form
//! and in their wire form, whose sandbox policy cwd may be absent.

use vstd::prelude::*;

use crate::path_uri::PathUri;

verus! {

/// The sandbox that a filesystem request runs under.
pub struct FileSystemSandboxContext {
    /// The working directory of the sandbox policy.
    pub cwd: PathUri,
}

/// The sandbox context as it arrives on the wire: older clients leave the
/// policy cwd out.
pub struct WireFileSystemSandboxContext {
    pub cwd: Option<PathUri>,
}

/// How a directory walk proceeds.
pub struct WalkOptions {}

/// A request to walk the tree under `path`, as it arrives on the wire.
pub struct WireFsWalkParams {
    pub path: PathUri,
    pub options: WalkOptions,
    pub sandbox: Option<WireFileSystemSandboxContext>,
}

/// A request to remove `path`.
pub struct FsRemoveParams {
    pub path: PathUri,
    pub recursive: Option<bool>,
    pub force: Option<bool>,
    pub follow_symlinks: Option<bool>,
    /// Internal launch capability. Only governed destructive removal may set true.
    pub destructive_capability: bool,
    pub sandbox: Option<FileSystemSandboxContext>,
}

/// A request to remove `path`, as it arrives on the wire.
pub struct WireFsRemoveParams {
    pub path: PathUri,
    pub recursive: Option<bool>,
    pub force: Option<bool>,
    pub follow_symlinks: Option<bool>,
    pub destructive_capability: bool,
    pub sandbox: Option<WireFileSystemSandboxContext>,
}

/// The answer to a removal.
pub struct FsRemoveResponse {}

/// A request to copy `source_path` to `destination_path`.
pub struct FsCopyParams {
    pub source_path: PathUri,
    pub destination_path: PathUri,
    pub recursive: bool,
    pub sandbox: Option<FileSystemSandboxContext>,
}

/// A request to copy, as it arrives on the wire.
pub struct WireFsCopyParams {
    pub source_path: PathUri,
    pub destination_path: PathUri,
    pub recursive: bool,
    pub sandbox: Option<WireFileSystemSandboxContext>,
}

/// The answer to a copy.
pub struct FsCopyResponse {}

/// One root to inspect for plugin and skill capability manifests.
pub struct CapabilityRootDiscoverRequest {
    pub path: PathUri,
    pub sandbox: Option<FileSystemSandboxContext>,
}

/// One root to inspect, as it arrives on the wire.
pub struct WireCapabilityRootDiscoverRequest {
    pub path: PathUri,
    pub sandbox: Option<WireFileSystemSandboxContext>,
}

/// Roots to inspect for plugin and skill capability manifests.
pub struct CapabilityRootsDiscoverParams {
    pub roots: Vec<CapabilityRootDiscoverRequest>,
}

/// Executor ingress for capability roots whose sandbox policy cwd may be absent.
pub struct WireCapabilityRootsDiscoverParams {
    pub roots: Vec<WireCapabilityRootDiscoverRequest>,
}

} // verus!
