//! The check that a filesystem mutation stays inside `CODEX_HOME/attachments`.
//!
//! The check alternates filesystem queries and decisions, so it is a state
//! machine: each step names the query to run next (`canonicalize` or
//! `symlink_metadata` of a path) or the final answer, and is fed back the
//! query's result.  The spec functions below say what answer the machine
//! reaches against any filesystem that answers every query consistently.

use vstd::prelude::*;

use crate::native_path::{
    cur_dir_component, has_dot_dot, has_parent, is_component_prefix, is_plain_name,
    parent_dir_component, path_components,
    root_component, wf_components, NativePath, SEPARATOR,
};
use crate::rpc_error::{
    fs_invalid_request, fs_invalid_request_with, fs_message, invalid_request,
    invalid_request_view, JSONRPCErrorError,
};

verus! {

/// The bytes of `attachments`, the directory under `CODEX_HOME` that
/// mutations are confined to.
pub open spec fn attachments_dir_name() -> Seq<u8> {
    seq![97u8, 116u8, 116u8, 97u8, 99u8, 104u8, 109u8, 101u8, 110u8, 116u8, 115u8]
}

fn attachments_dir_bytes() -> (res: Vec<u8>)
    ensures
        res@ == attachments_dir_name(),
{
    let v: Vec<u8> = vec![97u8, 116u8, 116u8, 97u8, 99u8, 104u8, 109u8, 101u8, 110u8, 116u8, 115u8];
    assert(v@ =~= attachments_dir_name());
    v
}

/// The type of a filesystem entry, as `symlink_metadata` reports it.
#[derive(Clone, Copy, Debug)]
pub enum EntryKind {
    Directory,
    File,
    Symlink,
    Other,
}

/// The result of `symlink_metadata` on a path.
#[derive(Debug)]
pub enum MetadataObservation {
    Found(EntryKind),
    NotFound,
    Failed(String),
}

/// The answer to a query of the check.
#[derive(Debug)]
pub enum FsAnswer {
    /// The canonical path's bytes, or the failure's message.
    Canonical(Result<Vec<u8>, String>),
    Metadata(MetadataObservation),
}

/// A query that the check asks the filesystem.
#[derive(Debug)]
pub enum FsQuery {
    Canonicalize(NativePath),
    SymlinkMetadata(NativePath),
}

/// What the check asks for next.
#[derive(Debug)]
pub enum ValidationStep {
    Query(FsQuery),
    Finished(Result<NativePath, JSONRPCErrorError>),
}

// ---------------------------------------------------------------------------
// The filesystem model and the result the check reaches against it.
// ---------------------------------------------------------------------------
/// `symlink_metadata` as the model answers it.
pub enum MetadataView {
    Found(EntryKind),
    NotFound,
    Failed(Seq<char>),
}

/// A filesystem that answers every query of one check the same way.
pub struct FsModel {
    pub canonicalize: spec_fn(Seq<Seq<u8>>) -> Result<Seq<u8>, Seq<char>>,
    pub metadata: spec_fn(Seq<Seq<u8>>) -> MetadataView,
}

pub enum QueryView {
    Canonicalize(Seq<Seq<u8>>),
    SymlinkMetadata(Seq<Seq<u8>>),
}

pub enum AnswerView {
    Canonical(Result<Seq<u8>, Seq<char>>),
    Metadata(MetadataView),
}

pub type OutcomeView = Result<Seq<Seq<u8>>, (i64, Seq<char>)>;

pub open spec fn is_symlink(m: MetadataView) -> bool {
    m matches MetadataView::Found(EntryKind::Symlink)
}

/// The answer has the kind that the query asks for.
pub open spec fn query_accepts(query: QueryView, answer: AnswerView) -> bool {
    match query {
        QueryView::Canonicalize(_) => answer is Canonical,
        QueryView::SymlinkMetadata(_) => answer is Metadata,
    }
}

/// The model gives `answer` to `query`.
pub open spec fn answers(fs: FsModel, query: QueryView, answer: AnswerView) -> bool {
    match query {
        QueryView::Canonicalize(p) => answer == AnswerView::Canonical((fs.canonicalize)(p)),
        QueryView::SymlinkMetadata(p) => answer == AnswerView::Metadata((fs.metadata)(p)),
    }
}

pub open spec fn attachments_root_of(home: Seq<Seq<u8>>) -> Seq<Seq<u8>> {
    home.push(attachments_dir_name())
}

pub open spec fn refusal(operation: Seq<char>, tail: Seq<char>) -> OutcomeView {
    Err(invalid_request_view(fs_message(operation, tail)))
}

pub open spec fn refusal_with(operation: Seq<char>, tail: Seq<char>, detail: Seq<char>) -> OutcomeView {
    Err(invalid_request_view(fs_message(operation, tail) + detail))
}

/// The final comparison: the resolved path (canonical target, or canonical
/// nearest existing parent) must lie under the canonical attachments root.
pub open spec fn containment_outcome(
    fs: FsModel,
    root: Seq<Seq<u8>>,
    resolved: Seq<Seq<u8>>,
    path: Seq<Seq<u8>>,
    op: Seq<char>,
    is_target: bool,
) -> OutcomeView {
    match (fs.canonicalize)(root) {
        Err(e) => refusal_with(op, " cannot establish canonical attachments root: "@, e),
        Ok(a) => if is_component_prefix(path_components(a), resolved) {
            Ok(path)
        } else if is_target {
            refusal(op, " target resolves outside CODEX_HOME/attachments"@)
        } else {
            refusal(op, " parent resolves outside CODEX_HOME/attachments"@)
        },
    }
}

/// The target exists and is no symlink: its canonical form is compared.
pub open spec fn target_canonical_outcome(
    fs: FsModel,
    root: Seq<Seq<u8>>,
    path: Seq<Seq<u8>>,
    op: Seq<char>,
) -> OutcomeView {
    match (fs.canonicalize)(path) {
        Err(e) => refusal_with(op, " cannot canonicalize target: "@, e),
        Ok(t) => containment_outcome(fs, root, path_components(t), path, op, true),
    }
}

/// The nearest existing parent, `path.take(depth)`, is compared.
pub open spec fn parent_canonical_outcome(
    fs: FsModel,
    root: Seq<Seq<u8>>,
    path: Seq<Seq<u8>>,
    op: Seq<char>,
    depth: int,
) -> OutcomeView {
    match (fs.canonicalize)(path.take(depth)) {
        Err(e) => refusal_with(op, " cannot canonicalize existing parent: "@, e),
        Ok(p) => containment_outcome(fs, root, path_components(p), path, op, false),
    }
}

/// The target does not exist: its ancestors `path.take(depth)`,
/// `path.take(depth - 1)`, ... are looked at until one exists.
pub open spec fn parent_search_outcome(
    fs: FsModel,
    root: Seq<Seq<u8>>,
    path: Seq<Seq<u8>>,
    op: Seq<char>,
    depth: int,
) -> OutcomeView
    decreases depth,
{
    if depth < 0 || depth > path.len() {
        refusal(op, " cannot find an existing parent"@)
    } else {
        match (fs.metadata)(path.take(depth)) {
            MetadataView::Found(EntryKind::Symlink) => refusal(
                op,
                " rejects symlink/reparse-point ancestors"@,
            ),
            MetadataView::Found(_) => parent_canonical_outcome(fs, root, path, op, depth),
            MetadataView::NotFound => if has_parent(path.take(depth)) {
                parent_search_outcome(fs, root, path, op, depth - 1)
            } else {
                refusal(op, " cannot find an existing parent"@)
            },
            MetadataView::Failed(e) => refusal_with(op, " cannot inspect existing parent: "@, e),
        }
    }
}

/// The target itself is looked at.
pub open spec fn target_outcome(
    fs: FsModel,
    root: Seq<Seq<u8>>,
    path: Seq<Seq<u8>>,
    op: Seq<char>,
) -> OutcomeView {
    match (fs.metadata)(path) {
        MetadataView::Found(EntryKind::Symlink) => refusal(
            op,
            " rejects symlink/reparse-point targets"@,
        ),
        MetadataView::Found(_) => target_canonical_outcome(fs, root, path, op),
        MetadataView::NotFound => if has_parent(path) {
            parent_search_outcome(fs, root, path, op, path.len() - 1)
        } else {
            refusal(op, " target has no parent"@)
        },
        MetadataView::Failed(e) => refusal_with(op, " cannot inspect target: "@, e),
    }
}

/// The ancestors of the target below the canonical home, from
/// `path.take(depth)` upwards, must not be symlinks.
pub open spec fn ancestor_outcome(
    fs: FsModel,
    home_len: int,
    root: Seq<Seq<u8>>,
    path: Seq<Seq<u8>>,
    op: Seq<char>,
    depth: int,
) -> OutcomeView
    decreases depth,
{
    if depth <= home_len || depth <= 0 || depth > path.len() {
        target_outcome(fs, root, path, op)
    } else {
        match (fs.metadata)(path.take(depth)) {
            MetadataView::Found(EntryKind::Symlink) => refusal(
                op,
                " rejects symlink/reparse-point ancestors"@,
            ),
            MetadataView::Failed(e) => refusal_with(op, " cannot inspect mutation path: "@, e),
            _ => if has_parent(path.take(depth)) {
                ancestor_outcome(fs, home_len, root, path, op, depth - 1)
            } else {
                target_outcome(fs, root, path, op)
            },
        }
    }
}

/// The check once the canonical home is known.
pub open spec fn outcome_under_home(
    fs: FsModel,
    home: Seq<Seq<u8>>,
    path: Seq<Seq<u8>>,
    op: Seq<char>,
) -> OutcomeView {
    let root = attachments_root_of(home);
    if path == root || !is_component_prefix(root, path) || has_dot_dot(path) {
        refusal(op, " is restricted to CODEX_HOME/attachments"@)
    } else if has_parent(path) {
        ancestor_outcome(fs, home.len() as int, root, path, op, path.len() - 1)
    } else {
        target_outcome(fs, root, path, op)
    }
}

/// What the whole check answers for `path`, with `codex_home` as the home
/// directory, against the filesystem `fs`.
pub open spec fn validate_attachment_mutation_spec(
    fs: FsModel,
    codex_home: Seq<Seq<u8>>,
    path: Seq<Seq<u8>>,
    op: Seq<char>,
) -> OutcomeView {
    match (fs.canonicalize)(codex_home) {
        Err(e) => refusal_with(op, " cannot establish canonical CODEX_HOME: "@, e),
        Ok(h) => outcome_under_home(fs, path_components(h), path, op),
    }
}

pub open spec fn outcome_of(r: Result<NativePath, JSONRPCErrorError>) -> OutcomeView {
    match r {
        Ok(p) => Ok(p@),
        Err(e) => Err(e@),
    }
}

impl MetadataObservation {
    pub open spec fn view_of(&self) -> MetadataView {
        match self {
            MetadataObservation::Found(k) => MetadataView::Found(*k),
            MetadataObservation::NotFound => MetadataView::NotFound,
            MetadataObservation::Failed(e) => MetadataView::Failed(e@),
        }
    }
}

impl FsAnswer {
    pub open spec fn view_of(&self) -> AnswerView {
        match self {
            FsAnswer::Canonical(Ok(b)) => AnswerView::Canonical(Ok(b@)),
            FsAnswer::Canonical(Err(e)) => AnswerView::Canonical(Err(e@)),
            FsAnswer::Metadata(m) => AnswerView::Metadata(m.view_of()),
        }
    }
}

impl FsQuery {
    pub open spec fn view_of(&self) -> QueryView {
        match self {
            FsQuery::Canonicalize(p) => QueryView::Canonicalize(p@),
            FsQuery::SymlinkMetadata(p) => QueryView::SymlinkMetadata(p@),
        }
    }
}


// ---------------------------------------------------------------------------
// What an accepted path satisfies.
// ---------------------------------------------------------------------------
/// `p` resolves, through the filesystem, to a place under the canonical
/// attachments root.
pub open spec fn resolves_within(fs: FsModel, root: Seq<Seq<u8>>, p: Seq<Seq<u8>>) -> bool {
    &&& (fs.canonicalize)(p) is Ok
    &&& (fs.canonicalize)(root) is Ok
    &&& is_component_prefix(
        path_components((fs.canonicalize)(root)->Ok_0),
        path_components((fs.canonicalize)(p)->Ok_0),
    )
}

proof fn lemma_containment_ok(
    fs: FsModel,
    root: Seq<Seq<u8>>,
    resolved: Seq<Seq<u8>>,
    path: Seq<Seq<u8>>,
    op: Seq<char>,
    is_target: bool,
)
    requires
        containment_outcome(fs, root, resolved, path, op, is_target) is Ok,
    ensures
        containment_outcome(fs, root, resolved, path, op, is_target) == OutcomeView::Ok(path),
        (fs.canonicalize)(root) is Ok,
        is_component_prefix(path_components((fs.canonicalize)(root)->Ok_0), resolved),
{
}

proof fn lemma_parent_search_ok(
    fs: FsModel,
    root: Seq<Seq<u8>>,
    path: Seq<Seq<u8>>,
    op: Seq<char>,
    depth: int,
)
    requires
        parent_search_outcome(fs, root, path, op, depth) is Ok,
    ensures
        parent_search_outcome(fs, root, path, op, depth) == OutcomeView::Ok(path),
        exists|k: int|
            0 <= k <= depth && #[trigger] (fs.metadata)(path.take(k)) is Found && !is_symlink(
                (fs.metadata)(path.take(k)),
            ) && resolves_within(fs, root, path.take(k)) && forall|j: int|
                k < j <= depth ==> (fs.metadata)(#[trigger] path.take(j)) is NotFound,
    decreases depth,
{
    let m = (fs.metadata)(path.take(depth));
    match m {
        MetadataView::Found(_) => {
            lemma_containment_ok(
                fs,
                root,
                path_components((fs.canonicalize)(path.take(depth))->Ok_0),
                path,
                op,
                false,
            );
            assert(0 <= depth <= depth && (fs.metadata)(path.take(depth)) is Found);
        },
        MetadataView::NotFound => {
            lemma_parent_search_ok(fs, root, path, op, depth - 1);
            let k: int = choose|k: int|
                0 <= k <= depth - 1 && #[trigger] (fs.metadata)(path.take(k)) is Found
                    && !is_symlink((fs.metadata)(path.take(k))) && resolves_within(
                    fs,
                    root,
                    path.take(k),
                ) && forall|j: int|
                    k < j <= depth - 1 ==> (fs.metadata)(#[trigger] path.take(j)) is NotFound;
            assert forall|j: int| k < j <= depth implies (fs.metadata)(
                #[trigger] path.take(j),
            ) is NotFound by {}
        },
        _ => {},
    }
}

proof fn lemma_target_ok(fs: FsModel, root: Seq<Seq<u8>>, path: Seq<Seq<u8>>, op: Seq<char>)
    requires
        target_outcome(fs, root, path, op) is Ok,
    ensures
        target_outcome(fs, root, path, op) == OutcomeView::Ok(path),
        !is_symlink((fs.metadata)(path)),
        (fs.metadata)(path) is Found ==> resolves_within(fs, root, path),
        !((fs.metadata)(path) is Found) ==> {
            &&& (fs.metadata)(path) is NotFound
            &&& exists|k: int|
                0 <= k < path.len() && #[trigger] (fs.metadata)(path.take(k)) is Found
                    && !is_symlink((fs.metadata)(path.take(k))) && resolves_within(
                    fs,
                    root,
                    path.take(k),
                ) && forall|j: int|
                    k < j < path.len() ==> (fs.metadata)(#[trigger] path.take(j)) is NotFound
        },
{
    match (fs.metadata)(path) {
        MetadataView::Found(_) => {
            lemma_containment_ok(
                fs,
                root,
                path_components((fs.canonicalize)(path)->Ok_0),
                path,
                op,
                true,
            );
        },
        MetadataView::NotFound => {
            lemma_parent_search_ok(fs, root, path, op, path.len() - 1);
        },
        _ => {},
    }
}

proof fn lemma_ancestors_ok(
    fs: FsModel,
    home_len: int,
    root: Seq<Seq<u8>>,
    path: Seq<Seq<u8>>,
    op: Seq<char>,
    depth: int,
)
    requires
        ancestor_outcome(fs, home_len, root, path, op, depth) is Ok,
        wf_components(path),
        0 <= home_len,
        depth <= path.len(),
    ensures
        ancestor_outcome(fs, home_len, root, path, op, depth) == target_outcome(
            fs,
            root,
            path,
            op,
        ),
        forall|k: int|
            home_len < k <= depth ==> !is_symlink(#[trigger] (fs.metadata)(path.take(k))) && !((
            fs.metadata)(path.take(k)) is Failed),
    decreases depth,
{
    if !(depth <= home_len || depth <= 0 || depth > path.len()) {
        if has_parent(path.take(depth)) {
            lemma_ancestors_ok(fs, home_len, root, path, op, depth - 1);
        } else {
            assert(path.take(depth).last() == path[depth - 1]);
            assert(root_component().contains(SEPARATOR)) by {
                assert(root_component()[0] == SEPARATOR);
            }
            assert(is_plain_name(path[depth - 1]) || depth - 1 == 0);
            assert(depth - 1 == 0);
        }
    }
}

/// A path that is not strictly under `<canonical CODEX_HOME>/attachments`
/// (the attachments root itself included), or that climbs with a `..`
/// component, is refused as restricted, whatever the filesystem holds below
/// the home directory.
pub proof fn paths_outside_attachments_are_refused(
    fs: FsModel,
    codex_home: Seq<Seq<u8>>,
    path: Seq<Seq<u8>>,
    op: Seq<char>,
)
    requires
        (fs.canonicalize)(codex_home) is Ok,
        ({
            let root = attachments_root_of(path_components((fs.canonicalize)(codex_home)->Ok_0));
            path == root || !is_component_prefix(root, path) || has_dot_dot(path)
        }),
    ensures
        validate_attachment_mutation_spec(fs, codex_home, path, op) == refusal(
            op,
            " is restricted to CODEX_HOME/attachments"@,
        ),
{
}

/// What the check accepts: the target path itself, which lies strictly
/// under `<canonical CODEX_HOME>/attachments` and has no `..` component, so
/// that it names a place under that root even read lexically; no directory
/// between that home and the target is a symlink (nor failed to be
/// inspected); the target is no symlink; and the target, if it exists, or
/// else its nearest existing ancestor (with every deeper ancestor missing),
/// resolves to a place under the canonical attachments root.
pub proof fn accepted_mutation_stays_in_attachments(
    fs: FsModel,
    codex_home: Seq<Seq<u8>>,
    path: Seq<Seq<u8>>,
    op: Seq<char>,
)
    requires
        validate_attachment_mutation_spec(fs, codex_home, path, op) is Ok,
        wf_components(path),
    ensures
        validate_attachment_mutation_spec(fs, codex_home, path, op) == OutcomeView::Ok(path),
        (fs.canonicalize)(codex_home) is Ok,
        ({
            let home = path_components((fs.canonicalize)(codex_home)->Ok_0);
            let root = attachments_root_of(home);
            &&& is_component_prefix(root, path)
            &&& path.len() > root.len()
            &&& forall|i: int| 0 <= i < path.len() ==> path[i] != parent_dir_component()
            &&& forall|k: int|
                home.len() < k < path.len() ==> !is_symlink(
                    #[trigger] (fs.metadata)(path.take(k)),
                ) && !((fs.metadata)(path.take(k)) is Failed)
            &&& !is_symlink((fs.metadata)(path))
            &&& (fs.metadata)(path) is Found ==> resolves_within(fs, root, path)
            &&& !((fs.metadata)(path) is Found) ==> {
                &&& (fs.metadata)(path) is NotFound
                &&& exists|k: int|
                    0 <= k < path.len() && #[trigger] (fs.metadata)(path.take(k)) is Found
                        && !is_symlink((fs.metadata)(path.take(k))) && resolves_within(
                        fs,
                        root,
                        path.take(k),
                    ) && forall|j: int|
                        k < j < path.len() ==> (fs.metadata)(#[trigger] path.take(j)) is NotFound
            }
        }),
{
    let home = path_components((fs.canonicalize)(codex_home)->Ok_0);
    let root = attachments_root_of(home);
    if path.len() == root.len() {
        assert(path =~= path.subrange(0, root.len() as int));
    }
    assert(path.len() >= 2);
    assert(has_parent(path)) by {
        assert(path.last() == path[path.len() - 1]);
        assert(root_component().contains(SEPARATOR)) by {
            assert(root_component()[0] == SEPARATOR);
        }
        assert(is_plain_name(path[path.len() - 1]));
    }
    lemma_ancestors_ok(fs, home.len() as int, root, path, op, path.len() - 1);
    lemma_target_ok(fs, root, path, op);
}

proof fn lemma_clean_ancestors_reach_target(
    fs: FsModel,
    home_len: int,
    root: Seq<Seq<u8>>,
    path: Seq<Seq<u8>>,
    op: Seq<char>,
    depth: int,
)
    requires
        forall|j: int|
            home_len < j <= depth ==> !is_symlink(#[trigger] (fs.metadata)(path.take(j))) && !((
            fs.metadata)(path.take(j)) is Failed),
    ensures
        ancestor_outcome(fs, home_len, root, path, op, depth) == target_outcome(fs, root, path, op),
    decreases depth,
{
    if !(depth <= home_len || depth <= 0 || depth > path.len()) {
        let m = (fs.metadata)(path.take(depth));
        assert(!is_symlink(m) && !(m is Failed));
        if has_parent(path.take(depth)) {
            lemma_clean_ancestors_reach_target(fs, home_len, root, path, op, depth - 1);
        }
    }
}

proof fn lemma_later_names_have_parents(path: Seq<Seq<u8>>, j: int)
    requires
        wf_components(path),
        2 <= j <= path.len(),
    ensures
        has_parent(path.take(j)),
{
    assert(path.take(j).last() == path[j - 1]);
    assert(root_component().contains(SEPARATOR)) by {
        assert(root_component()[0] == SEPARATOR);
    }
    assert(is_plain_name(path[j - 1]));
}

proof fn lemma_parent_search_finds(
    fs: FsModel,
    root: Seq<Seq<u8>>,
    path: Seq<Seq<u8>>,
    op: Seq<char>,
    depth: int,
    k: int,
)
    requires
        wf_components(path),
        1 <= k <= depth < path.len(),
        (fs.metadata)(path.take(k)) is Found,
        !is_symlink((fs.metadata)(path.take(k))),
        forall|j: int| k < j <= depth ==> (fs.metadata)(#[trigger] path.take(j)) is NotFound,
    ensures
        parent_search_outcome(fs, root, path, op, depth) == parent_canonical_outcome(
            fs,
            root,
            path,
            op,
            k,
        ),
    decreases depth,
{
    if depth > k {
        assert((fs.metadata)(path.take(depth)) is NotFound);
        lemma_later_names_have_parents(path, depth);
        lemma_parent_search_finds(fs, root, path, op, depth - 1, k);
    }
}

/// The common part of a complete check: the canonical home is known, the
/// path lies strictly under `<canonical home>/attachments` with no `..`
/// component, and no ancestor between the home and the target is a symlink
/// or fails to be inspected.
proof fn lemma_clean_path_reaches_target(
    fs: FsModel,
    codex_home: Seq<Seq<u8>>,
    path: Seq<Seq<u8>>,
    op: Seq<char>,
)
    requires
        (fs.canonicalize)(codex_home) is Ok,
        wf_components(path),
        ({
            let home = path_components((fs.canonicalize)(codex_home)->Ok_0);
            let root = attachments_root_of(home);
            &&& is_component_prefix(root, path)
            &&& path.len() > root.len()
            &&& forall|i: int| 0 <= i < path.len() ==> path[i] != parent_dir_component()
            &&& forall|j: int|
                home.len() < j < path.len() ==> !is_symlink(
                    #[trigger] (fs.metadata)(path.take(j)),
                ) && !((fs.metadata)(path.take(j)) is Failed)
        }),
    ensures
        validate_attachment_mutation_spec(fs, codex_home, path, op) == target_outcome(
            fs,
            attachments_root_of(path_components((fs.canonicalize)(codex_home)->Ok_0)),
            path,
            op,
        ),
        has_parent(path),
{
    let home = path_components((fs.canonicalize)(codex_home)->Ok_0);
    let root = attachments_root_of(home);
    assert(!has_dot_dot(path));
    assert(path != root);
    lemma_later_names_have_parents(path, path.len() as int);
    assert(path.take(path.len() as int) =~= path);
    lemma_clean_ancestors_reach_target(fs, home.len() as int, root, path, op, path.len() - 1);
}

/// The check is complete for a new file or directory: when the path lies
/// strictly under `<canonical CODEX_HOME>/attachments` with no `..`
/// component, no ancestor between the home and the target is a symlink or
/// fails to be inspected, the target is missing, and its nearest existing
/// ancestor `path.take(k)` is no symlink and resolves to a place under the
/// canonical attachments root, the path is accepted, whatever the depth of
/// that ancestor.
pub proof fn contained_new_path_is_accepted(
    fs: FsModel,
    codex_home: Seq<Seq<u8>>,
    path: Seq<Seq<u8>>,
    op: Seq<char>,
    k: int,
)
    requires
        (fs.canonicalize)(codex_home) is Ok,
        wf_components(path),
        ({
            let home = path_components((fs.canonicalize)(codex_home)->Ok_0);
            let root = attachments_root_of(home);
            &&& is_component_prefix(root, path)
            &&& path.len() > root.len()
            &&& forall|i: int| 0 <= i < path.len() ==> path[i] != parent_dir_component()
            &&& forall|j: int|
                home.len() < j < path.len() ==> !is_symlink(
                    #[trigger] (fs.metadata)(path.take(j)),
                ) && !((fs.metadata)(path.take(j)) is Failed)
            &&& (fs.metadata)(path) is NotFound
            &&& 1 <= k < path.len()
            &&& (fs.metadata)(path.take(k)) is Found
            &&& !is_symlink((fs.metadata)(path.take(k)))
            &&& forall|j: int| k < j < path.len() ==> (fs.metadata)(#[trigger] path.take(j)) is NotFound
            &&& (fs.canonicalize)(path.take(k)) is Ok
            &&& (fs.canonicalize)(root) is Ok
            &&& is_component_prefix(
                path_components((fs.canonicalize)(root)->Ok_0),
                path_components((fs.canonicalize)(path.take(k))->Ok_0),
            )
        }),
    ensures
        validate_attachment_mutation_spec(fs, codex_home, path, op) == OutcomeView::Ok(path),
{
    let home = path_components((fs.canonicalize)(codex_home)->Ok_0);
    let root = attachments_root_of(home);
    lemma_clean_path_reaches_target(fs, codex_home, path, op);
    lemma_parent_search_finds(fs, root, path, op, path.len() - 1, k);
}

/// The check is complete for an existing target: when the path lies
/// strictly under `<canonical CODEX_HOME>/attachments` with no `..`
/// component, no ancestor between the home and the target is a symlink or
/// fails to be inspected, and the target exists, is no symlink and resolves
/// to a place under the canonical attachments root, the path is accepted.
pub proof fn contained_existing_path_is_accepted(
    fs: FsModel,
    codex_home: Seq<Seq<u8>>,
    path: Seq<Seq<u8>>,
    op: Seq<char>,
)
    requires
        (fs.canonicalize)(codex_home) is Ok,
        wf_components(path),
        ({
            let home = path_components((fs.canonicalize)(codex_home)->Ok_0);
            let root = attachments_root_of(home);
            &&& is_component_prefix(root, path)
            &&& path.len() > root.len()
            &&& forall|i: int| 0 <= i < path.len() ==> path[i] != parent_dir_component()
            &&& forall|j: int|
                home.len() < j < path.len() ==> !is_symlink(
                    #[trigger] (fs.metadata)(path.take(j)),
                ) && !((fs.metadata)(path.take(j)) is Failed)
            &&& (fs.metadata)(path) is Found
            &&& !is_symlink((fs.metadata)(path))
            &&& (fs.canonicalize)(path) is Ok
            &&& (fs.canonicalize)(root) is Ok
            &&& is_component_prefix(
                path_components((fs.canonicalize)(root)->Ok_0),
                path_components((fs.canonicalize)(path)->Ok_0),
            )
        }),
    ensures
        validate_attachment_mutation_spec(fs, codex_home, path, op) == OutcomeView::Ok(path),
{
    lemma_clean_path_reaches_target(fs, codex_home, path, op);
}

// ---------------------------------------------------------------------------
// The machine.
// ---------------------------------------------------------------------------
/// Where the check stands.
#[derive(Debug)]
pub enum CheckStage {
    /// Waiting for the canonical form of the home directory.
    CanonicalHome { home: NativePath },
    /// Waiting for the metadata of the ancestor `path.take(depth)`.
    Ancestor { home_len: usize, root: NativePath, depth: usize },
    /// Waiting for the metadata of the target.
    Target { root: NativePath },
    /// Waiting for the canonical form of the target.
    TargetCanonical { root: NativePath },
    /// Waiting for the metadata of the possible parent `path.take(depth)`.
    Parent { root: NativePath, depth: usize },
    /// Waiting for the canonical form of the existing parent `path.take(depth)`.
    ParentCanonical { root: NativePath, depth: usize },
    /// Waiting for the canonical attachments root, to compare `resolved` with it.
    RootCanonical { root: NativePath, resolved: NativePath, is_target: bool },
    /// The answer has been given.
    Done,
}

/// The check that `path` may be mutated by the filesystem operation
/// `operation` under the home directory given at the start.
#[derive(Debug)]
pub struct AttachmentPathCheck {
    operation: String,
    path: NativePath,
    stage: CheckStage,
}

impl AttachmentPathCheck {
    pub closed spec fn operation_view(&self) -> Seq<char> {
        self.operation@
    }

    pub closed spec fn path_view(&self) -> Seq<Seq<u8>> {
        self.path@
    }

    pub closed spec fn is_finished(&self) -> bool {
        self.stage is Done
    }

    /// The query whose answer the check waits for.
    pub closed spec fn pending(&self) -> QueryView {
        let path = self.path@;
        match self.stage {
            CheckStage::CanonicalHome { home } => QueryView::Canonicalize(home@),
            CheckStage::Ancestor { depth, .. } => QueryView::SymlinkMetadata(
                path.take(depth as int),
            ),
            CheckStage::Target { .. } => QueryView::SymlinkMetadata(path),
            CheckStage::TargetCanonical { .. } => QueryView::Canonicalize(path),
            CheckStage::Parent { depth, .. } => QueryView::SymlinkMetadata(path.take(depth as int)),
            CheckStage::ParentCanonical { depth, .. } => QueryView::Canonicalize(
                path.take(depth as int),
            ),
            CheckStage::RootCanonical { root, .. } => QueryView::Canonicalize(root@),
            CheckStage::Done => QueryView::Canonicalize(path),
        }
    }

    /// The answer has the kind of the pending query.
    pub open spec fn accepts(&self, answer: AnswerView) -> bool {
        query_accepts(self.pending(), answer)
    }

    /// The answer that the check reaches from here against `fs`.
    pub closed spec fn outcome(&self, fs: FsModel) -> OutcomeView {
        let path = self.path@;
        let op = self.operation@;
        match self.stage {
            CheckStage::CanonicalHome { home } => validate_attachment_mutation_spec(
                fs,
                home@,
                path,
                op,
            ),
            CheckStage::Ancestor { home_len, root, depth } => ancestor_outcome(
                fs,
                home_len as int,
                root@,
                path,
                op,
                depth as int,
            ),
            CheckStage::Target { root } => target_outcome(fs, root@, path, op),
            CheckStage::TargetCanonical { root } => target_canonical_outcome(fs, root@, path, op),
            CheckStage::Parent { root, depth } => parent_search_outcome(
                fs,
                root@,
                path,
                op,
                depth as int,
            ),
            CheckStage::ParentCanonical { root, depth } => parent_canonical_outcome(
                fs,
                root@,
                path,
                op,
                depth as int,
            ),
            CheckStage::RootCanonical { root, resolved, is_target } => containment_outcome(
                fs,
                root@,
                resolved@,
                path,
                op,
                is_target,
            ),
            CheckStage::Done => Err(invalid_request_view(Seq::empty())),
        }
    }

    /// A bound on the number of steps left.
    pub closed spec fn steps_left(&self) -> int {
        let n: int = self.path@.len() as int;
        match self.stage {
            CheckStage::CanonicalHome { .. } => 2 * n + 10,
            CheckStage::Ancestor { depth, .. } => n + depth + 6,
            CheckStage::Target { .. } => n + 5,
            CheckStage::TargetCanonical { .. } => 2,
            CheckStage::Parent { depth, .. } => depth + 4,
            CheckStage::ParentCanonical { .. } => 2,
            CheckStage::RootCanonical { .. } => 1,
            CheckStage::Done => 0,
        }
    }

    pub closed spec fn wf(&self) -> bool {
        let n: nat = self.path@.len();
        match self.stage {
            CheckStage::Ancestor { home_len, root, depth } => home_len < depth <= n,
            CheckStage::Parent { depth, .. } => depth <= n,
            CheckStage::ParentCanonical { depth, .. } => depth <= n,
            _ => true,
        }
    }

    pub open spec fn well_formed(&self) -> bool {
        self.wf() && self.steps_left() >= 0
    }

    /// Starts the check of `path` for `operation`, with `codex_home` as the
    /// home directory; the first query asks for the canonical home.
    pub fn start(codex_home: &NativePath, path: &NativePath, operation: &str) -> (res: (
        AttachmentPathCheck,
        FsQuery,
    ))
        ensures
            !res.0.is_finished(),
            res.0.well_formed(),
            res.0.operation_view() == operation@,
            res.0.path_view() == path@,
            wf_components(res.0.path_view()),
            res.0.steps_left() == 2 * path@.len() + 10,
            res.1.view_of() == res.0.pending(),
            res.1.view_of() == QueryView::Canonicalize(codex_home@),
            forall|fs: FsModel|
                #[trigger] res.0.outcome(fs) == validate_attachment_mutation_spec(
                    fs,
                    codex_home@,
                    path@,
                    operation@,
                ),
    {
        proof {
            use_type_invariant(path);
        }
        let check = AttachmentPathCheck {
            operation: String::from_str(operation),
            path: path.duplicate(),
            stage: CheckStage::CanonicalHome { home: codex_home.duplicate() },
        };
        (check, FsQuery::Canonicalize(codex_home.duplicate()))
    }

    /// Feeds the answer to the pending query; gives the check as it then
    /// stands and its next query or its final answer.  Against any
    /// filesystem that gave this answer, the check still reaches the same
    /// final answer, and it takes fewer steps to get there.
    pub fn advance(self, answer: FsAnswer) -> (res: (AttachmentPathCheck, ValidationStep))
        requires
            !self.is_finished(),
            self.well_formed(),
            self.accepts(answer.view_of()),
        ensures
            res.0.operation_view() == self.operation_view(),
            res.0.path_view() == self.path_view(),
            res.0.well_formed(),
            res.0.steps_left() < self.steps_left(),
            res.1 is Finished <==> res.0.is_finished(),
            res.1 matches ValidationStep::Query(q) ==> q.view_of() == res.0.pending(),
            forall|fs: FsModel|
                #[trigger] answers(fs, self.pending(), answer.view_of()) ==> match res.1 {
                    ValidationStep::Finished(r) => outcome_of(r) == self.outcome(fs),
                    ValidationStep::Query(_) => res.0.outcome(fs) == self.outcome(fs),
                },
    {
        let AttachmentPathCheck { operation, path, stage } = self;
        let ghost pview = path@;
        let ghost op = operation@;
        let n: usize = path.component_count();
        match stage {
            CheckStage::CanonicalHome { home } => {
                match answer {
                    FsAnswer::Canonical(Err(e)) => {
                        let err = fs_invalid_request_with(
                            operation.as_str(),
                            " cannot establish canonical CODEX_HOME: ",
                            e.as_str(),
                        );
                        Self::finish(operation, path, Err(err))
                    },
                    FsAnswer::Canonical(Ok(bytes)) => {
                        let canonical_home = NativePath::from_bytes(bytes.as_slice());
                        let name = attachments_dir_bytes();
                        proof {
                            assert(is_plain_name(name@)) by {
                                assert(!name@.contains(SEPARATOR)) by {
                                    assert forall|i: int| 0 <= i < name@.len() implies name@[i]
                                        != SEPARATOR by {}
                                }
                                assert(name@ != cur_dir_component()) by {
                                    assert(name@.len() != cur_dir_component().len());
                                }
                            }
                        }
                        let root = canonical_home.join_component(name.as_slice());
                        let home_len: usize = canonical_home.component_count();
                        if path.same_path(&root) || !path.starts_with(&root)
                            || path.has_parent_dir_component() {
                            let err = fs_invalid_request(
                                operation.as_str(),
                                " is restricted to CODEX_HOME/attachments",
                            );
                            return Self::finish(operation, path, Err(err));
                        }
                        proof {
                            if pview.len() == root@.len() {
                                assert(pview =~= pview.subrange(0, root@.len() as int));
                            }
                        }
                        match path.parent() {
                            Some(parent) => {
                                let depth: usize = n - 1;
                                let query = FsQuery::SymlinkMetadata(parent);
                                assert(pview.take(depth as int) =~= pview.drop_last());
                                let next = AttachmentPathCheck {
                                    operation,
                                    path,
                                    stage: CheckStage::Ancestor { home_len, root, depth },
                                };
                                (next, ValidationStep::Query(query))
                            },
                            None => {
                                let query = FsQuery::SymlinkMetadata(path.duplicate());
                                let next = AttachmentPathCheck {
                                    operation,
                                    path,
                                    stage: CheckStage::Target { root },
                                };
                                (next, ValidationStep::Query(query))
                            },
                        }
                    },
                    FsAnswer::Metadata(_) => {
                        proof {
                            assert(false);
                        }
                        Self::finish(operation, path, Err(invalid_request(String::new())))
                    },
                }
            },
            CheckStage::Ancestor { home_len, root, depth } => {
                match answer {
                    FsAnswer::Metadata(MetadataObservation::Found(EntryKind::Symlink)) => {
                        let err = fs_invalid_request(
                            operation.as_str(),
                            " rejects symlink/reparse-point ancestors",
                        );
                        Self::finish(operation, path, Err(err))
                    },
                    FsAnswer::Metadata(MetadataObservation::Failed(e)) => {
                        let err = fs_invalid_request_with(
                            operation.as_str(),
                            " cannot inspect mutation path: ",
                            e.as_str(),
                        );
                        Self::finish(operation, path, Err(err))
                    },
                    FsAnswer::Metadata(_) => {
                        let current = path.prefix(depth);
                        match current.parent() {
                            Some(parent) => {
                                let next_depth: usize = depth - 1;
                                assert(pview.take(next_depth as int) =~= pview.take(
                                    depth as int,
                                ).drop_last());
                                if next_depth <= home_len {
                                    proof {
                                        assert forall|fs: FsModel|
                                            ancestor_outcome(
                                                fs,
                                                home_len as int,
                                                root@,
                                                pview,
                                                op,
                                                next_depth as int,
                                            ) == target_outcome(fs, root@, pview, op) by {}
                                    }
                                    let query = FsQuery::SymlinkMetadata(path.duplicate());
                                    let next = AttachmentPathCheck {
                                        operation,
                                        path,
                                        stage: CheckStage::Target { root },
                                    };
                                    (next, ValidationStep::Query(query))
                                } else {
                                    let query = FsQuery::SymlinkMetadata(parent);
                                    let next = AttachmentPathCheck {
                                        operation,
                                        path,
                                        stage: CheckStage::Ancestor {
                                            home_len,
                                            root,
                                            depth: next_depth,
                                        },
                                    };
                                    (next, ValidationStep::Query(query))
                                }
                            },
                            None => {
                                let query = FsQuery::SymlinkMetadata(path.duplicate());
                                let next = AttachmentPathCheck {
                                    operation,
                                    path,
                                    stage: CheckStage::Target { root },
                                };
                                (next, ValidationStep::Query(query))
                            },
                        }
                    },
                    FsAnswer::Canonical(_) => {
                        proof {
                            assert(false);
                        }
                        Self::finish(operation, path, Err(invalid_request(String::new())))
                    },
                }
            },
            CheckStage::Target { root } => {
                match answer {
                    FsAnswer::Metadata(MetadataObservation::Found(EntryKind::Symlink)) => {
                        let err = fs_invalid_request(
                            operation.as_str(),
                            " rejects symlink/reparse-point targets",
                        );
                        Self::finish(operation, path, Err(err))
                    },
                    FsAnswer::Metadata(MetadataObservation::Found(_)) => {
                        let query = FsQuery::Canonicalize(path.duplicate());
                        let next = AttachmentPathCheck {
                            operation,
                            path,
                            stage: CheckStage::TargetCanonical { root },
                        };
                        (next, ValidationStep::Query(query))
                    },
                    FsAnswer::Metadata(MetadataObservation::NotFound) => {
                        match path.parent() {
                            Some(parent) => {
                                let depth: usize = n - 1;
                                assert(pview.take(depth as int) =~= pview.drop_last());
                                let query = FsQuery::SymlinkMetadata(parent);
                                let next = AttachmentPathCheck {
                                    operation,
                                    path,
                                    stage: CheckStage::Parent { root, depth },
                                };
                                (next, ValidationStep::Query(query))
                            },
                            None => {
                                let err = fs_invalid_request(
                                    operation.as_str(),
                                    " target has no parent",
                                );
                                Self::finish(operation, path, Err(err))
                            },
                        }
                    },
                    FsAnswer::Metadata(MetadataObservation::Failed(e)) => {
                        let err = fs_invalid_request_with(
                            operation.as_str(),
                            " cannot inspect target: ",
                            e.as_str(),
                        );
                        Self::finish(operation, path, Err(err))
                    },
                    FsAnswer::Canonical(_) => {
                        proof {
                            assert(false);
                        }
                        Self::finish(operation, path, Err(invalid_request(String::new())))
                    },
                }
            },
            CheckStage::TargetCanonical { root } => {
                match answer {
                    FsAnswer::Canonical(Err(e)) => {
                        let err = fs_invalid_request_with(
                            operation.as_str(),
                            " cannot canonicalize target: ",
                            e.as_str(),
                        );
                        Self::finish(operation, path, Err(err))
                    },
                    FsAnswer::Canonical(Ok(bytes)) => {
                        let resolved = NativePath::from_bytes(bytes.as_slice());
                        let query = FsQuery::Canonicalize(root.duplicate());
                        let next = AttachmentPathCheck {
                            operation,
                            path,
                            stage: CheckStage::RootCanonical { root, resolved, is_target: true },
                        };
                        (next, ValidationStep::Query(query))
                    },
                    FsAnswer::Metadata(_) => {
                        proof {
                            assert(false);
                        }
                        Self::finish(operation, path, Err(invalid_request(String::new())))
                    },
                }
            },
            CheckStage::Parent { root, depth } => {
                match answer {
                    FsAnswer::Metadata(MetadataObservation::Found(EntryKind::Symlink)) => {
                        let err = fs_invalid_request(
                            operation.as_str(),
                            " rejects symlink/reparse-point ancestors",
                        );
                        Self::finish(operation, path, Err(err))
                    },
                    FsAnswer::Metadata(MetadataObservation::Found(_)) => {
                        let query = FsQuery::Canonicalize(path.prefix(depth));
                        let next = AttachmentPathCheck {
                            operation,
                            path,
                            stage: CheckStage::ParentCanonical { root, depth },
                        };
                        (next, ValidationStep::Query(query))
                    },
                    FsAnswer::Metadata(MetadataObservation::NotFound) => {
                        let current = path.prefix(depth);
                        match current.parent() {
                            Some(parent) => {
                                let next_depth: usize = depth - 1;
                                assert(pview.take(next_depth as int) =~= pview.take(
                                    depth as int,
                                ).drop_last());
                                let query = FsQuery::SymlinkMetadata(parent);
                                let next = AttachmentPathCheck {
                                    operation,
                                    path,
                                    stage: CheckStage::Parent { root, depth: next_depth },
                                };
                                (next, ValidationStep::Query(query))
                            },
                            None => {
                                let err = fs_invalid_request(
                                    operation.as_str(),
                                    " cannot find an existing parent",
                                );
                                Self::finish(operation, path, Err(err))
                            },
                        }
                    },
                    FsAnswer::Metadata(MetadataObservation::Failed(e)) => {
                        let err = fs_invalid_request_with(
                            operation.as_str(),
                            " cannot inspect existing parent: ",
                            e.as_str(),
                        );
                        Self::finish(operation, path, Err(err))
                    },
                    FsAnswer::Canonical(_) => {
                        proof {
                            assert(false);
                        }
                        Self::finish(operation, path, Err(invalid_request(String::new())))
                    },
                }
            },
            CheckStage::ParentCanonical { root, depth } => {
                match answer {
                    FsAnswer::Canonical(Err(e)) => {
                        let err = fs_invalid_request_with(
                            operation.as_str(),
                            " cannot canonicalize existing parent: ",
                            e.as_str(),
                        );
                        Self::finish(operation, path, Err(err))
                    },
                    FsAnswer::Canonical(Ok(bytes)) => {
                        let resolved = NativePath::from_bytes(bytes.as_slice());
                        let query = FsQuery::Canonicalize(root.duplicate());
                        let next = AttachmentPathCheck {
                            operation,
                            path,
                            stage: CheckStage::RootCanonical { root, resolved, is_target: false },
                        };
                        (next, ValidationStep::Query(query))
                    },
                    FsAnswer::Metadata(_) => {
                        proof {
                            assert(false);
                        }
                        Self::finish(operation, path, Err(invalid_request(String::new())))
                    },
                }
            },
            CheckStage::RootCanonical { root, resolved, is_target } => {
                match answer {
                    FsAnswer::Canonical(Err(e)) => {
                        let err = fs_invalid_request_with(
                            operation.as_str(),
                            " cannot establish canonical attachments root: ",
                            e.as_str(),
                        );
                        Self::finish(operation, path, Err(err))
                    },
                    FsAnswer::Canonical(Ok(bytes)) => {
                        let canonical_root = NativePath::from_bytes(bytes.as_slice());
                        if resolved.starts_with(&canonical_root) {
                            let accepted = path.duplicate();
                            Self::finish(operation, path, Ok(accepted))
                        } else if is_target {
                            let err = fs_invalid_request(
                                operation.as_str(),
                                " target resolves outside CODEX_HOME/attachments",
                            );
                            Self::finish(operation, path, Err(err))
                        } else {
                            let err = fs_invalid_request(
                                operation.as_str(),
                                " parent resolves outside CODEX_HOME/attachments",
                            );
                            Self::finish(operation, path, Err(err))
                        }
                    },
                    FsAnswer::Metadata(_) => {
                        proof {
                            assert(false);
                        }
                        Self::finish(operation, path, Err(invalid_request(String::new())))
                    },
                }
            },
            CheckStage::Done => {
                proof {
                    assert(false);
                }
                Self::finish(operation, path, Err(invalid_request(String::new())))
            },
        }
    }

    fn finish(operation: String, path: NativePath, result: Result<NativePath, JSONRPCErrorError>) -> (res: (
        AttachmentPathCheck,
        ValidationStep,
    ))
        ensures
            res.0.operation_view() == operation@,
            res.0.path_view() == path@,
            res.0.is_finished(),
            res.0.well_formed(),
            res.0.steps_left() == 0,
            res.1 == ValidationStep::Finished(result),
    {
        (AttachmentPathCheck { operation, path, stage: CheckStage::Done }, ValidationStep::Finished(result))
    }
}

} // verus!
