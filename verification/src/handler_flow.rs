//! The order in which the mutating filesystem handlers (write, create
//! directory, copy) check and act.  A handler is a state machine: it asks
//! for the answers of the attachment checks, of the copy source's metadata
//! and of whether the local filesystem is configured, then either refuses
//! or hands out the one filesystem operation to perform.  The spec
//! functions below say which answer a handler reaches against any
//! environment that answers its queries consistently.

use vstd::prelude::*;

use crate::attachments::{
    query_accepts, validate_attachment_mutation_spec, AnswerView, AttachmentPathCheck,
    EntryKind, FsAnswer, FsModel, FsQuery, OutcomeView, QueryView, ValidationStep, answers,
};
use crate::native_path::{wf_components, NativePath};
use crate::rpc_error::{
    fs_message, internal_error, internal_error_view, invalid_request_view, JSONRPCErrorError,
};

verus! {

/// How a file is written: never through a symlink at the target.
pub struct WriteFileOptions {
    pub follow_symlinks: bool,
}

/// How a directory is created.
pub struct CreateDirectoryOptions {
    pub recursive: bool,
    pub follow_symlinks: bool,
}

/// How a copy proceeds.
pub struct CopyOptions {
    pub recursive: bool,
}

/// The filesystem operation that a handler performs once every check passed.
pub enum MutationOp {
    WriteFile { path: NativePath, bytes: Vec<u8>, options: WriteFileOptions },
    CreateDirectory { path: NativePath, options: CreateDirectoryOptions },
    Copy { source: NativePath, destination: NativePath, options: CopyOptions },
}

pub enum MutationOpView {
    WriteFile { path: Seq<Seq<u8>>, bytes: Seq<u8>, follow_symlinks: bool },
    CreateDirectory { path: Seq<Seq<u8>>, recursive: bool, follow_symlinks: bool },
    Copy { source: Seq<Seq<u8>>, destination: Seq<Seq<u8>>, recursive: bool },
}

impl MutationOp {
    pub open spec fn view_of(&self) -> MutationOpView {
        match self {
            MutationOp::WriteFile { path, bytes, options } => MutationOpView::WriteFile {
                path: path@,
                bytes: bytes@,
                follow_symlinks: options.follow_symlinks,
            },
            MutationOp::CreateDirectory { path, options } => MutationOpView::CreateDirectory {
                path: path@,
                recursive: options.recursive,
                follow_symlinks: options.follow_symlinks,
            },
            MutationOp::Copy { source, destination, options } => MutationOpView::Copy {
                source: source@,
                destination: destination@,
                recursive: options.recursive,
            },
        }
    }
}

/// A query of a handler.
pub enum HandlerQuery {
    /// A query of the attachment check in progress.
    Check(FsQuery),
    /// `symlink_metadata` of the checked copy source.
    SourceMetadata(NativePath),
    /// Whether the local filesystem is configured.
    FileSystem,
}

/// The answer to a query of a handler.
pub enum HandlerAnswer {
    Check(FsAnswer),
    /// The entry's type, or the message of the failure.
    SourceMetadata(Result<EntryKind, String>),
    FileSystem(bool),
}

/// What a handler does next.
pub enum HandlerStep {
    Query(HandlerQuery),
    /// Perform this operation: every check has passed.
    Perform(MutationOp),
    /// Answer the request with this error.
    Finished(JSONRPCErrorError),
}

pub enum HandlerQueryView {
    Check(QueryView),
    SourceMetadata(Seq<Seq<u8>>),
    FileSystem,
}

pub enum HandlerAnswerView {
    Check(AnswerView),
    SourceMetadata(Result<EntryKind, Seq<char>>),
    FileSystem(bool),
}

impl HandlerQuery {
    pub open spec fn view_of(&self) -> HandlerQueryView {
        match self {
            HandlerQuery::Check(q) => HandlerQueryView::Check(q.view_of()),
            HandlerQuery::SourceMetadata(p) => HandlerQueryView::SourceMetadata(p@),
            HandlerQuery::FileSystem => HandlerQueryView::FileSystem,
        }
    }
}

impl HandlerAnswer {
    pub open spec fn view_of(&self) -> HandlerAnswerView {
        match self {
            HandlerAnswer::Check(a) => HandlerAnswerView::Check(a.view_of()),
            HandlerAnswer::SourceMetadata(Ok(k)) => HandlerAnswerView::SourceMetadata(Ok(*k)),
            HandlerAnswer::SourceMetadata(Err(m)) => HandlerAnswerView::SourceMetadata(Err(m@)),
            HandlerAnswer::FileSystem(b) => HandlerAnswerView::FileSystem(*b),
        }
    }
}

/// What the handlers' queries are answered from: the filesystem model of the
/// attachment checks, the metadata of a copy source, and whether the local
/// filesystem is configured.
pub struct HandlerEnv {
    pub fs: FsModel,
    pub source_kind: spec_fn(Seq<Seq<u8>>) -> Result<EntryKind, Seq<char>>,
    pub file_system_available: bool,
}

/// The environment gives `answer` to `query`.
pub open spec fn handler_answers(
    env: HandlerEnv,
    query: HandlerQueryView,
    answer: HandlerAnswerView,
) -> bool {
    match query {
        HandlerQueryView::Check(q) => answer matches HandlerAnswerView::Check(a) && answers(
            env.fs,
            q,
            a,
        ),
        HandlerQueryView::SourceMetadata(p) => answer == HandlerAnswerView::SourceMetadata(
            (env.source_kind)(p),
        ),
        HandlerQueryView::FileSystem => answer == HandlerAnswerView::FileSystem(
            env.file_system_available,
        ),
    }
}

pub type DecisionView = Result<MutationOpView, (i64, Seq<char>)>;

// ---------------------------------------------------------------------------
// What each handler decides.
// ---------------------------------------------------------------------------
/// The last check: the local filesystem must be configured.
pub open spec fn file_system_step(env: HandlerEnv, op: MutationOpView) -> DecisionView {
    if env.file_system_available {
        Ok(op)
    } else {
        Err(internal_error_view("local filesystem is not configured"@))
    }
}

/// The copy destination is checked once the source has passed.
pub open spec fn copy_destination_step(
    env: HandlerEnv,
    codex_home: Seq<Seq<u8>>,
    source: Seq<Seq<u8>>,
    destination: Seq<Seq<u8>>,
    recursive: bool,
) -> DecisionView {
    match validate_attachment_mutation_spec(env.fs, codex_home, destination, "copy"@) {
        Err(e) => Err(e),
        Ok(d) => file_system_step(
            env,
            MutationOpView::Copy { source, destination: d, recursive },
        ),
    }
}

/// A checked copy source must exist as a regular file or a directory.
pub open spec fn copy_source_kind_step(
    env: HandlerEnv,
    codex_home: Seq<Seq<u8>>,
    source: Seq<Seq<u8>>,
    destination: Seq<Seq<u8>>,
    recursive: bool,
) -> DecisionView {
    match (env.source_kind)(source) {
        Err(m) => Err(
            invalid_request_view(
                fs_message("copy"@, " source must exist inside CODEX_HOME/attachments: "@) + m,
            ),
        ),
        Ok(EntryKind::Directory) | Ok(EntryKind::File) => copy_destination_step(
            env,
            codex_home,
            source,
            destination,
            recursive,
        ),
        Ok(_) => Err(
            invalid_request_view(
                fs_message(
                    "copy"@,
                    " source must be a regular file or directory inside CODEX_HOME/attachments"@,
                ),
            ),
        ),
    }
}

/// What `fs/copy` decides: the source's attachment check, the source's
/// type, the destination's attachment check, the local filesystem, then the
/// copy.
pub open spec fn copy_decision(
    env: HandlerEnv,
    codex_home: Seq<Seq<u8>>,
    source: Seq<Seq<u8>>,
    destination: Seq<Seq<u8>>,
    recursive: bool,
) -> DecisionView {
    match validate_attachment_mutation_spec(env.fs, codex_home, source, "copy"@) {
        Err(e) => Err(e),
        Ok(s) => copy_source_kind_step(env, codex_home, s, destination, recursive),
    }
}

/// What `fs/writeFile` decides: the payload is decoded, the target checked,
/// the local filesystem required, then the bytes are written, never through
/// a symlink.
pub open spec fn write_file_decision(
    env: HandlerEnv,
    codex_home: Seq<Seq<u8>>,
    path: Seq<Seq<u8>>,
    data_base64: Seq<char>,
) -> DecisionView {
    match crate::fs_processor::base64_standard_decoding(data_base64) {
        Err(m) => Err(invalid_request_view("fs/writeFile requires valid base64 dataBase64: "@ + m)),
        Ok(bytes) => match validate_attachment_mutation_spec(
            env.fs,
            codex_home,
            path,
            "writeFile"@,
        ) {
            Err(e) => Err(e),
            Ok(_) => file_system_step(
                env,
                MutationOpView::WriteFile { path, bytes, follow_symlinks: false },
            ),
        },
    }
}

/// What `fs/createDirectory` decides: the path is checked, the local
/// filesystem required, then the directory is created, recursively unless
/// the request says otherwise, never through a symlink.
pub open spec fn create_directory_decision(
    env: HandlerEnv,
    codex_home: Seq<Seq<u8>>,
    path: Seq<Seq<u8>>,
    recursive: Option<bool>,
) -> DecisionView {
    match validate_attachment_mutation_spec(env.fs, codex_home, path, "createDirectory"@) {
        Err(e) => Err(e),
        Ok(_) => file_system_step(
            env,
            MutationOpView::CreateDirectory {
                path,
                recursive: match recursive {
                    Some(r) => r,
                    None => true,
                },
                follow_symlinks: false,
            },
        ),
    }
}


// ---------------------------------------------------------------------------
// When a mutation is performed.
// ---------------------------------------------------------------------------
/// A write is performed only on its own target, with the decoded payload,
/// not through a symlink, after the target passed the attachment check
/// (which confines it to `CODEX_HOME/attachments`), and with the local
/// filesystem configured.
pub proof fn write_performed_only_after_checks(
    env: HandlerEnv,
    codex_home: Seq<Seq<u8>>,
    path: Seq<Seq<u8>>,
    data_base64: Seq<char>,
)
    requires
        write_file_decision(env, codex_home, path, data_base64) is Ok,
        wf_components(path),
    ensures
        crate::fs_processor::base64_standard_decoding(data_base64) is Ok,
        write_file_decision(env, codex_home, path, data_base64) == DecisionView::Ok(
            MutationOpView::WriteFile {
                path,
                bytes: crate::fs_processor::base64_standard_decoding(data_base64)->Ok_0,
                follow_symlinks: false,
            },
        ),
        validate_attachment_mutation_spec(env.fs, codex_home, path, "writeFile"@) == OutcomeView::Ok(
            path,
        ),
        env.file_system_available,
{
    crate::attachments::accepted_mutation_stays_in_attachments(env.fs, codex_home, path, "writeFile"@);
}

/// A directory is created only at its own path, not through a symlink,
/// after the path passed the attachment check, and with the local
/// filesystem configured.
pub proof fn create_directory_performed_only_after_checks(
    env: HandlerEnv,
    codex_home: Seq<Seq<u8>>,
    path: Seq<Seq<u8>>,
    recursive: Option<bool>,
)
    requires
        create_directory_decision(env, codex_home, path, recursive) is Ok,
        wf_components(path),
    ensures
        create_directory_decision(env, codex_home, path, recursive)->Ok_0 matches MutationOpView::CreateDirectory {
            path: p,
            follow_symlinks: f,
            ..
        } && p == path && !f,
        validate_attachment_mutation_spec(env.fs, codex_home, path, "createDirectory"@)
            == OutcomeView::Ok(path),
        env.file_system_available,
{
    crate::attachments::accepted_mutation_stays_in_attachments(
        env.fs,
        codex_home,
        path,
        "createDirectory"@,
    );
}

/// A copy is performed only between its own source and destination, after
/// the source passed the attachment check and was found to be a regular file
/// or a directory, then the destination passed the attachment check, and
/// with the local filesystem configured.
pub proof fn copy_performed_only_after_checks(
    env: HandlerEnv,
    codex_home: Seq<Seq<u8>>,
    source: Seq<Seq<u8>>,
    destination: Seq<Seq<u8>>,
    recursive: bool,
)
    requires
        copy_decision(env, codex_home, source, destination, recursive) is Ok,
        wf_components(source),
        wf_components(destination),
    ensures
        copy_decision(env, codex_home, source, destination, recursive) == DecisionView::Ok(
            MutationOpView::Copy { source, destination, recursive },
        ),
        validate_attachment_mutation_spec(env.fs, codex_home, source, "copy"@) == OutcomeView::Ok(
            source,
        ),
        (env.source_kind)(source) matches Ok(k) && (k is Directory || k is File),
        validate_attachment_mutation_spec(env.fs, codex_home, destination, "copy"@)
            == OutcomeView::Ok(destination),
        env.file_system_available,
{
    crate::attachments::accepted_mutation_stays_in_attachments(env.fs, codex_home, source, "copy"@);
    crate::attachments::accepted_mutation_stays_in_attachments(
        env.fs,
        codex_home,
        destination,
        "copy"@,
    );
}

// ---------------------------------------------------------------------------
// When a mutation goes ahead.
// ---------------------------------------------------------------------------
/// A write whose payload decodes, whose target passes the attachment check,
/// and with the local filesystem configured, is performed: the decoded bytes
/// are written at the target, not through a symlink.
pub proof fn checked_write_is_performed(
    env: HandlerEnv,
    codex_home: Seq<Seq<u8>>,
    path: Seq<Seq<u8>>,
    data_base64: Seq<char>,
)
    requires
        crate::fs_processor::base64_standard_decoding(data_base64) is Ok,
        validate_attachment_mutation_spec(env.fs, codex_home, path, "writeFile"@) is Ok,
        env.file_system_available,
    ensures
        write_file_decision(env, codex_home, path, data_base64) == DecisionView::Ok(
            MutationOpView::WriteFile {
                path,
                bytes: crate::fs_processor::base64_standard_decoding(data_base64)->Ok_0,
                follow_symlinks: false,
            },
        ),
{
}

/// A directory creation whose path passes the attachment check, with the
/// local filesystem configured, is performed at that path, not through a
/// symlink, and recursive exactly as the request says: `recursive: b` gives
/// `b`, and a request that does not say is recursive.
pub proof fn checked_directory_creation_keeps_its_recursion(
    env: HandlerEnv,
    codex_home: Seq<Seq<u8>>,
    path: Seq<Seq<u8>>,
    recursive: Option<bool>,
)
    requires
        validate_attachment_mutation_spec(env.fs, codex_home, path, "createDirectory"@) is Ok,
        env.file_system_available,
    ensures
        recursive matches Some(b) ==> create_directory_decision(env, codex_home, path, recursive)
            == DecisionView::Ok(
            MutationOpView::CreateDirectory { path, recursive: b, follow_symlinks: false },
        ),
        recursive is None ==> create_directory_decision(env, codex_home, path, recursive)
            == DecisionView::Ok(
            MutationOpView::CreateDirectory { path, recursive: true, follow_symlinks: false },
        ),
{
}

/// Whatever else is decided, an accepted directory creation is recursive
/// exactly as the request says, and recursive when it does not say.
pub proof fn directory_creation_recursion_follows_the_request(
    env: HandlerEnv,
    codex_home: Seq<Seq<u8>>,
    path: Seq<Seq<u8>>,
    recursive: Option<bool>,
)
    requires
        create_directory_decision(env, codex_home, path, recursive) is Ok,
    ensures
        create_directory_decision(env, codex_home, path, recursive)->Ok_0 matches MutationOpView::CreateDirectory {
            recursive: r,
            ..
        } && (recursive matches Some(b) ==> r == b) && (recursive is None ==> r),
{
}

/// A copy whose source passes the attachment check and is a regular file or
/// a directory, whose destination passes the attachment check, and with the
/// local filesystem configured, is performed between the two, as recursive
/// as the request says.
pub proof fn checked_copy_is_performed(
    env: HandlerEnv,
    codex_home: Seq<Seq<u8>>,
    source: Seq<Seq<u8>>,
    destination: Seq<Seq<u8>>,
    recursive: bool,
)
    requires
        validate_attachment_mutation_spec(env.fs, codex_home, source, "copy"@) == OutcomeView::Ok(
            source,
        ),
        (env.source_kind)(source) matches Ok(k) && (k is Directory || k is File),
        validate_attachment_mutation_spec(env.fs, codex_home, destination, "copy"@)
            == OutcomeView::Ok(destination),
        env.file_system_available,
    ensures
        copy_decision(env, codex_home, source, destination, recursive) == DecisionView::Ok(
            MutationOpView::Copy { source, destination, recursive },
        ),
{
}

// ---------------------------------------------------------------------------
// The machine.
// ---------------------------------------------------------------------------
pub enum FlowStage {
    /// The target of a write or directory creation is being checked.
    Target { check: AttachmentPathCheck, op: MutationOp },
    /// The copy source is being checked.
    CopySource { check: AttachmentPathCheck, destination: NativePath, options: CopyOptions },
    /// Waiting for the metadata of the checked copy source.
    CopySourceKind { source: NativePath, destination: NativePath, options: CopyOptions },
    /// The copy destination is being checked.
    CopyDestination { source: NativePath, check: AttachmentPathCheck, options: CopyOptions },
    /// Waiting to learn whether the local filesystem is configured.
    FileSystem { op: MutationOp },
    Done,
}

/// A mutating filesystem request on its way through its checks.
pub struct MutationFlow {
    codex_home: NativePath,
    stage: FlowStage,
}

impl MutationFlow {
    pub closed spec fn codex_home_view(&self) -> Seq<Seq<u8>> {
        self.codex_home@
    }

    pub closed spec fn is_finished(&self) -> bool {
        self.stage is Done
    }

    pub closed spec fn pending(&self) -> HandlerQueryView {
        match self.stage {
            FlowStage::Target { check, .. } => HandlerQueryView::Check(check.pending()),
            FlowStage::CopySource { check, .. } => HandlerQueryView::Check(check.pending()),
            FlowStage::CopySourceKind { source, .. } => HandlerQueryView::SourceMetadata(source@),
            FlowStage::CopyDestination { check, .. } => HandlerQueryView::Check(check.pending()),
            FlowStage::FileSystem { .. } => HandlerQueryView::FileSystem,
            FlowStage::Done => HandlerQueryView::FileSystem,
        }
    }

    /// The answer has the kind that the pending query asks for.
    pub open spec fn accepts(&self, answer: HandlerAnswerView) -> bool {
        match self.pending() {
            HandlerQueryView::Check(q) => answer matches HandlerAnswerView::Check(a)
                && query_accepts(q, a),
            HandlerQueryView::SourceMetadata(_) => answer is SourceMetadata,
            HandlerQueryView::FileSystem => answer is FileSystem,
        }
    }

    /// What the handler decides from here against `env`.
    pub closed spec fn decision(&self, env: HandlerEnv) -> DecisionView {
        let home = self.codex_home@;
        match self.stage {
            FlowStage::Target { check, op } => match check.outcome(env.fs) {
                Err(e) => Err(e),
                Ok(_) => file_system_step(env, op.view_of()),
            },
            FlowStage::CopySource { check, destination, options } => match check.outcome(env.fs) {
                Err(e) => Err(e),
                Ok(s) => copy_source_kind_step(env, home, s, destination@, options.recursive),
            },
            FlowStage::CopySourceKind { source, destination, options } => copy_source_kind_step(
                env,
                home,
                source@,
                destination@,
                options.recursive,
            ),
            FlowStage::CopyDestination { source, check, options } => match check.outcome(env.fs) {
                Err(e) => Err(e),
                Ok(d) => file_system_step(
                    env,
                    MutationOpView::Copy { source: source@, destination: d, recursive: options.recursive },
                ),
            },
            FlowStage::FileSystem { op } => file_system_step(env, op.view_of()),
            FlowStage::Done => Err(internal_error_view(Seq::empty())),
        }
    }

    /// A bound on the number of steps left.
    pub closed spec fn steps_left(&self) -> int {
        match self.stage {
            FlowStage::Target { check, .. } => check.steps_left() + 2,
            FlowStage::CopySource { check, destination, .. } => check.steps_left() + 2
                * destination@.len() + 14,
            FlowStage::CopySourceKind { destination, .. } => 2 * destination@.len() as int + 13,
            FlowStage::CopyDestination { check, .. } => check.steps_left() + 2,
            FlowStage::FileSystem { .. } => 1int,
            FlowStage::Done => 0int,
        }
    }

    pub closed spec fn well_formed(&self) -> bool {
        match self.stage {
            FlowStage::Target { check, .. } => !check.is_finished() && check.well_formed(),
            FlowStage::CopySource { check, .. } => !check.is_finished() && check.well_formed(),
            FlowStage::CopyDestination { check, .. } => !check.is_finished() && check.well_formed(),
            _ => true,
        }
    }

    /// The handler for one checked target (a write or a directory creation).
    pub fn for_target(
        codex_home: &NativePath,
        check: AttachmentPathCheck,
        first_query: FsQuery,
        op: MutationOp,
    ) -> (res: (MutationFlow, HandlerQuery))
        requires
            !check.is_finished(),
            check.well_formed(),
            first_query.view_of() == check.pending(),
        ensures
            res.0.codex_home_view() == codex_home@,
            !res.0.is_finished(),
            res.0.well_formed(),
            res.1.view_of() == res.0.pending(),
            forall|env: HandlerEnv|
                #[trigger] res.0.decision(env) == match check.outcome(env.fs) {
                    Err(e) => Err(e),
                    Ok(_) => file_system_step(env, op.view_of()),
                },
    {
        (
            MutationFlow {
                codex_home: codex_home.duplicate(),
                stage: FlowStage::Target { check, op },
            },
            HandlerQuery::Check(first_query),
        )
    }

    /// The handler of a copy: the source is checked first.
    pub fn for_copy(
        codex_home: &NativePath,
        source: &NativePath,
        destination: NativePath,
        options: CopyOptions,
    ) -> (res: (MutationFlow, HandlerQuery))
        ensures
            res.0.codex_home_view() == codex_home@,
            !res.0.is_finished(),
            res.0.well_formed(),
            res.1.view_of() == res.0.pending(),
            forall|env: HandlerEnv|
                #[trigger] res.0.decision(env) == copy_decision(
                    env,
                    codex_home@,
                    source@,
                    destination@,
                    options.recursive,
                ),
    {
        let (check, first_query) = AttachmentPathCheck::start(codex_home, source, "copy");
        (
            MutationFlow {
                codex_home: codex_home.duplicate(),
                stage: FlowStage::CopySource { check, destination, options },
            },
            HandlerQuery::Check(first_query),
        )
    }

    fn finish(codex_home: NativePath, error: JSONRPCErrorError) -> (res: (MutationFlow, HandlerStep))
        ensures
            res.0.codex_home_view() == codex_home@,
            res.0.is_finished(),
            res.0.well_formed(),
            res.0.steps_left() == 0,
            res.1 == HandlerStep::Finished(error),
    {
        (MutationFlow { codex_home, stage: FlowStage::Done }, HandlerStep::Finished(error))
    }

    fn ask_file_system(codex_home: NativePath, op: MutationOp) -> (res: (MutationFlow, HandlerStep))
        ensures
            res.0.codex_home_view() == codex_home@,
            !res.0.is_finished(),
            res.0.well_formed(),
            res.0.steps_left() == 1,
            res.0.pending() == HandlerQueryView::FileSystem,
            res.1 == HandlerStep::Query(HandlerQuery::FileSystem),
            forall|env: HandlerEnv| #[trigger] res.0.decision(env) == file_system_step(env, op.view_of()),
    {
        (MutationFlow { codex_home, stage: FlowStage::FileSystem { op } }, HandlerStep::Query(HandlerQuery::FileSystem))
    }

    /// Feeds the answer to the pending query; gives the handler as it then
    /// stands and what it does next.  Against any environment that gave this
    /// answer, the handler reaches the same decision: it hands out an
    /// operation only when the decision is to perform it, and refuses with
    /// the decision's error otherwise.
    pub fn advance(self, answer: HandlerAnswer) -> (res: (MutationFlow, HandlerStep))
        requires
            !self.is_finished(),
            self.well_formed(),
            self.accepts(answer.view_of()),
        ensures
            res.0.codex_home_view() == self.codex_home_view(),
            res.0.well_formed(),
            res.0.steps_left() < self.steps_left(),
            res.1 is Query <==> !res.0.is_finished(),
            res.1 matches HandlerStep::Query(q) ==> q.view_of() == res.0.pending(),
            forall|env: HandlerEnv|
                #[trigger] handler_answers(env, self.pending(), answer.view_of()) ==> match res.1 {
                    HandlerStep::Finished(e) => self.decision(env) == DecisionView::Err(e@),
                    HandlerStep::Perform(op) => self.decision(env) == DecisionView::Ok(op.view_of()),
                    HandlerStep::Query(_) => res.0.decision(env) == self.decision(env),
                },
    {
        let MutationFlow { codex_home, stage } = self;
        match stage {
            FlowStage::Target { check, op } => {
                match answer {
                    HandlerAnswer::Check(fs_answer) => {
                        let (next, step) = check.advance(fs_answer);
                        match step {
                            ValidationStep::Finished(Err(e)) => Self::finish(codex_home, e),
                            ValidationStep::Finished(Ok(_)) => Self::ask_file_system(codex_home, op),
                            ValidationStep::Query(q) => (
                                MutationFlow { codex_home, stage: FlowStage::Target { check: next, op } },
                                HandlerStep::Query(HandlerQuery::Check(q)),
                            ),
                        }
                    },
                    _ => {
                        proof {
                            assert(false);
                        }
                        Self::finish(codex_home, internal_error(String::new()))
                    },
                }
            },
            FlowStage::CopySource { check, destination, options } => {
                match answer {
                    HandlerAnswer::Check(fs_answer) => {
                        let (next, step) = check.advance(fs_answer);
                        match step {
                            ValidationStep::Finished(Err(e)) => Self::finish(codex_home, e),
                            ValidationStep::Finished(Ok(source)) => {
                                let query = HandlerQuery::SourceMetadata(source.duplicate());
                                (
                                    MutationFlow {
                                        codex_home,
                                        stage: FlowStage::CopySourceKind { source, destination, options },
                                    },
                                    HandlerStep::Query(query),
                                )
                            },
                            ValidationStep::Query(q) => (
                                MutationFlow {
                                    codex_home,
                                    stage: FlowStage::CopySource { check: next, destination, options },
                                },
                                HandlerStep::Query(HandlerQuery::Check(q)),
                            ),
                        }
                    },
                    _ => {
                        proof {
                            assert(false);
                        }
                        Self::finish(codex_home, internal_error(String::new()))
                    },
                }
            },
            FlowStage::CopySourceKind { source, destination, options } => {
                match answer {
                    HandlerAnswer::SourceMetadata(metadata) => {
                        match crate::fs_processor::FsRequestProcessor::validate_attachment_source(
                            "copy",
                            source,
                            metadata,
                        ) {
                            Err(e) => Self::finish(codex_home, e),
                            Ok(source) => {
                                let (check, first_query) = AttachmentPathCheck::start(
                                    &codex_home,
                                    &destination,
                                    "copy",
                                );
                                (
                                    MutationFlow {
                                        codex_home,
                                        stage: FlowStage::CopyDestination { source, check, options },
                                    },
                                    HandlerStep::Query(HandlerQuery::Check(first_query)),
                                )
                            },
                        }
                    },
                    _ => {
                        proof {
                            assert(false);
                        }
                        Self::finish(codex_home, internal_error(String::new()))
                    },
                }
            },
            FlowStage::CopyDestination { source, check, options } => {
                match answer {
                    HandlerAnswer::Check(fs_answer) => {
                        let (next, step) = check.advance(fs_answer);
                        match step {
                            ValidationStep::Finished(Err(e)) => Self::finish(codex_home, e),
                            ValidationStep::Finished(Ok(destination)) => Self::ask_file_system(
                                codex_home,
                                MutationOp::Copy { source, destination, options },
                            ),
                            ValidationStep::Query(q) => (
                                MutationFlow {
                                    codex_home,
                                    stage: FlowStage::CopyDestination { source, check: next, options },
                                },
                                HandlerStep::Query(HandlerQuery::Check(q)),
                            ),
                        }
                    },
                    _ => {
                        proof {
                            assert(false);
                        }
                        Self::finish(codex_home, internal_error(String::new()))
                    },
                }
            },
            FlowStage::FileSystem { op } => {
                match answer {
                    HandlerAnswer::FileSystem(true) => (
                        MutationFlow { codex_home, stage: FlowStage::Done },
                        HandlerStep::Perform(op),
                    ),
                    HandlerAnswer::FileSystem(false) => Self::finish(
                        codex_home,
                        internal_error(String::from_str("local filesystem is not configured")),
                    ),
                    _ => {
                        proof {
                            assert(false);
                        }
                        Self::finish(codex_home, internal_error(String::new()))
                    },
                }
            },
            FlowStage::Done => {
                proof {
                    assert(false);
                }
                Self::finish(codex_home, internal_error(String::new()))
            },
        }
    }
}

} // verus!
