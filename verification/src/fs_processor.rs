//! The decisions of the app server's filesystem request handlers.  The
//! handlers' filesystem calls happen outside; what they compute, check and
//! answer stands here.

use base64::engine::general_purpose::STANDARD;
use base64::Engine;
use vstd::prelude::*;

use crate::app_server_protocol::{
    FsCopyParams, FsCreateDirectoryParams, FsGetMetadataResponse, FsReadDirectoryEntry,
    FsReadDirectoryResponse, FsReadFileResponse, FsRemoveParams, FsRemoveResponse,
    FsWriteFileParams,
};
use crate::handler_flow::{
    copy_decision, create_directory_decision, write_file_decision, CopyOptions,
    CreateDirectoryOptions, DecisionView, HandlerEnv, HandlerQuery, MutationFlow, MutationOp,
    MutationOpView, WriteFileOptions,
};
use crate::attachments::{
    validate_attachment_mutation_spec, AttachmentPathCheck, EntryKind, FsModel, FsQuery,
};
use crate::native_path::{wf_components, NativePath};
use crate::path_uri::{is_absolute_components, not_absolute_message, PathUri};
use crate::rpc_error::{
    fs_invalid_request, fs_invalid_request_with, fs_message, internal_error,
    internal_error_view, invalid_request, invalid_request_view, JSONRPCErrorError,
};

verus! {

/// The standard base64 encoding (with padding) of `bytes`, as the `base64`
/// crate computes it.
pub uninterp spec fn base64_standard_encoding(bytes: Seq<u8>) -> Seq<char>;

/// The standard base64 decoding of `text` as the `base64` crate computes it:
/// the bytes, or the message of the decoding error.
pub uninterp spec fn base64_standard_decoding(text: Seq<char>) -> Result<Seq<u8>, Seq<char>>;

/// Calls `STANDARD.encode` of the `base64` crate.  Claims that the result is
/// the encoding of `bytes`, and that decoding it with the same engine gives
/// `bytes` back.
#[verifier::external_body]
fn encode_base64(bytes: &[u8]) -> (res: String)
    requires
        bytes@.len() <= usize::MAX / 2,
    ensures
        res@ == base64_standard_encoding(bytes@),
        base64_standard_decoding(res@) is Ok,
        base64_standard_decoding(res@)->Ok_0 == bytes@,
{
    STANDARD.encode(bytes)
}

/// Calls `STANDARD.decode` of the `base64` crate.  Claims that the bytes, or
/// the message of the `DecodeError`, are the decoding of `text`.
#[verifier::external_body]
fn decode_base64(text: &str) -> (res: Result<Vec<u8>, String>)
    ensures
        res is Ok <==> base64_standard_decoding(text@) is Ok,
        res matches Ok(bytes) ==> base64_standard_decoding(text@)->Ok_0 == bytes@,
        res matches Err(message) ==> base64_standard_decoding(text@)->Err_0 == message@,
{
    STANDARD.decode(text).map_err(|err| err.to_string())
}

/// What the metadata handler reads of a filesystem entry.
pub struct FileMetadata {
    pub is_directory: bool,
    pub is_file: bool,
    pub is_symlink: bool,
    pub created_at_ms: i64,
    pub modified_at_ms: i64,
}

/// What the directory handler reads of one entry.
pub struct ReadDirectoryEntry {
    pub file_name: String,
    pub is_directory: bool,
    pub is_file: bool,
}

/// A started attachment check and its first query.
pub open spec fn check_started(
    check: AttachmentPathCheck,
    first_query: FsQuery,
    codex_home: Seq<Seq<u8>>,
    path: Seq<Seq<u8>>,
    operation: Seq<char>,
) -> bool {
    &&& !check.is_finished()
    &&& check.well_formed()
    &&& check.operation_view() == operation
    &&& check.path_view() == path
    &&& wf_components(check.path_view())
    &&& first_query.view_of() == check.pending()
    &&& forall|fs: FsModel|
        #[trigger] check.outcome(fs) == validate_attachment_mutation_spec(
            fs,
            codex_home,
            path,
            operation,
        )
}

/// The filesystem request handlers of one app server, with its home directory.
pub struct FsRequestProcessor {
    codex_home: NativePath,
}

impl FsRequestProcessor {
    pub closed spec fn codex_home_view(&self) -> Seq<Seq<u8>> {
        self.codex_home@
    }

    pub fn new(codex_home: NativePath) -> (res: FsRequestProcessor)
        ensures
            res.codex_home_view() == codex_home@,
    {
        FsRequestProcessor { codex_home }
    }

    /// The handlers need the local filesystem; without one they answer with
    /// an internal error.
    pub fn file_system(&self, local_filesystem_configured: bool) -> (res: Result<
        (),
        JSONRPCErrorError,
    >)
        ensures
            local_filesystem_configured <==> res is Ok,
            !local_filesystem_configured ==> (res matches Err(e) && e@ == internal_error_view(
                "local filesystem is not configured"@,
            )),
    {
        if local_filesystem_configured {
            Ok(())
        } else {
            Err(internal_error(String::from_str("local filesystem is not configured")))
        }
    }

    /// Starts the check that `path` may be mutated by `operation`: the path
    /// must be absolute, then it goes through the attachment check.
    pub fn validate_attachment_mutation(&self, path: &PathUri, operation: &str) -> (res: Result<
        (AttachmentPathCheck, FsQuery),
        JSONRPCErrorError,
    >)
        ensures
            is_absolute_components(path@) <==> res is Ok,
            !is_absolute_components(path@) ==> (res matches Err(e) && e@ == invalid_request_view(
                fs_message(operation@, " has an invalid path: "@) + not_absolute_message(),
            )),
            res matches Ok(started) ==> check_started(
                started.0,
                started.1,
                self.codex_home_view(),
                path@,
                operation@,
            ),
    {
        match path.to_abs_path() {
            Err(err) => Err(fs_invalid_request_with(operation, " has an invalid path: ", err.as_str())),
            Ok(abs) => {
                let native = abs.into_native_path();
                Ok(AttachmentPathCheck::start(&self.codex_home, &native, operation))
            },
        }
    }

    /// A copy source that passed the attachment check must be a regular file
    /// or a directory (its own metadata, not that of a symlink's target).
    pub fn validate_attachment_source(
        operation: &str,
        checked_path: NativePath,
        metadata: Result<EntryKind, String>,
    ) -> (res: Result<NativePath, JSONRPCErrorError>)
        ensures
            match metadata {
                Err(e) => res matches Err(r) && r@ == invalid_request_view(
                    fs_message(operation@, " source must exist inside CODEX_HOME/attachments: "@)
                        + e@,
                ),
                Ok(EntryKind::Directory) | Ok(EntryKind::File) => res matches Ok(p) && p@
                    == checked_path@,
                Ok(_) => res matches Err(r) && r@ == invalid_request_view(
                    fs_message(
                        operation@,
                        " source must be a regular file or directory inside CODEX_HOME/attachments"@,
                    ),
                ),
            },
    {
        match metadata {
            Err(e) => Err(
                fs_invalid_request_with(
                    operation,
                    " source must exist inside CODEX_HOME/attachments: ",
                    e.as_str(),
                ),
            ),
            Ok(EntryKind::Directory) | Ok(EntryKind::File) => Ok(checked_path),
            Ok(_) => Err(
                fs_invalid_request(
                    operation,
                    " source must be a regular file or directory inside CODEX_HOME/attachments",
                ),
            ),
        }
    }

    /// The answer to a read: the file's bytes in standard base64.  When the
    /// file holds what an accepted `fs/writeFile` wrote there, the answer's
    /// payload decodes to what that write's payload decoded to.
    pub fn read_file_response(contents: &[u8]) -> (res: FsReadFileResponse)
        requires
            contents@.len() <= usize::MAX / 2,
        ensures
            res.data_base64@ == base64_standard_encoding(contents@),
            base64_standard_decoding(res.data_base64@) is Ok,
            base64_standard_decoding(res.data_base64@)->Ok_0 == contents@,
            forall|env: HandlerEnv, home: Seq<Seq<u8>>, path: Seq<Seq<u8>>, written: Seq<char>|
                #[trigger] write_file_decision(env, home, path, written) matches Ok(
                    MutationOpView::WriteFile { bytes, .. },
                ) && bytes == contents@ ==> base64_standard_decoding(res.data_base64@)
                    == base64_standard_decoding(written),
    {
        FsReadFileResponse { data_base64: encode_base64(contents) }
    }

    /// The bytes that a write carries, decoded from standard base64.
    pub fn decode_write_payload(data_base64: &str) -> (res: Result<Vec<u8>, JSONRPCErrorError>)
        ensures
            base64_standard_decoding(data_base64@) is Ok <==> res is Ok,
            res matches Ok(bytes) ==> base64_standard_decoding(data_base64@)->Ok_0 == bytes@,
            res matches Err(e) ==> e@ == invalid_request_view(
                "fs/writeFile requires valid base64 dataBase64: "@ + base64_standard_decoding(
                    data_base64@,
                )->Err_0,
            ),
    {
        match decode_base64(data_base64) {
            Ok(bytes) => Ok(bytes),
            Err(message) => {
                let mut text = String::from_str("fs/writeFile requires valid base64 dataBase64: ");
                text.append(message.as_str());
                Err(invalid_request(text))
            },
        }
    }

    /// `fs/writeFile`: the payload is decoded first; then the handler checks
    /// the target for the operation `writeFile`, requires the local
    /// filesystem, and only then writes, never through a symlink.
    pub fn write_file(&self, params: FsWriteFileParams) -> (res: Result<
        (MutationFlow, HandlerQuery),
        JSONRPCErrorError,
    >)
        ensures
            base64_standard_decoding(params.data_base64@) is Ok <==> res is Ok,
            res matches Err(e) ==> forall|env: HandlerEnv|
                #[trigger] write_file_decision(
                    env,
                    self.codex_home_view(),
                    params.path@,
                    params.data_base64@,
                ) == DecisionView::Err(e@),
            res matches Ok(started) ==> {
                &&& started.0.codex_home_view() == self.codex_home_view()
                &&& !started.0.is_finished()
                &&& started.0.well_formed()
                &&& started.1.view_of() == started.0.pending()
                &&& forall|env: HandlerEnv|
                    #[trigger] started.0.decision(env) == write_file_decision(
                        env,
                        self.codex_home_view(),
                        params.path@,
                        params.data_base64@,
                    )
            },
    {
        let bytes = match Self::decode_write_payload(params.data_base64.as_str()) {
            Ok(bytes) => bytes,
            Err(e) => return Err(e),
        };
        let native = params.path.into_native_path();
        let (check, first_query) = AttachmentPathCheck::start(&self.codex_home, &native, "writeFile");
        let op = MutationOp::WriteFile {
            path: native,
            bytes,
            options: WriteFileOptions { follow_symlinks: false },
        };
        Ok(MutationFlow::for_target(&self.codex_home, check, first_query, op))
    }

    /// `fs/createDirectory`: the handler checks the path for the operation
    /// `createDirectory`, requires the local filesystem, and only then
    /// creates the directory, recursively unless the request says otherwise,
    /// never through a symlink.
    pub fn create_directory(&self, params: FsCreateDirectoryParams) -> (res: (
        MutationFlow,
        HandlerQuery,
    ))
        ensures
            res.0.codex_home_view() == self.codex_home_view(),
            !res.0.is_finished(),
            res.0.well_formed(),
            res.1.view_of() == res.0.pending(),
            forall|env: HandlerEnv|
                #[trigger] res.0.decision(env) == create_directory_decision(
                    env,
                    self.codex_home_view(),
                    params.path@,
                    params.recursive,
                ),
    {
        let recursive = match params.recursive {
            Some(r) => r,
            None => true,
        };
        let native = params.path.into_native_path();
        let (check, first_query) = AttachmentPathCheck::start(
            &self.codex_home,
            &native,
            "createDirectory",
        );
        let op = MutationOp::CreateDirectory {
            path: native,
            options: CreateDirectoryOptions { recursive, follow_symlinks: false },
        };
        MutationFlow::for_target(&self.codex_home, check, first_query, op)
    }

    /// `fs/copy`: the handler checks the source for the operation `copy`,
    /// then that it is a regular file or a directory, then the destination,
    /// requires the local filesystem, and only then copies.
    pub fn copy(&self, params: FsCopyParams) -> (res: (MutationFlow, HandlerQuery))
        ensures
            res.0.codex_home_view() == self.codex_home_view(),
            !res.0.is_finished(),
            res.0.well_formed(),
            res.1.view_of() == res.0.pending(),
            forall|env: HandlerEnv|
                #[trigger] res.0.decision(env) == copy_decision(
                    env,
                    self.codex_home_view(),
                    params.source_path@,
                    params.destination_path@,
                    params.recursive,
                ),
    {
        let source = params.source_path.into_native_path();
        let destination = params.destination_path.into_native_path();
        MutationFlow::for_copy(
            &self.codex_home,
            &source,
            destination,
            CopyOptions { recursive: params.recursive },
        )
    }

    /// The answer to a metadata request: the entry's metadata, field by field.
    pub fn get_metadata_response(metadata: FileMetadata) -> (res: FsGetMetadataResponse)
        ensures
            res.is_directory == metadata.is_directory,
            res.is_file == metadata.is_file,
            res.is_symlink == metadata.is_symlink,
            res.created_at_ms == metadata.created_at_ms,
            res.modified_at_ms == metadata.modified_at_ms,
    {
        FsGetMetadataResponse {
            is_directory: metadata.is_directory,
            is_file: metadata.is_file,
            is_symlink: metadata.is_symlink,
            created_at_ms: metadata.created_at_ms,
            modified_at_ms: metadata.modified_at_ms,
        }
    }

    /// The answer to a directory listing: the entries in the order given,
    /// each with its name and type.
    pub fn read_directory_response(entries: Vec<ReadDirectoryEntry>) -> (res:
        FsReadDirectoryResponse)
        ensures
            res.entries@.len() == entries@.len(),
            forall|i: int|
                0 <= i < entries@.len() ==> {
                    &&& (#[trigger] res.entries@[i]).file_name@ == entries@[i].file_name@
                    &&& res.entries@[i].is_directory == entries@[i].is_directory
                    &&& res.entries@[i].is_file == entries@[i].is_file
                },
    {
        let mut out: Vec<FsReadDirectoryEntry> = Vec::new();
        let n: usize = entries.len();
        let mut i: usize = 0;
        while i < n
            invariant
                n == entries@.len(),
                i <= n,
                out@.len() == i,
                forall|j: int|
                    0 <= j < i ==> {
                        &&& (#[trigger] out@[j]).file_name@ == entries@[j].file_name@
                        &&& out@[j].is_directory == entries@[j].is_directory
                        &&& out@[j].is_file == entries@[j].is_file
                    },
            decreases n - i,
        {
            let entry = &entries[i];
            out.push(
                FsReadDirectoryEntry {
                    file_name: String::from_str(entry.file_name.as_str()),
                    is_directory: entry.is_directory,
                    is_file: entry.is_file,
                },
            );
            i = i + 1;
        }
        FsReadDirectoryResponse { entries: out }
    }

    /// Removal is refused for every request: this RPC has no scoped
    /// deletion authority.
    pub fn remove(&self, params: FsRemoveParams) -> (res: Result<FsRemoveResponse, JSONRPCErrorError>)
        ensures
            res matches Err(e) && e@ == invalid_request_view(
                "fs/remove is disabled because this RPC has no scoped deletion authority"@,
            ),
    {
        Err(
            invalid_request(
                String::from_str(
                    "fs/remove is disabled because this RPC has no scoped deletion authority",
                ),
            ),
        )
    }
}

} // verus!
