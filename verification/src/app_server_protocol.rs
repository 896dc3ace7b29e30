//! Requests and answers of the app server's filesystem RPCs.

use vstd::prelude::*;

use crate::path_uri::AbsolutePathBuf;

verus! {

pub struct FsReadFileParams {
    pub path: AbsolutePathBuf,
}

pub struct FsReadFileResponse {
    pub data_base64: String,
}

pub struct FsWriteFileParams {
    pub path: AbsolutePathBuf,
    pub data_base64: String,
}

pub struct FsWriteFileResponse {}

pub struct FsCreateDirectoryParams {
    pub path: AbsolutePathBuf,
    pub recursive: Option<bool>,
}

pub struct FsCreateDirectoryResponse {}

pub struct FsGetMetadataParams {
    pub path: AbsolutePathBuf,
}

pub struct FsGetMetadataResponse {
    pub is_directory: bool,
    pub is_file: bool,
    pub is_symlink: bool,
    pub created_at_ms: i64,
    pub modified_at_ms: i64,
}

pub struct FsReadDirectoryParams {
    pub path: AbsolutePathBuf,
}

pub struct FsReadDirectoryEntry {
    pub file_name: String,
    pub is_directory: bool,
    pub is_file: bool,
}

pub struct FsReadDirectoryResponse {
    pub entries: Vec<FsReadDirectoryEntry>,
}

pub struct FsRemoveParams {
    pub path: AbsolutePathBuf,
    pub recursive: Option<bool>,
    pub force: Option<bool>,
}

pub struct FsRemoveResponse {}

pub struct FsCopyParams {
    pub source_path: AbsolutePathBuf,
    pub destination_path: AbsolutePathBuf,
    pub recursive: bool,
}

pub struct FsCopyResponse {}

} // verus!
