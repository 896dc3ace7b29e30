//! Absolute paths and the path form that the protocol carries.

use vstd::prelude::*;

use crate::native_path::{root_component, NativePath};

verus! {

pub open spec fn is_absolute_components(cs: Seq<Seq<u8>>) -> bool {
    cs.len() > 0 && cs[0] == root_component()
}

/// A path that starts at the root directory.
#[derive(Debug)]
pub struct AbsolutePathBuf {
    path: NativePath,
}

impl AbsolutePathBuf {
    #[verifier::type_invariant]
    pub open spec fn starts_at_root(&self) -> bool {
        is_absolute_components(self@)
    }

    /// The path, when it is absolute.
    pub fn from_native_path(path: NativePath) -> (res: Option<AbsolutePathBuf>)
        ensures
            is_absolute_components(path@) ==> (res matches Some(p) && p@ == path@),
            !is_absolute_components(path@) ==> res is None,
    {
        if path.is_absolute() {
            Some(AbsolutePathBuf { path })
        } else {
            None
        }
    }

    pub fn as_native_path(&self) -> (res: &NativePath)
        ensures
            res@ == self@,
    {
        &self.path
    }

    pub fn into_native_path(self) -> (res: NativePath)
        ensures
            res@ == self@,
    {
        self.path
    }
}

impl View for AbsolutePathBuf {
    type V = Seq<Seq<u8>>;

    closed spec fn view(&self) -> Seq<Seq<u8>> {
        self.path@
    }
}

/// A path as the protocol carries it; it need not be absolute.
pub struct PathUri {
    path: NativePath,
}

impl View for PathUri {
    type V = Seq<Seq<u8>>;

    closed spec fn view(&self) -> Seq<Seq<u8>> {
        self.path@
    }
}

/// The message of a path that cannot be used as an absolute path.
pub open spec fn not_absolute_message() -> Seq<char> {
    "path is not absolute"@
}

impl PathUri {
    pub fn from_abs_path(path: &AbsolutePathBuf) -> (res: PathUri)
        ensures
            res@ == path@,
    {
        PathUri { path: path.as_native_path().duplicate() }
    }

    pub fn from_native_path(path: NativePath) -> (res: PathUri)
        ensures
            res@ == path@,
    {
        PathUri { path }
    }

    /// The path as an absolute path; fails on a relative one.
    pub fn to_abs_path(&self) -> (res: Result<AbsolutePathBuf, String>)
        ensures
            is_absolute_components(self@) ==> (res matches Ok(p) && p@ == self@),
            !is_absolute_components(self@) ==> (res matches Err(e) && e@
                == not_absolute_message()),
    {
        match AbsolutePathBuf::from_native_path(self.path.duplicate()) {
            Some(p) => Ok(p),
            None => Err(String::from_str("path is not absolute")),
        }
    }

    pub fn as_native_path(&self) -> (res: &NativePath)
        ensures
            res@ == self@,
    {
        &self.path
    }
}

} // verus!
