//! File-system settings: the host's backend, the working directory that opened paths resolve
//! against, and which path an open asks the backend for. The backend's own work (opening a
//! path) is the host's.
use vstd::prelude::*;

use crate::blob::opt_view;
use crate::text::owned;

verus! {

/// `RelativePath::new(base).join_normalized(path)`: `path` joined onto `base`, with `.`
/// dropped and `..` folded into the part before it.
pub uninterp spec fn joined_normalized(base: Seq<char>, path: Seq<char>) -> Seq<char>;

/// `relative_path::RelativePath::join_normalized`, returned as a string.
#[verifier::external_body]
fn join_normalized(base: &str, path: &str) -> (r: String)
    ensures
        r@ == joined_normalized(base@, path@),
{
    relative_path::RelativePath::new(base).join_normalized(path).into_string()
}

/// Why an open could not be started.
#[derive(Debug, Clone, Copy, PartialEq, Eq, Structural)]
pub enum FsError {
    /// No backend is configured (an `Unsupported` error).
    NoBackend,
}

impl FsError {
    /// The error's message.
    pub fn message(&self) -> (s: String)
        ensures
            s@ == "No backend configured"@,
    {
        owned("No backend configured")
    }
}

/// The path that opening `path` asks the backend for: joined onto the working directory and
/// normalised when there is one, `path` as given otherwise.
pub open spec fn resolved_path(cwd: Option<Seq<char>>, path: Seq<char>) -> Seq<char> {
    match cwd {
        Some(c) => joined_normalized(c, path),
        None => path,
    }
}

/// The settings of the file system, with the host's backend of type `B`.
pub struct FileSystemSettings<B> {
    backend: Option<B>,
    cwd: Option<String>,
}

impl<B> FileSystemSettings<B> {
    /// The configured backend.
    pub closed spec fn spec_backend(&self) -> Option<B> {
        self.backend
    }

    /// The working directory.
    pub closed spec fn spec_cwd(&self) -> Option<Seq<char>> {
        opt_view(self.cwd)
    }

    /// No backend and no working directory.
    pub fn new() -> (s: Self)
        ensures
            s.spec_backend() is None,
            s.spec_cwd() is None,
    {
        FileSystemSettings { backend: None, cwd: None }
    }

    /// The settings with `backend` configured.
    pub fn with_backend(self, backend: B) -> (s: Self)
        ensures
            s.spec_backend() == Some(backend),
            s.spec_cwd() == self.spec_cwd(),
    {
        FileSystemSettings { backend: Some(backend), cwd: self.cwd }
    }

    /// The configured backend, if any.
    pub fn backend(&self) -> (b: Option<&B>)
        ensures
            match b {
                Some(x) => self.spec_backend() == Some(*x),
                None => self.spec_backend() is None,
            },
    {
        match &self.backend {
            Some(x) => Some(x),
            None => None,
        }
    }

    /// The settings with `cwd` as the working directory.
    pub fn with_cwd(self, cwd: String) -> (s: Self)
        ensures
            s.spec_cwd() == Some(cwd@),
            s.spec_backend() == self.spec_backend(),
    {
        FileSystemSettings { backend: self.backend, cwd: Some(cwd) }
    }

    /// The working directory, if any.
    pub fn cwd(&self) -> (c: Option<&String>)
        ensures
            match c {
                Some(x) => self.spec_cwd() == Some(x@),
                None => self.spec_cwd() is None,
            },
    {
        match &self.cwd {
            Some(x) => Some(x),
            None => None,
        }
    }

    /// Sets the working directory.
    pub fn set_cwd(&mut self, cwd: String)
        ensures
            final(self).spec_cwd() == Some(cwd@),
            final(self).spec_backend() == old(self).spec_backend(),
    {
        self.cwd = Some(cwd);
    }

    /// What opening `path` asks of the host: the backend to open with and the path to open,
    /// or [`FsError::NoBackend`] when none is configured.
    pub fn resolve_open(&self, path: &str) -> (r: Result<(&B, String), FsError>)
        ensures
            match r {
                Ok((b, p)) => self.spec_backend() == Some(*b) && p@ == resolved_path(self.spec_cwd(), path@),
                Err(e) => self.spec_backend() is None && e == FsError::NoBackend,
            },
    {
        let backend = match &self.backend {
            Some(b) => b,
            None => return Err(FsError::NoBackend),
        };
        let full = match &self.cwd {
            Some(c) => join_normalized(c.as_str(), path),
            None => owned(path),
        };
        Ok((backend, full))
    }
}

} // verus!
