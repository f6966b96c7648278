//! The protocol between the engine and the host filesystem.
//!
//! The engine never touches the filesystem. It names the next call as a
//! [`HostCall`]; the embedding program makes that call and answers with a
//! [`HostReply`].

use crate::common::{FsError, FsErrorView};
use vstd::prelude::*;
use vstd::slice::slice_to_vec;

verus! {

/// The permission model of the platform that the host runs on.
#[derive(Clone, Copy, Debug, PartialEq, Eq, Structural)]
pub enum Platform {
    /// POSIX-like: a file carries read, write and execute bits for owner,
    /// group and others.
    Unix,
    /// A file carries a read-only attribute.
    Windows,
    /// Any other platform; only a read-only attribute is assumed.
    Other,
}

/// What a directory entry is, without following symbolic links.
#[derive(Clone, Copy, Debug, PartialEq, Eq, Structural)]
pub enum EntryKind {
    Directory,
    File,
    /// A symbolic link, device, socket or anything else.
    Other,
}

/// A copy of the bytes of a path.
pub fn copy_bytes(bytes: &Vec<u8>) -> (r: Vec<u8>)
    ensures
        r@ == bytes@,
{
    slice_to_vec(bytes.as_slice())
}

/// A call on the host filesystem that an operation asks for.
///
/// A path is held as the bytes by which the host knows it: the UTF-8 of the
/// text that was marshalled, followed, below a directory that is being
/// copied, by the names of entries as the host gave them, which need not be
/// text.
#[derive(Debug, PartialEq, Eq)]
pub enum HostCall {
    /// Create the directory and every missing ancestor; no error if it
    /// exists.
    CreateDirAll { path: Vec<u8> },
    /// Create an empty file, truncating an existing one.
    CreateFile { path: Vec<u8> },
    /// Tell whether the path, symbolic links followed, is a directory.
    QueryIsDir { path: Vec<u8> },
    /// Remove the directory with everything below it.
    RemoveDirAll { path: Vec<u8> },
    /// Remove the single file.
    RemoveFile { path: Vec<u8> },
    /// Rename `from` to `to`.
    Rename { from: Vec<u8>, to: Vec<u8> },
    /// Copy the contents and permission bits of the file `from` to `to`.
    CopyFile { from: Vec<u8>, to: Vec<u8> },
    /// Start enumerating the entries of the directory; it becomes the
    /// innermost open directory.
    OpenDir { path: Vec<u8> },
    /// Hand out the next entry of the innermost open directory, or close it
    /// when none is left.
    NextEntry,
    /// Set the permission bits of the path to `mode`.
    SetMode { path: Vec<u8>, mode: u32 },
    /// Set or clear the read-only attribute of the path.
    SetReadonly { path: Vec<u8>, readonly: bool },
}

/// The mathematical value of a [`HostCall`].
pub enum HostCallView {
    CreateDirAll { path: Seq<u8> },
    CreateFile { path: Seq<u8> },
    QueryIsDir { path: Seq<u8> },
    RemoveDirAll { path: Seq<u8> },
    RemoveFile { path: Seq<u8> },
    Rename { from: Seq<u8>, to: Seq<u8> },
    CopyFile { from: Seq<u8>, to: Seq<u8> },
    OpenDir { path: Seq<u8> },
    NextEntry,
    SetMode { path: Seq<u8>, mode: u32 },
    SetReadonly { path: Seq<u8>, readonly: bool },
}

impl View for HostCall {
    type V = HostCallView;

    open spec fn view(&self) -> HostCallView {
        match self {
            HostCall::CreateDirAll { path } => HostCallView::CreateDirAll { path: path@ },
            HostCall::CreateFile { path } => HostCallView::CreateFile { path: path@ },
            HostCall::QueryIsDir { path } => HostCallView::QueryIsDir { path: path@ },
            HostCall::RemoveDirAll { path } => HostCallView::RemoveDirAll { path: path@ },
            HostCall::RemoveFile { path } => HostCallView::RemoveFile { path: path@ },
            HostCall::Rename { from, to } => HostCallView::Rename { from: from@, to: to@ },
            HostCall::CopyFile { from, to } => HostCallView::CopyFile { from: from@, to: to@ },
            HostCall::OpenDir { path } => HostCallView::OpenDir { path: path@ },
            HostCall::NextEntry => HostCallView::NextEntry,
            HostCall::SetMode { path, mode } => HostCallView::SetMode { path: path@, mode: *mode },
            HostCall::SetReadonly { path, readonly } => HostCallView::SetReadonly {
                path: path@,
                readonly: *readonly,
            },
        }
    }
}

impl HostCallView {
    /// True for the calls that change the filesystem.
    pub open spec fn mutates(self) -> bool {
        !(self is QueryIsDir || self is OpenDir || self is NextEntry)
    }
}

impl HostCall {
    /// A copy of the call.
    pub fn duplicate(&self) -> (r: HostCall)
        ensures
            r@ == self@,
    {
        match self {
            HostCall::CreateDirAll { path } => HostCall::CreateDirAll { path: copy_bytes(path) },
            HostCall::CreateFile { path } => HostCall::CreateFile { path: copy_bytes(path) },
            HostCall::QueryIsDir { path } => HostCall::QueryIsDir { path: copy_bytes(path) },
            HostCall::RemoveDirAll { path } => HostCall::RemoveDirAll { path: copy_bytes(path) },
            HostCall::RemoveFile { path } => HostCall::RemoveFile { path: copy_bytes(path) },
            HostCall::Rename { from, to } => HostCall::Rename {
                from: copy_bytes(from),
                to: copy_bytes(to),
            },
            HostCall::CopyFile { from, to } => HostCall::CopyFile {
                from: copy_bytes(from),
                to: copy_bytes(to),
            },
            HostCall::OpenDir { path } => HostCall::OpenDir { path: copy_bytes(path) },
            HostCall::NextEntry => HostCall::NextEntry,
            HostCall::SetMode { path, mode } => HostCall::SetMode {
                path: copy_bytes(path),
                mode: *mode,
            },
            HostCall::SetReadonly { path, readonly } => HostCall::SetReadonly {
                path: copy_bytes(path),
                readonly: *readonly,
            },
        }
    }
}

/// The host's answer to a [`HostCall`].
#[derive(Debug, PartialEq, Eq)]
pub enum HostReply {
    /// The call succeeded and has nothing to report.
    Done,
    /// The answer to [`HostCall::QueryIsDir`].
    IsDir(bool),
    /// The next entry of the innermost open directory, with its name as the
    /// host holds it.
    Entry { name: Vec<u8>, kind: EntryKind },
    /// The innermost open directory has no entry left and was closed.
    EndOfDir,
    /// The call failed.
    Failed(FsError),
}

/// The mathematical value of a [`HostReply`].
pub enum HostReplyView {
    Done,
    IsDir(bool),
    Entry { name: Seq<u8>, kind: EntryKind },
    EndOfDir,
    Failed(FsErrorView),
}

impl View for HostReply {
    type V = HostReplyView;

    open spec fn view(&self) -> HostReplyView {
        match self {
            HostReply::Done => HostReplyView::Done,
            HostReply::IsDir(d) => HostReplyView::IsDir(*d),
            HostReply::Entry { name, kind } => HostReplyView::Entry { name: name@, kind: *kind },
            HostReply::EndOfDir => HostReplyView::EndOfDir,
            HostReply::Failed(e) => HostReplyView::Failed(e@),
        }
    }
}

} // verus!
