use vstd::prelude::*;
use crate::ident::PackageIdent;

verus! {

/// The status code a repository answers with when a request succeeds.
pub const STATUS_OK: u16 = 200;

/// The status code a repository answers with for an unknown artifact or key.
pub const STATUS_NOT_FOUND: u16 = 404;

/// The range of status codes that counts as success for an upload.
pub open spec fn is_success_status(status: u16) -> bool {
    200 <= status < 300
}

/// Everything a client operation can fail with: transport failures, protocol
/// violations by the server, and local I/O failures reported by the caller's
/// runtime.
#[derive(Debug, PartialEq, Eq)]
pub enum ClientError {
    /// A request ended with a non-success HTTP status; carries the code.
    Http(u16),
    /// The repository has no artifact for this identifier.
    RemotePackageNotFound(PackageIdent),
    /// A download response lacked the required file-name header.
    NoXFilename,
    /// A local path has no final file-name component.
    NoFilePart,
    /// A writer accepted zero bytes of a non-empty buffer.
    WriteSyncFailed,
    /// A local open, create, read, write, seek or rename failed.
    Io(String),
}

/// Whether an upload status code counts as success.
pub fn status_is_success(status: u16) -> (r: bool)
    ensures
        r == is_success_status(status),
{
    200 <= status && status < 300
}

} // verus!
