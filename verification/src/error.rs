use vstd::prelude::*;

verus! {

/// Why a download failed, as surfaced to the caller.
#[derive(Clone, Copy, Debug, PartialEq, Eq, Structural)]
pub enum DownloadError {
    /// No output file name could be derived from the URL.
    NamingError,
    /// Directory creation, file creation, a write, or the final flush failed.
    FilesystemError,
    /// Connection, DNS, TLS, or a mid-stream chunk failure.
    NetworkError,
}

} // verus!
