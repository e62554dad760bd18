use vstd::prelude::*;
use vstd::string::StringExecFns;

verus! {

/// Failures of the snapshot store.
///
/// `StorageUnavailable` covers every database fault; `SourceMissing` means the
/// file to be backed up could not be read; `NotFound` means a restore was
/// asked for a path the store does not track; `RestoreIoFailed` means the
/// on-disk write of a restore failed (the record is kept so the user may
/// retry).
#[derive(Clone, Copy, Debug, PartialEq, Eq, Structural)]
pub enum CacheError {
    StorageUnavailable,
    SourceMissing,
    NotFound,
    RestoreIoFailed,
}

pub open spec fn cache_error_text(e: CacheError) -> Seq<char> {
    match e {
        CacheError::StorageUnavailable => "storage unavailable"@,
        CacheError::SourceMissing => "source file missing"@,
        CacheError::NotFound => "file not found in cache"@,
        CacheError::RestoreIoFailed => "restore write failed"@,
    }
}

impl CacheError {
    /// A one-line description, for the caller to print.
    pub fn describe(&self) -> (r: String)
        ensures
            r@ == cache_error_text(*self),
    {
        match self {
            CacheError::StorageUnavailable => String::from_str("storage unavailable"),
            CacheError::SourceMissing => String::from_str("source file missing"),
            CacheError::NotFound => String::from_str("file not found in cache"),
            CacheError::RestoreIoFailed => String::from_str("restore write failed"),
        }
    }
}

/// Failures while inspecting a tracee.
///
/// `PeekFailed` means a word could not be read out of the tracee's address
/// space; `InvalidUtf8` means the bytes found there do not form text.
#[derive(Clone, Copy, Debug, PartialEq, Eq, Structural)]
pub enum TraceError {
    PeekFailed,
    InvalidUtf8,
}

pub open spec fn trace_error_text(e: TraceError) -> Seq<char> {
    match e {
        TraceError::PeekFailed => "could not read tracee memory"@,
        TraceError::InvalidUtf8 => "path is not valid text"@,
    }
}

impl TraceError {
    /// A one-line description, for the caller to print.
    pub fn describe(&self) -> (r: String)
        ensures
            r@ == trace_error_text(*self),
    {
        match self {
            TraceError::PeekFailed => String::from_str("could not read tracee memory"),
            TraceError::InvalidUtf8 => String::from_str("path is not valid text"),
        }
    }
}

} // verus!
