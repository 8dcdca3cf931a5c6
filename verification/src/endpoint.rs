//! Endpoint addressing: classifying a sync pair as download or upload, and
//! parsing a `s3://bucket/key` address into its bucket and key prefix.
//!
//! Any address that starts with the remote scheme designates a remote
//! endpoint; every other string is a local filesystem path. A leading `/` in
//! the parsed path component is always stripped; whether the raw path ends
//! with `/` is kept, since it changes the path mapping.

use vstd::prelude::*;
use crate::strutil::{spec_ends_with, spec_starts_with, spec_trim_leading, starts_with_str,
    ends_with_char, trim_leading_char};
use vstd::string::StringExecFns;

verus! {

/// The error kinds a sync run can end with.
#[derive(Clone, Copy, Debug, PartialEq, Eq, Structural)]
pub enum SyncError {
    /// The address is malformed, or its scheme does not fit the operation.
    InvalidAddress,
    /// Both endpoints are remote; remote-to-remote copy is unsupported.
    BothRemoteUnsupported,
    /// Both endpoints are local; local-to-local copy is unsupported.
    BothLocalUnsupported,
    /// A local file could not be opened, created, read or written.
    LocalIOError,
    /// A remote list, get or put operation failed.
    RemoteOperationError,
}

/// The user-visible text of each error kind.
pub open spec fn spec_error_text(e: SyncError) -> Seq<char> {
    match e {
        SyncError::InvalidAddress => "invalid address"@,
        SyncError::BothRemoteUnsupported => "both s3 address not supported"@,
        SyncError::BothLocalUnsupported => "both local address not supported"@,
        SyncError::LocalIOError => "local io error"@,
        SyncError::RemoteOperationError => "remote operation failed"@,
    }
}

impl SyncError {
    /// A short diagnostic message for this error kind.
    pub fn describe(&self) -> (r: String)
        ensures
            r@ == spec_error_text(*self),
    {
        match self {
            SyncError::InvalidAddress => String::from_str("invalid address"),
            SyncError::BothRemoteUnsupported => String::from_str("both s3 address not supported"),
            SyncError::BothLocalUnsupported => String::from_str("both local address not supported"),
            SyncError::LocalIOError => String::from_str("local io error"),
            SyncError::RemoteOperationError => String::from_str("remote operation failed"),
        }
    }
}

/// The direction of a sync run with exactly one remote endpoint.
#[derive(Clone, Copy, Debug, PartialEq, Eq, Structural)]
pub enum Direction {
    /// Remote source, local destination.
    Download,
    /// Local source, remote destination.
    Upload,
}

/// One end of a sync: a local filesystem root, or a bucket and key prefix in
/// the remote store.
#[derive(Clone, Debug)]
pub enum Endpoint {
    Local {
        /// The filesystem path exactly as given.
        path: String,
    },
    Remote {
        /// The bucket (host) component of the address.
        bucket: String,
        /// The key prefix: the path component with every leading `/` removed
        /// and any trailing `/` kept.
        key: String,
        /// Whether the raw path component ended with `/`.
        trailing: bool,
    },
}

/// An address designates a remote endpoint when it starts with the scheme.
pub open spec fn spec_is_remote(s: Seq<char>) -> bool {
    spec_starts_with(s, "s3://"@)
}

/// Does this address designate a remote endpoint?
pub fn is_remote_uri(s: &str) -> (r: bool)
    ensures
        r == spec_is_remote(s@),
{
    starts_with_str(s, "s3://")
}

/// The host component of a parsed address, or `None` when the address does
/// not parse as a URL or has no host. A function of the address alone.
pub uninterp spec fn url_host_of(s: Seq<char>) -> Option<Seq<char>>;

/// The path component of a parsed address, or `None` when the address does
/// not parse as a URL. A function of the address alone.
pub uninterp spec fn url_path_of(s: Seq<char>) -> Option<Seq<char>>;

/// Relies on `url::Url::parse`, `url::Url::host_str` and `url::Url::path`:
/// parsing is a deterministic function of the input string, and the host and
/// path of the parsed value are read off as plain strings. Returns `None`
/// exactly when the address does not parse or the parsed URL has no host.
#[verifier::external_body]
fn parse_url_parts(uri: &str) -> (r: Option<(String, String)>)
    ensures
        match r {
            Some(hp) => url_host_of(uri@) == Some(hp.0@) && url_path_of(uri@) == Some(hp.1@),
            None => url_host_of(uri@) is None || url_path_of(uri@) is None,
        },
{
    match url::Url::parse(uri) {
        Ok(parsed) => match parsed.host_str() {
            Some(host) => Some((host.to_string(), parsed.path().to_string())),
            None => None,
        },
        Err(_) => None,
    }
}

/// Parse one sync address. A remote address yields its bucket, its key
/// prefix with leading `/` stripped, and its trailing-slash flag; any
/// non-remote address is taken verbatim as a local path. A remote address
/// that does not parse, or parses without a host, is rejected.
pub fn parse_endpoint(addr: &str) -> (r: Result<Endpoint, SyncError>)
    ensures
        match r {
            Ok(ep) => match ep {
                Endpoint::Local { path } => !spec_is_remote(addr@) && path@ == addr@,
                Endpoint::Remote { bucket, key, trailing } => {
                    &&& spec_is_remote(addr@)
                    &&& url_host_of(addr@) == Some(bucket@)
                    &&& url_path_of(addr@) is Some
                    &&& key@ == spec_trim_leading(url_path_of(addr@)->0, '/')
                    &&& trailing == spec_ends_with(url_path_of(addr@)->0, '/')
                },
            },
            Err(e) => {
                &&& e == SyncError::InvalidAddress
                &&& spec_is_remote(addr@)
                &&& (url_host_of(addr@) is None || url_path_of(addr@) is None)
            },
        },
{
    if is_remote_uri(addr) {
        match parse_url_parts(addr) {
            Some(parts) => {
                let (bucket, raw_path) = parts;
                let trailing = ends_with_char(raw_path.as_str(), '/');
                let key = trim_leading_char(raw_path.as_str(), '/');
                Ok(Endpoint::Remote { bucket, key, trailing })
            },
            None => Err(SyncError::InvalidAddress),
        }
    } else {
        Ok(Endpoint::Local { path: String::from_str(addr) })
    }
}

/// How a source/destination pair is handled: exactly one remote endpoint
/// fixes the direction; two remote or two local endpoints are rejected.
pub open spec fn spec_classify(source: Seq<char>, dest: Seq<char>) -> Result<Direction, SyncError> {
    if spec_is_remote(source) && spec_is_remote(dest) {
        Err(SyncError::BothRemoteUnsupported)
    } else if spec_is_remote(source) {
        Ok(Direction::Download)
    } else if spec_is_remote(dest) {
        Ok(Direction::Upload)
    } else {
        Err(SyncError::BothLocalUnsupported)
    }
}

/// Decide the transfer direction from the two addresses, rejecting pairs
/// with two remote or two local endpoints.
pub fn classify(source: &str, dest: &str) -> (r: Result<Direction, SyncError>)
    ensures
        r == spec_classify(source@, dest@),
{
    let source_remote = is_remote_uri(source);
    let dest_remote = is_remote_uri(dest);
    if source_remote && dest_remote {
        Err(SyncError::BothRemoteUnsupported)
    } else if source_remote {
        Ok(Direction::Download)
    } else if dest_remote {
        Ok(Direction::Upload)
    } else {
        Err(SyncError::BothLocalUnsupported)
    }
}

} // verus!
