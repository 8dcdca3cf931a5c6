//! The path mapper: translating a remote object key to the local path it is
//! downloaded to, and a local file path to the remote key it is uploaded to.
//!
//! The trailing-slash convention decides whether an address's final segment
//! is absorbed into the other side or recreated there as a directory level:
//! a source with a trailing slash addresses the *contents* of a directory,
//! one without it makes its last segment a subdirectory of the destination.

use vstd::prelude::*;
use crate::strutil::{spec_ends_with, spec_join, spec_last_segment, spec_starts_with,
    spec_strip_prefix, concat_str, ends_with_char, join_path, last_segment_str, strip_prefix_str,
    lemma_concat_cancel_left, lemma_join_cancel};

verus! {

/// The local path a remote object is downloaded to: the key prefix is
/// stripped from the key, and when the source address had no trailing slash
/// the prefix's last segment is re-inserted under the local root.
pub open spec fn spec_download_path(
    prefix: Seq<char>,
    trailing: bool,
    root: Seq<char>,
    key: Seq<char>,
) -> Seq<char> {
    let sub = spec_strip_prefix(key, prefix);
    if trailing {
        spec_join(root, sub)
    } else {
        spec_join(root, spec_last_segment(prefix) + sub)
    }
}

/// Map a remote object key to its local download path, given the remote key
/// prefix, the source address's trailing-slash flag, and the local root.
pub fn download_local_path(key_prefix: &str, trailing: bool, local_root: &str, key: &str) -> (r:
    String)
    ensures
        r@ == spec_download_path(key_prefix@, trailing, local_root@, key@),
{
    let sub = strip_prefix_str(key, key_prefix);
    if trailing {
        join_path(local_root, sub.as_str())
    } else {
        let mid = last_segment_str(key_prefix);
        let nested = concat_str(mid.as_str(), sub.as_str());
        join_path(local_root, nested.as_str())
    }
}

/// The effective remote directory key of an upload: the prefix plus `/` when
/// the local root has a trailing slash, else the prefix extended with the
/// local root's basename.
pub open spec fn spec_upload_dir(prefix: Seq<char>, local_root: Seq<char>) -> Seq<char> {
    if spec_ends_with(local_root, '/') {
        prefix + seq!['/']
    } else {
        spec_join(prefix, spec_last_segment(local_root))
    }
}

/// The remote key a local file is uploaded to: the effective remote
/// directory key followed by the file's path relative to the local root.
pub open spec fn spec_upload_key(
    prefix: Seq<char>,
    local_root: Seq<char>,
    entry: Seq<char>,
) -> Seq<char> {
    spec_upload_dir(prefix, local_root) + spec_strip_prefix(entry, local_root)
}

/// Map a local file path to its remote upload key. `key_prefix` is the
/// remote key prefix with trailing slashes already trimmed.
pub fn upload_remote_key(key_prefix: &str, local_root: &str, entry: &str) -> (r: String)
    ensures
        r@ == spec_upload_key(key_prefix@, local_root@, entry@),
{
    let dir = if ends_with_char(local_root, '/') {
        let d = concat_str(key_prefix, "/");
        proof {
            reveal_strlit("/");
            assert(d@ =~= key_prefix@ + seq!['/']);
        }
        d
    } else {
        let base = last_segment_str(local_root);
        join_path(key_prefix, base.as_str())
    };
    let rel = strip_prefix_str(entry, local_root);
    concat_str(dir.as_str(), rel.as_str())
}

/// Stripping a prefix off its own extension returns the extension.
pub proof fn lemma_strip_prefix_of_concat(prefix: Seq<char>, rel: Seq<char>)
    ensures
        spec_strip_prefix(prefix + rel, prefix) == rel,
{
    assert((prefix + rel).subrange(0, prefix.len() as int) =~= prefix);
    assert(spec_starts_with(prefix + rel, prefix));
    assert((prefix + rel).subrange(prefix.len() as int, (prefix + rel).len() as int) =~= rel);
}

/// Two distinct keys under the same prefix never map to the same local
/// path: the download mapping is injective over the listed keys.
pub proof fn lemma_download_path_injective(
    prefix: Seq<char>,
    trailing: bool,
    root: Seq<char>,
    k1: Seq<char>,
    k2: Seq<char>,
)
    requires
        spec_starts_with(k1, prefix),
        spec_starts_with(k2, prefix),
        spec_download_path(prefix, trailing, root, k1) == spec_download_path(
            prefix,
            trailing,
            root,
            k2,
        ),
    ensures
        k1 == k2,
{
    let s1 = spec_strip_prefix(k1, prefix);
    let s2 = spec_strip_prefix(k2, prefix);
    if trailing {
        lemma_join_cancel(root, s1, s2);
    } else {
        lemma_join_cancel(root, spec_last_segment(prefix) + s1, spec_last_segment(prefix) + s2);
        lemma_concat_cancel_left(spec_last_segment(prefix), s1, s2);
    }
    assert(k1 =~= prefix + s1);
    assert(k2 =~= prefix + s2);
}

/// With a trailing-slash source, downloading preserves the full relative
/// path under the local root exactly: the object at `prefix + rel` lands at
/// `root / rel`, with no extra segment inserted.
pub proof fn lemma_download_trailing_preserves_relative(
    prefix: Seq<char>,
    root: Seq<char>,
    rel: Seq<char>,
)
    ensures
        spec_download_path(prefix, true, root, prefix + rel) == spec_join(root, rel),
{
    lemma_strip_prefix_of_concat(prefix, rel);
}

/// Without a trailing slash on the source, the prefix's final segment
/// becomes a nested directory locally: the object at `prefix + rel` lands at
/// `root / (last_segment(prefix) + rel)`.
pub proof fn lemma_download_no_slash_inserts_segment(
    prefix: Seq<char>,
    root: Seq<char>,
    rel: Seq<char>,
)
    ensures
        spec_download_path(prefix, false, root, prefix + rel) == spec_join(
            root,
            spec_last_segment(prefix) + rel,
        ),
{
    lemma_strip_prefix_of_concat(prefix, rel);
}

/// With a trailing slash on the local root, uploaded contents land directly
/// under the remote prefix: the file at `root + rel` goes to key
/// `prefix + "/" + rel`.
pub proof fn lemma_upload_trailing_lands_directly(
    prefix: Seq<char>,
    root: Seq<char>,
    rel: Seq<char>,
)
    requires
        spec_ends_with(root, '/'),
    ensures
        spec_upload_key(prefix, root, root + rel) == prefix + seq!['/'] + rel,
{
    lemma_strip_prefix_of_concat(root, rel);
    assert((prefix + seq!['/']) + rel =~= prefix + seq!['/'] + rel);
}

/// Without a trailing slash on the local root, the remote side gets an extra
/// `basename(root)` segment: the file at `root + "/" + rel` goes to key
/// `join(prefix, last_segment(root)) + "/" + rel`.
pub proof fn lemma_upload_no_slash_inserts_basename(
    prefix: Seq<char>,
    root: Seq<char>,
    rel: Seq<char>,
)
    requires
        !spec_ends_with(root, '/'),
    ensures
        spec_upload_key(prefix, root, root + seq!['/'] + rel) == spec_join(
            prefix,
            spec_last_segment(root),
        ) + seq!['/'] + rel,
{
    assert(root + seq!['/'] + rel =~= root + (seq!['/'] + rel));
    lemma_strip_prefix_of_concat(root, seq!['/'] + rel);
    assert(spec_strip_prefix(root + seq!['/'] + rel, root) == seq!['/'] + rel);
    assert(spec_join(prefix, spec_last_segment(root)) + (seq!['/'] + rel) =~= spec_join(
        prefix,
        spec_last_segment(root),
    ) + seq!['/'] + rel);
}

} // verus!
