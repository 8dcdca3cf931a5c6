//! The sync orchestrator's decision logic: what each enumerated entry needs.
//!
//! For a download, an entry is skipped exactly when the local file exists
//! and its content digest matches the remote object's token; any missing or
//! unreadable local file forces a transfer. Uploads are never conditional:
//! every enumerated file is re-uploaded. The surrounding program performs
//! the listing, reading and transferring; these functions take the plain
//! values it hands in and fix the plan for one entry.

use vstd::prelude::*;
use vstd::string::StringExecFns;
use crate::digest::{hex_lower_of, md5_of, spec_content_matches, spec_normalize_digest, checkfile,
    normalize_digest};
use crate::endpoint::Direction;
use crate::pathmap::{spec_download_path, spec_upload_key, download_local_path, upload_remote_key,
    lemma_download_path_injective};
use crate::strutil::{spec_starts_with, spec_trim_trailing, trim_trailing_char};

verus! {

/// One remote object as a listing reports it.
#[derive(Clone, Debug)]
pub struct RemoteObject {
    /// The object's full key within its bucket.
    pub key: String,
    /// The object's size in bytes.
    pub size: u64,
    /// The last-modified timestamp, as the listing prints it.
    pub last_modified: String,
    /// The store's integrity token for the object's content, possibly
    /// surrounded by quote characters.
    pub e_tag: String,
}

/// What one entry needs: nothing, or a transfer.
#[derive(Clone, Copy, Debug, PartialEq, Eq, Structural)]
pub enum Action {
    /// The destination already matches; no transfer.
    Skip,
    /// The entry must be transferred.
    Transfer,
}

/// The resolved plan for one entry of a sync run.
#[derive(Clone, Debug)]
pub struct TransferPlan {
    /// Which way the bytes move.
    pub direction: Direction,
    /// The local file path of this entry.
    pub local_path: String,
    /// The remote object key of this entry.
    pub remote_key: String,
    /// Whether this entry is skipped or transferred.
    pub action: Action,
}

/// The contents of one local file, when it exists and could be read.
pub open spec fn spec_opt_bytes(contents: Option<Vec<u8>>) -> Option<Seq<u8>> {
    match contents {
        Some(data) => Some(data@),
        None => None,
    }
}

/// The content identity check over optional local contents: in sync exactly
/// when the file was readable and its digest equals the unquoted token.
pub open spec fn spec_contents_in_sync(contents: Option<Seq<u8>>, e_tag: Seq<char>) -> bool {
    match contents {
        Some(data) => spec_content_matches(data, spec_normalize_digest(e_tag)),
        None => false,
    }
}

/// The download decision: skip exactly when in sync.
pub open spec fn spec_decide_download(contents: Option<Seq<u8>>, e_tag: Seq<char>) -> Action {
    if spec_contents_in_sync(contents, e_tag) {
        Action::Skip
    } else {
        Action::Transfer
    }
}

/// Decide whether a download entry is skipped. `local_contents` is the local
/// file's bytes, or `None` when the file is missing or could not be read —
/// which conservatively forces a transfer.
pub fn decide_download(local_contents: &Option<Vec<u8>>, e_tag: &str) -> (r: Action)
    ensures
        r == spec_decide_download(spec_opt_bytes(*local_contents), e_tag@),
{
    match local_contents {
        Some(data) => {
            let expected = normalize_digest(e_tag);
            if checkfile(data.as_slice(), expected.as_str()) {
                Action::Skip
            } else {
                Action::Transfer
            }
        },
        None => Action::Transfer,
    }
}

/// Resolve one download entry: where the object lands locally, and whether
/// it needs a transfer.
pub fn plan_download_entry(
    key_prefix: &str,
    trailing: bool,
    local_root: &str,
    obj: &RemoteObject,
    local_contents: &Option<Vec<u8>>,
) -> (r: TransferPlan)
    ensures
        r.direction == Direction::Download,
        r.local_path@ == spec_download_path(key_prefix@, trailing, local_root@, obj.key@),
        r.remote_key@ == obj.key@,
        r.action == spec_decide_download(spec_opt_bytes(*local_contents), obj.e_tag@),
{
    let local_path = download_local_path(key_prefix, trailing, local_root, obj.key.as_str());
    let action = decide_download(local_contents, obj.e_tag.as_str());
    TransferPlan {
        direction: Direction::Download,
        local_path,
        remote_key: obj.key.clone(),
        action,
    }
}

/// Resolve one upload entry of a directory tree. `key_prefix` is the remote
/// key prefix as parsed (trailing slashes are trimmed here). Uploads are
/// never conditional: the action is always a transfer.
pub fn plan_upload_entry(key_prefix: &str, local_root: &str, entry_path: &str) -> (r: TransferPlan)
    ensures
        r.direction == Direction::Upload,
        r.action == Action::Transfer,
        r.local_path@ == entry_path@,
        r.remote_key@ == spec_upload_key(
            spec_trim_trailing(key_prefix@, '/'),
            local_root@,
            entry_path@,
        ),
{
    let trimmed = trim_trailing_char(key_prefix, '/');
    let remote_key = upload_remote_key(trimmed.as_str(), local_root, entry_path);
    TransferPlan {
        direction: Direction::Upload,
        local_path: String::from_str(entry_path),
        remote_key,
        action: Action::Transfer,
    }
}

/// Resolve the upload of a single local file: its one key is the remote key
/// prefix with trailing slashes trimmed, with no further segment appended,
/// and the transfer is unconditional.
pub fn plan_upload_single(key_prefix: &str, local_path: &str) -> (r: TransferPlan)
    ensures
        r.direction == Direction::Upload,
        r.action == Action::Transfer,
        r.local_path@ == local_path@,
        r.remote_key@ == spec_trim_trailing(key_prefix@, '/'),
{
    let remote_key = trim_trailing_char(key_prefix, '/');
    TransferPlan {
        direction: Direction::Upload,
        local_path: String::from_str(local_path),
        remote_key,
        action: Action::Transfer,
    }
}

/// A model of one remote object for reasoning about whole runs: its key,
/// its content bytes, and the integrity token the listing reports for it.
pub struct ObjModel {
    /// The object's full key.
    pub key: Seq<char>,
    /// The object's content bytes.
    pub bytes: Seq<u8>,
    /// The listing's integrity token, possibly surrounded by quotes.
    pub e_tag: Seq<char>,
}

/// The listing's token is honest: unquoted, it is the lower-case hex MD5
/// digest of the object's bytes.
pub open spec fn spec_obj_consistent(o: ObjModel) -> bool {
    spec_normalize_digest(o.e_tag) == hex_lower_of(md5_of(o.bytes))
}

/// The content identity check against a modelled local tree: a map from
/// file path to file bytes, holding exactly the files that exist.
pub open spec fn spec_fs_in_sync(
    files: Map<Seq<char>, Seq<u8>>,
    path: Seq<char>,
    e_tag: Seq<char>,
) -> bool {
    spec_contents_in_sync(
        if files.contains_key(path) {
            Some(files[path])
        } else {
            None
        },
        e_tag,
    )
}

/// The download decision against a modelled local tree.
pub open spec fn spec_fs_decide(
    files: Map<Seq<char>, Seq<u8>>,
    path: Seq<char>,
    e_tag: Seq<char>,
) -> Action {
    if spec_fs_in_sync(files, path, e_tag) {
        Action::Skip
    } else {
        Action::Transfer
    }
}

/// One download entry applied to the modelled tree: a skipped entry leaves
/// it unchanged, a transferred one writes the object's bytes at its path.
pub open spec fn spec_run_entry(
    prefix: Seq<char>,
    trailing: bool,
    root: Seq<char>,
    o: ObjModel,
    files: Map<Seq<char>, Seq<u8>>,
) -> Map<Seq<char>, Seq<u8>> {
    let path = spec_download_path(prefix, trailing, root, o.key);
    if spec_fs_decide(files, path, o.e_tag) == Action::Skip {
        files
    } else {
        files.insert(path, o.bytes)
    }
}

/// A whole download run applied to the modelled tree, entry by entry.
pub open spec fn spec_run_download(
    prefix: Seq<char>,
    trailing: bool,
    root: Seq<char>,
    objs: Seq<ObjModel>,
    files: Map<Seq<char>, Seq<u8>>,
) -> Map<Seq<char>, Seq<u8>>
    decreases objs.len(),
{
    if objs.len() == 0 {
        files
    } else {
        spec_run_download(
            prefix,
            trailing,
            root,
            objs.drop_first(),
            spec_run_entry(prefix, trailing, root, objs[0], files),
        )
    }
}

/// A run never touches a path that none of its objects maps to.
proof fn lemma_run_untouched(
    prefix: Seq<char>,
    trailing: bool,
    root: Seq<char>,
    objs: Seq<ObjModel>,
    files: Map<Seq<char>, Seq<u8>>,
    p: Seq<char>,
)
    requires
        forall|i: int|
            0 <= i < objs.len() ==> spec_download_path(
                prefix,
                trailing,
                root,
                (#[trigger] objs[i]).key,
            ) != p,
    ensures
        spec_run_download(prefix, trailing, root, objs, files).contains_key(p)
            == files.contains_key(p),
        files.contains_key(p) ==> spec_run_download(prefix, trailing, root, objs, files)[p]
            == files[p],
    decreases objs.len(),
{
    if objs.len() > 0 {
        let f1 = spec_run_entry(prefix, trailing, root, objs[0], files);
        let rest = objs.drop_first();
        assert forall|i: int| 0 <= i < rest.len() implies spec_download_path(
            prefix,
            trailing,
            root,
            (#[trigger] rest[i]).key,
        ) != p by {
            assert(rest[i] == objs[i + 1]);
        }
        lemma_run_untouched(prefix, trailing, root, rest, f1, p);
    }
}

/// After a download run, every listed object is in sync at its local path,
/// provided the tokens are honest, every key lies under the prefix, and no
/// two objects share a key.
proof fn lemma_run_leaves_in_sync(
    prefix: Seq<char>,
    trailing: bool,
    root: Seq<char>,
    objs: Seq<ObjModel>,
    files: Map<Seq<char>, Seq<u8>>,
)
    requires
        forall|i: int| 0 <= i < objs.len() ==> spec_obj_consistent(#[trigger] objs[i]),
        forall|i: int|
            0 <= i < objs.len() ==> spec_starts_with((#[trigger] objs[i]).key, prefix),
        forall|i: int, j: int| 0 <= i < j < objs.len() ==> objs[i].key != objs[j].key,
    ensures
        forall|i: int|
            0 <= i < objs.len() ==> spec_fs_in_sync(
                spec_run_download(prefix, trailing, root, objs, files),
                spec_download_path(prefix, trailing, root, (#[trigger] objs[i]).key),
                objs[i].e_tag,
            ),
    decreases objs.len(),
{
    if objs.len() > 0 {
        let o0 = objs[0];
        let p0 = spec_download_path(prefix, trailing, root, o0.key);
        let f1 = spec_run_entry(prefix, trailing, root, o0, files);
        let rest = objs.drop_first();
        let after = spec_run_download(prefix, trailing, root, objs, files);
        assert(spec_fs_in_sync(f1, p0, o0.e_tag)) by {
            assert(spec_obj_consistent(objs[0]));
            if spec_fs_decide(files, p0, o0.e_tag) != Action::Skip {
                assert(f1 == files.insert(p0, o0.bytes));
                assert(f1.contains_key(p0));
                assert(f1[p0] == o0.bytes);
            }
        }
        assert forall|i: int| 0 <= i < rest.len() implies spec_obj_consistent(
            #[trigger] rest[i],
        ) && spec_starts_with(rest[i].key, prefix) by {
            assert(rest[i] == objs[i + 1]);
        }
        assert forall|i: int, j: int| 0 <= i < j < rest.len() implies rest[i].key
            != rest[j].key by {
            assert(rest[i] == objs[i + 1]);
            assert(rest[j] == objs[j + 1]);
        }
        lemma_run_leaves_in_sync(prefix, trailing, root, rest, f1);
        assert forall|i: int| 0 <= i < rest.len() implies spec_download_path(
            prefix,
            trailing,
            root,
            (#[trigger] rest[i]).key,
        ) != p0 by {
            assert(rest[i] == objs[i + 1]);
            if spec_download_path(prefix, trailing, root, rest[i].key) == p0 {
                lemma_download_path_injective(prefix, trailing, root, rest[i].key, o0.key);
                assert(objs[0].key != objs[i + 1].key);
            }
        }
        lemma_run_untouched(prefix, trailing, root, rest, f1, p0);
        assert(after == spec_run_download(prefix, trailing, root, rest, f1));
        assert forall|i: int| 0 <= i < objs.len() implies spec_fs_in_sync(
            after,
            spec_download_path(prefix, trailing, root, (#[trigger] objs[i]).key),
            objs[i].e_tag,
        ) by {
            if i == 0 {
                assert(f1.contains_key(p0));
                assert(after.contains_key(p0) && after[p0] == f1[p0]);
            } else {
                assert(objs[i] == rest[i - 1]);
            }
        }
    }
}

/// The content identity check makes download syncs idempotent: a second run
/// against an unchanged remote tree performs zero transfers — every entry
/// resolves to a skip. Holds when the listing's tokens are honest, every
/// key lies under the prefix, and no two objects share a key.
pub proof fn lemma_second_download_run_all_skips(
    prefix: Seq<char>,
    trailing: bool,
    root: Seq<char>,
    objs: Seq<ObjModel>,
    files: Map<Seq<char>, Seq<u8>>,
)
    requires
        forall|i: int| 0 <= i < objs.len() ==> spec_obj_consistent(#[trigger] objs[i]),
        forall|i: int|
            0 <= i < objs.len() ==> spec_starts_with((#[trigger] objs[i]).key, prefix),
        forall|i: int, j: int| 0 <= i < j < objs.len() ==> objs[i].key != objs[j].key,
    ensures
        forall|i: int|
            0 <= i < objs.len() ==> spec_fs_decide(
                spec_run_download(prefix, trailing, root, objs, files),
                spec_download_path(prefix, trailing, root, (#[trigger] objs[i]).key),
                objs[i].e_tag,
            ) == Action::Skip,
{
    lemma_run_leaves_in_sync(prefix, trailing, root, objs, files);
}

/// A local file deleted between two runs is re-downloaded while the remote
/// object is unchanged: skipping requires local existence.
pub proof fn lemma_missing_file_transfers(
    files: Map<Seq<char>, Seq<u8>>,
    path: Seq<char>,
    e_tag: Seq<char>,
)
    requires
        !files.contains_key(path),
    ensures
        spec_fs_decide(files, path, e_tag) == Action::Transfer,
{
}

} // verus!
