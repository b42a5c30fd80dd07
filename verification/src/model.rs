//! The engine on an ideal filesystem, and the laws that hold of it there.
//!
//! An ideal filesystem is a map from paths to file contents on which no call
//! fails except for a file that is not there: a directory can always be
//! created, a write replaces the file's content, a read gives back what was
//! last written, and a removal takes the file away. The functions below
//! answer each call of an operation as such a filesystem would. A real
//! filesystem can fail in more ways; the engine then reports what the failed
//! call reported.

use crate::error::{IoFailureView, StorageErrorView};
use crate::key::{
    is_segment, is_valid_key, key_fault, lemma_last_segment_exists, lemma_parent_key_is_valid,
    name_start,
};
use crate::storage::{join, object_dir, object_path, FileStorageView};
use vstd::prelude::*;

verus! {

/// The files of an ideal filesystem: each path with the content of its file.
pub type Files = Map<Seq<char>, Seq<u8>>;

/// The failure of a call on a file that is not there.
pub open spec fn missing() -> IoFailureView {
    IoFailureView { not_found: true, detail: Seq::empty() }
}

/// A read of `path`.
pub open spec fn read(files: Files, path: Seq<char>) -> Result<Seq<u8>, IoFailureView> {
    if files.contains_key(path) {
        Ok(files[path])
    } else {
        Err(missing())
    }
}

/// A `put`, carried out in full: the files afterwards, and its result.
pub open spec fn put(storage: FileStorageView, files: Files, key: Seq<char>, data: Seq<u8>) -> (
    Files,
    Result<(), StorageErrorView>,
) {
    match storage.put(key, data) {
        Err(error) => (files, Err(error)),
        Ok(pending) => match pending.dirs_created(Ok(())) {
            Err(error) => (files, Err(error)),
            Ok(write) => (files.insert(write.path, write.data), write.complete(Ok(()))),
        },
    }
}

/// A `get`, carried out in full: its result.
pub open spec fn get(storage: FileStorageView, files: Files, key: Seq<char>) -> Result<
    Seq<u8>,
    StorageErrorView,
> {
    match storage.get(key) {
        Err(error) => Err(error),
        Ok(pending) => pending.complete(read(files, pending.path)),
    }
}

/// A `delete`, carried out in full: the files afterwards, and its result.
pub open spec fn delete(storage: FileStorageView, files: Files, key: Seq<char>) -> (
    Files,
    Result<(), StorageErrorView>,
) {
    match storage.delete(key) {
        Err(error) => (files, Err(error)),
        Ok(pending) => if files.contains_key(pending.path) {
            (files.remove(pending.path), pending.complete(Ok(())))
        } else {
            (files, pending.complete(Err(missing())))
        },
    }
}

/// `path` lies under the directory `root`: it is `root` followed by a
/// relative path whose segments are all plain names.
pub open spec fn lies_under(root: Seq<char>, path: Seq<char>) -> bool {
    exists|rel: Seq<char>| #[trigger] is_valid_key(rel) && path == join(root, rel)
}

/// What is put under a key is what a later `get` of that key returns, byte
/// for byte.
pub proof fn law_round_trip(
    storage: FileStorageView,
    files: Files,
    key: Seq<char>,
    data: Seq<u8>,
)
    requires
        is_valid_key(key),
    ensures
        put(storage, files, key, data).1 == Ok::<(), StorageErrorView>(()),
        get(storage, put(storage, files, key, data).0, key) == Ok::<Seq<u8>, StorageErrorView>(
            data,
        ),
{
}

/// After a `put` and a `delete` of the same key, the `delete` has succeeded
/// and a `get` of that key finds nothing.
pub proof fn law_delete_removes(
    storage: FileStorageView,
    files: Files,
    key: Seq<char>,
    data: Seq<u8>,
)
    requires
        is_valid_key(key),
    ensures
        ({
            let stored = put(storage, files, key, data).0;
            let (left, deleted) = delete(storage, stored, key);
            &&& deleted == Ok::<(), StorageErrorView>(())
            &&& get(storage, left, key) == Err::<Seq<u8>, StorageErrorView>(
                StorageErrorView::NotFound(key),
            )
        }),
{
}

/// Of two `put`s under one key, a later `get` returns what the second stored.
pub proof fn law_overwrite(
    storage: FileStorageView,
    files: Files,
    key: Seq<char>,
    first: Seq<u8>,
    second: Seq<u8>,
)
    requires
        is_valid_key(key),
    ensures
        ({
            let once = put(storage, files, key, first).0;
            let twice = put(storage, once, key, second);
            &&& twice.1 == Ok::<(), StorageErrorView>(())
            &&& get(storage, twice.0, key) == Ok::<Seq<u8>, StorageErrorView>(second)
        }),
{
}

/// A key that is not accepted fails every operation with `InvalidKey`, and
/// the filesystem is left as it was.
pub proof fn law_invalid_key_is_turned_away(
    storage: FileStorageView,
    files: Files,
    key: Seq<char>,
    data: Seq<u8>,
)
    requires
        !is_valid_key(key),
    ensures
        ({
            let error = StorageErrorView::InvalidKey(key_fault(key).unwrap().reason());
            &&& put(storage, files, key, data) == (files, Err::<(), StorageErrorView>(error))
            &&& get(storage, files, key) == Err::<Seq<u8>, StorageErrorView>(error)
            &&& delete(storage, files, key) == (files, Err::<(), StorageErrorView>(error))
        }),
{
}

/// A key with a `..` segment is not accepted.
pub proof fn law_parent_segment_is_rejected(key: Seq<char>, from: int, to: int)
    requires
        is_segment(key, from, to),
        key.subrange(from, to) == seq!['.', '.'],
    ensures
        !is_valid_key(key),
{
}

/// Where nothing was stored under a key, `get` and `delete` of that key
/// both report that it was not found, and `delete` changes nothing.
pub proof fn law_missing_object(storage: FileStorageView, files: Files, key: Seq<char>)
    requires
        is_valid_key(key),
        !files.contains_key(object_path(storage.root, key)),
    ensures
        get(storage, files, key) == Err::<Seq<u8>, StorageErrorView>(
            StorageErrorView::NotFound(key),
        ),
        delete(storage, files, key) == (
            files,
            Err::<(), StorageErrorView>(StorageErrorView::NotFound(key)),
        ),
{
}

/// Two accepted keys that differ name two files.
pub proof fn law_keys_name_distinct_files(root: Seq<char>, a: Seq<char>, b: Seq<char>)
    requires
        a != b,
    ensures
        object_path(root, a) != object_path(root, b),
{
    let pa = object_path(root, a);
    let pb = object_path(root, b);
    if pa == pb {
        if root.len() == 0 {
        } else if root.last() == '/' {
            assert(pa.subrange(root.len() as int, pa.len() as int) == a);
            assert(pb.subrange(root.len() as int, pb.len() as int) == b);
        } else {
            assert(pa.subrange(root.len() as int + 1, pa.len() as int) == a);
            assert(pb.subrange(root.len() as int + 1, pb.len() as int) == b);
        }
    }
}

/// A `put` under one key leaves the object under every other key as it was.
pub proof fn law_put_leaves_other_keys(
    storage: FileStorageView,
    files: Files,
    key: Seq<char>,
    data: Seq<u8>,
    other: Seq<char>,
)
    requires
        other != key,
    ensures
        get(storage, put(storage, files, key, data).0, other) == get(storage, files, other),
{
    law_keys_name_distinct_files(storage.root, key, other);
}

/// Every file and directory that a `put` touches lies under the root, or is
/// the root itself.
pub proof fn law_put_stays_under_root(storage: FileStorageView, key: Seq<char>, data: Seq<u8>)
    ensures
        storage.put(key, data) matches Ok(pending) ==> {
            &&& lies_under(storage.root, pending.path)
            &&& pending.dir == storage.root || lies_under(storage.root, pending.dir)
        },
{
    if is_valid_key(key) {
        lemma_last_segment_exists(key);
        assert(lies_under(storage.root, object_path(storage.root, key)));
        if name_start(key) > 0 {
            lemma_parent_key_is_valid(key);
            assert(is_valid_key(key.subrange(0, name_start(key) - 1)));
            assert(lies_under(storage.root, object_dir(storage.root, key)));
        }
    }
}

} // verus!
