//! The storage engine: one root directory, and for each operation the
//! filesystem calls that carry it out.
//!
//! The engine makes no filesystem call itself. An operation starts with a
//! method of [`FileStorage`], which checks the key and hands back a pending
//! operation. The pending operation names the call to make; the caller makes
//! it and completes the operation with the call's outcome.

use crate::error::{result_view, IoFailure, IoFailureView, StorageError, StorageErrorView};
use crate::key::{inspect_key, invalid_key, key_fault, name_start};
use vstd::prelude::*;

verus! {

/// `rel` appended to the directory `base`: with one separator between them,
/// unless `base` is empty or ends with one already.
pub open spec fn join(base: Seq<char>, rel: Seq<char>) -> Seq<char> {
    if base.len() == 0 {
        rel
    } else if base.last() == '/' {
        base + rel
    } else {
        base + seq!['/'] + rel
    }
}

/// The file that holds the object stored under `key`.
pub open spec fn object_path(root: Seq<char>, key: Seq<char>) -> Seq<char> {
    join(root, key)
}

/// The directory in which the object stored under `key` lies.
pub open spec fn object_dir(root: Seq<char>, key: Seq<char>) -> Seq<char> {
    if name_start(key) == 0 {
        root
    } else {
        join(root, key.subrange(0, name_start(key) - 1))
    }
}

/// The error for a key that is not accepted, or `None` for one that is.
pub open spec fn key_error(key: Seq<char>) -> Option<StorageErrorView> {
    match key_fault(key) {
        Some(fault) => Some(StorageErrorView::InvalidKey(fault.reason())),
        None => None,
    }
}

/// Appends `rel` to the directory `base`.
fn join_paths(base: &str, rel: &str) -> (path: String)
    ensures
        path@ == join(base@, rel@),
{
    if base.is_empty() {
        return rel.to_owned();
    }
    let len = base.unicode_len();
    let mut path = base.to_owned();
    if base.get_char(len - 1) != '/' {
        proof {
            reveal_strlit("/");
        }
        path.append("/");
        assert(path@ == base@ + seq!['/']);
    }
    path.append(rel);
    path
}

/// The engine: it owns the root directory under which every object lies.
#[derive(Debug)]
pub struct FileStorage {
    root: String,
}

impl Clone for FileStorage {
    fn clone(&self) -> (copy: Self)
        ensures
            copy@ == self@,
    {
        FileStorage { root: self.root.clone() }
    }
}

/// The mathematical value of a [`FileStorage`].
pub struct FileStorageView {
    pub root: Seq<char>,
}

impl View for FileStorage {
    type V = FileStorageView;

    closed spec fn view(&self) -> FileStorageView {
        FileStorageView { root: self.root@ }
    }
}

/// An engine that waits for its root directory to be created.
#[derive(Debug)]
pub struct PendingInit {
    root: String,
}

/// The mathematical value of a [`PendingInit`].
pub struct PendingInitView {
    pub root: Seq<char>,
}

impl View for PendingInit {
    type V = PendingInitView;

    closed spec fn view(&self) -> PendingInitView {
        PendingInitView { root: self.root@ }
    }
}

/// A `put` that waits for the object's directory to be created.
#[derive(Debug)]
pub struct PendingPut<'a> {
    dir: String,
    path: String,
    data: &'a [u8],
}

/// The mathematical value of a [`PendingPut`].
pub struct PendingPutView {
    pub dir: Seq<char>,
    pub path: Seq<char>,
    pub data: Seq<u8>,
}

impl<'a> View for PendingPut<'a> {
    type V = PendingPutView;

    closed spec fn view(&self) -> PendingPutView {
        PendingPutView { dir: self.dir@, path: self.path@, data: self.data@ }
    }
}

/// A `put` that waits for the object's file to be written.
#[derive(Debug)]
pub struct PendingWrite<'a> {
    path: String,
    data: &'a [u8],
}

/// The mathematical value of a [`PendingWrite`].
pub struct PendingWriteView {
    pub path: Seq<char>,
    pub data: Seq<u8>,
}

impl<'a> View for PendingWrite<'a> {
    type V = PendingWriteView;

    closed spec fn view(&self) -> PendingWriteView {
        PendingWriteView { path: self.path@, data: self.data@ }
    }
}

/// A `get` that waits for the object's file to be read.
#[derive(Debug)]
pub struct PendingGet {
    key: String,
    path: String,
}

/// The mathematical value of a [`PendingGet`].
pub struct PendingGetView {
    pub key: Seq<char>,
    pub path: Seq<char>,
}

impl View for PendingGet {
    type V = PendingGetView;

    closed spec fn view(&self) -> PendingGetView {
        PendingGetView { key: self.key@, path: self.path@ }
    }
}

/// A `delete` that waits for the object's file to be removed.
#[derive(Debug)]
pub struct PendingDelete {
    key: String,
    path: String,
}

/// The mathematical value of a [`PendingDelete`].
pub struct PendingDeleteView {
    pub key: Seq<char>,
    pub path: Seq<char>,
}

impl View for PendingDelete {
    type V = PendingDeleteView;

    closed spec fn view(&self) -> PendingDeleteView {
        PendingDeleteView { key: self.key@, path: self.path@ }
    }
}

/// The error that stands for a failed filesystem call when the engine does
/// not look at why it failed.
pub open spec fn io_error(failure: IoFailureView) -> StorageErrorView {
    StorageErrorView::Io(failure.detail)
}

impl PendingInitView {
    /// The engine is ready once its root directory exists.
    pub open spec fn complete(self, created: Result<(), IoFailureView>) -> Result<
        FileStorageView,
        StorageErrorView,
    > {
        match created {
            Ok(_) => Ok(FileStorageView { root: self.root }),
            Err(failure) => Err(io_error(failure)),
        }
    }
}

impl FileStorageView {
    /// The file for `key`, if the key is accepted.
    pub open spec fn path_for(self, key: Seq<char>) -> Result<Seq<char>, StorageErrorView> {
        match key_error(key) {
            Some(error) => Err(error),
            None => Ok(object_path(self.root, key)),
        }
    }

    /// A `put` starts by creating the directory of the object's file.
    pub open spec fn put(self, key: Seq<char>, data: Seq<u8>) -> Result<
        PendingPutView,
        StorageErrorView,
    > {
        match key_error(key) {
            Some(error) => Err(error),
            None => Ok(
                PendingPutView {
                    dir: object_dir(self.root, key),
                    path: object_path(self.root, key),
                    data,
                },
            ),
        }
    }

    /// A `get` reads the object's file.
    pub open spec fn get(self, key: Seq<char>) -> Result<PendingGetView, StorageErrorView> {
        match key_error(key) {
            Some(error) => Err(error),
            None => Ok(PendingGetView { key, path: object_path(self.root, key) }),
        }
    }

    /// A `delete` removes the object's file.
    pub open spec fn delete(self, key: Seq<char>) -> Result<PendingDeleteView, StorageErrorView> {
        match key_error(key) {
            Some(error) => Err(error),
            None => Ok(PendingDeleteView { key, path: object_path(self.root, key) }),
        }
    }
}

impl PendingPutView {
    /// With its directory in place the object's file is written; without it
    /// the `put` fails and nothing is written.
    pub open spec fn dirs_created(self, created: Result<(), IoFailureView>) -> Result<
        PendingWriteView,
        StorageErrorView,
    > {
        match created {
            Ok(_) => Ok(PendingWriteView { path: self.path, data: self.data }),
            Err(failure) => Err(io_error(failure)),
        }
    }
}

impl PendingWriteView {
    /// The `put` succeeds when the write did.
    pub open spec fn complete(self, written: Result<(), IoFailureView>) -> Result<
        (),
        StorageErrorView,
    > {
        match written {
            Ok(_) => Ok(()),
            Err(failure) => Err(io_error(failure)),
        }
    }
}

impl PendingGetView {
    /// The `get` gives the bytes that were read; a file that does not exist
    /// means that no object is stored under the key.
    pub open spec fn complete(self, read: Result<Seq<u8>, IoFailureView>) -> Result<
        Seq<u8>,
        StorageErrorView,
    > {
        match read {
            Ok(bytes) => Ok(bytes),
            Err(failure) => if failure.not_found {
                Err(StorageErrorView::NotFound(self.key))
            } else {
                Err(io_error(failure))
            },
        }
    }
}

impl PendingDeleteView {
    /// The `delete` succeeds when the file was removed; a file that does not
    /// exist means that no object is stored under the key.
    pub open spec fn complete(self, removed: Result<(), IoFailureView>) -> Result<
        (),
        StorageErrorView,
    > {
        match removed {
            Ok(_) => Ok(()),
            Err(failure) => if failure.not_found {
                Err(StorageErrorView::NotFound(self.key))
            } else {
                Err(io_error(failure))
            },
        }
    }
}

impl PendingInit {
    /// The directory to create, with every ancestor that is missing.
    pub fn dir(&self) -> (dir: &str)
        ensures
            dir@ == self@.root,
    {
        self.root.as_str()
    }

    /// Binds the engine to its root once the directory was created.
    pub fn complete(self, created: Result<(), IoFailure>) -> (result: Result<
        FileStorage,
        StorageError,
    >)
        ensures
            result_view(result) == self@.complete(result_view(created)),
    {
        match created {
            Ok(_) => Ok(FileStorage { root: self.root }),
            Err(failure) => Err(StorageError::from_failure(failure)),
        }
    }
}

impl FileStorage {
    /// Starts an engine on `root`. The engine is handed out once the caller
    /// has created that directory.
    pub fn new(root: &str) -> (init: PendingInit)
        ensures
            init@.root == root@,
    {
        PendingInit { root: root.to_owned() }
    }

    /// The root directory.
    pub fn root(&self) -> (root: &str)
        ensures
            root@ == self@.root,
    {
        self.root.as_str()
    }

    /// Checks `key` and resolves it to the file that holds its object.
    pub fn path_for(&self, key: &str) -> (result: Result<String, StorageError>)
        ensures
            result_view(result) == self@.path_for(key@),
    {
        match inspect_key(key) {
            Ok(_) => Ok(join_paths(self.root.as_str(), key)),
            Err(fault) => Err(invalid_key(fault)),
        }
    }

    /// Starts storing `data` under `key`, replacing what was stored there.
    pub fn put<'a>(&self, key: &str, data: &'a [u8]) -> (result: Result<
        PendingPut<'a>,
        StorageError,
    >)
        ensures
            result_view(result) == self@.put(key@, data@),
    {
        match inspect_key(key) {
            Ok(start) => {
                let path = join_paths(self.root.as_str(), key);
                let dir = if start == 0 {
                    self.root.clone()
                } else {
                    join_paths(self.root.as_str(), key.substring_char(0, start - 1))
                };
                Ok(PendingPut { dir, path, data })
            },
            Err(fault) => Err(invalid_key(fault)),
        }
    }

    /// Starts reading the object stored under `key`.
    pub fn get(&self, key: &str) -> (result: Result<PendingGet, StorageError>)
        ensures
            result_view(result) == self@.get(key@),
    {
        match self.path_for(key) {
            Ok(path) => Ok(PendingGet { key: key.to_owned(), path }),
            Err(error) => Err(error),
        }
    }

    /// Starts removing the object stored under `key`.
    pub fn delete(&self, key: &str) -> (result: Result<PendingDelete, StorageError>)
        ensures
            result_view(result) == self@.delete(key@),
    {
        match self.path_for(key) {
            Ok(path) => Ok(PendingDelete { key: key.to_owned(), path }),
            Err(error) => Err(error),
        }
    }
}

impl<'a> PendingPut<'a> {
    /// The directory to create, with every ancestor that is missing.
    pub fn dir(&self) -> (dir: &str)
        ensures
            dir@ == self@.dir,
    {
        self.dir.as_str()
    }

    /// Goes on to the write once the directory was created.
    pub fn dirs_created(self, created: Result<(), IoFailure>) -> (result: Result<
        PendingWrite<'a>,
        StorageError,
    >)
        ensures
            result_view(result) == self@.dirs_created(result_view(created)),
    {
        match created {
            Ok(_) => Ok(PendingWrite { path: self.path, data: self.data }),
            Err(failure) => Err(StorageError::from_failure(failure)),
        }
    }
}

impl<'a> PendingWrite<'a> {
    /// The file to write, replacing what it holds.
    pub fn path(&self) -> (path: &str)
        ensures
            path@ == self@.path,
    {
        self.path.as_str()
    }

    /// The bytes to write.
    pub fn data(&self) -> (data: &'a [u8])
        ensures
            data@ == self@.data,
    {
        self.data
    }

    /// Ends the `put` with the outcome of the write.
    pub fn complete(self, written: Result<(), IoFailure>) -> (result: Result<(), StorageError>)
        ensures
            result_view(result) == self@.complete(result_view(written)),
    {
        match written {
            Ok(_) => Ok(()),
            Err(failure) => Err(StorageError::from_failure(failure)),
        }
    }
}

impl PendingGet {
    /// The file to read in full.
    pub fn path(&self) -> (path: &str)
        ensures
            path@ == self@.path,
    {
        self.path.as_str()
    }

    /// Ends the `get` with the outcome of the read.
    pub fn complete(self, read: Result<Vec<u8>, IoFailure>) -> (result: Result<
        Vec<u8>,
        StorageError,
    >)
        ensures
            result_view(result) == self@.complete(result_view(read)),
    {
        match read {
            Ok(bytes) => Ok(bytes),
            Err(failure) => if failure.not_found {
                Err(StorageError::NotFound(self.key))
            } else {
                Err(StorageError::from_failure(failure))
            },
        }
    }
}

impl PendingDelete {
    /// The file to remove.
    pub fn path(&self) -> (path: &str)
        ensures
            path@ == self@.path,
    {
        self.path.as_str()
    }

    /// Ends the `delete` with the outcome of the removal.
    pub fn complete(self, removed: Result<(), IoFailure>) -> (result: Result<(), StorageError>)
        ensures
            result_view(result) == self@.complete(result_view(removed)),
    {
        match removed {
            Ok(_) => Ok(()),
            Err(failure) => if failure.not_found {
                Err(StorageError::NotFound(self.key))
            } else {
                Err(StorageError::from_failure(failure))
            },
        }
    }
}

} // verus!
