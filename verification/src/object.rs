//! Object metadata and per-object download results.

use vstd::prelude::*;

verus! {

/// Metadata of one remote object, as a listing page reports it: the object
/// key, its size in bytes, and its last-modified instant as seconds since the
/// Unix epoch (absent when the store did not report one).
pub struct ObjectMeta {
    pub key: String,
    pub size: u64,
    pub last_modified: Option<i64>,
}

/// The mathematical value of an [`ObjectMeta`].
pub struct ObjectMetaV {
    pub key: Seq<char>,
    pub size: u64,
    pub last_modified: Option<i64>,
}

impl View for ObjectMeta {
    type V = ObjectMetaV;

    open spec fn view(&self) -> ObjectMetaV {
        ObjectMetaV { key: self.key@, size: self.size, last_modified: self.last_modified }
    }
}

impl Clone for ObjectMeta {
    fn clone(&self) -> (res: Self)
        ensures
            res == *self,
    {
        ObjectMeta { key: self.key.clone(), size: self.size, last_modified: self.last_modified }
    }
}

impl ObjectMeta {
    pub fn new(key: String, size: u64, last_modified: Option<i64>) -> (m: ObjectMeta)
        ensures
            m.key == key,
            m.size == size,
            m.last_modified == last_modified,
    {
        ObjectMeta { key, size, last_modified }
    }
}

/// One completed download: the path of the local file and the byte count the
/// worker observed after writing it.
pub struct DownloadResult {
    pub file: String,
    pub bytes: u64,
}

/// The mathematical value of a [`DownloadResult`].
pub struct DownloadResultV {
    pub file: Seq<char>,
    pub bytes: u64,
}

impl View for DownloadResult {
    type V = DownloadResultV;

    open spec fn view(&self) -> DownloadResultV {
        DownloadResultV { file: self.file@, bytes: self.bytes }
    }
}

impl Clone for DownloadResult {
    fn clone(&self) -> (res: Self)
        ensures
            res == *self,
    {
        DownloadResult { file: self.file.clone(), bytes: self.bytes }
    }
}

} // verus!
