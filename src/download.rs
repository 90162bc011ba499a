use vstd::prelude::*;

use crate::entry::Entry;
use crate::storage::{blob_path, LocalStorage};

verus! {

/// The two stores as the laws see them: metadata by id, and blob bytes by id.
pub struct StoreModel {
    pub meta: Map<u128, Entry>,
    pub blobs: Map<u128, Seq<u8>>,
}

/// What a download of an id yields, in terms of the stored values.
pub enum Fetched {
    Found { file_name: Seq<char>, bytes: Seq<u8> },
    EntryMissing,
    BlobMissing,
}

/// The download rule over the stores: the entry first, then the blob; a blob missing
/// under an existing entry is told apart from an entry that never existed.
pub open spec fn fetch(m: StoreModel, id: u128) -> Fetched {
    if !m.meta.dom().contains(id) {
        Fetched::EntryMissing
    } else if !m.blobs.dom().contains(id) {
        Fetched::BlobMissing
    } else {
        Fetched::Found { file_name: m.meta[id].file_name@, bytes: m.blobs[id] }
    }
}

/// The HTTP status that answers a download.
pub open spec fn fetch_status(f: Fetched) -> u16 {
    match f {
        Fetched::Found { .. } => 200,
        _ => 404,
    }
}

/// How a download ends.
#[derive(Clone, Debug, PartialEq, Eq)]
pub enum DownloadOutcome {
    /// The blob at `path`, to be served under `file_name`.
    Found { file_name: String, path: String },
    EntryMissing,
    BlobMissing,
    Failure(String),
}

/// What a download does after looking up the entry.
#[derive(Clone, Debug, PartialEq, Eq)]
pub enum DownloadStep {
    /// See whether the blob file exists, then call `after_check`.
    CheckBlob { file_name: String, path: String },
    Finished(DownloadOutcome),
}

impl DownloadOutcome {
    pub open spec fn status_of(&self) -> u16 {
        match self {
            DownloadOutcome::Found { .. } => 200,
            DownloadOutcome::EntryMissing => 404,
            DownloadOutcome::BlobMissing => 404,
            DownloadOutcome::Failure(_) => 500,
        }
    }

    pub fn status(&self) -> (r: u16)
        ensures
            r == self.status_of(),
    {
        match self {
            DownloadOutcome::Found { .. } => 200,
            DownloadOutcome::EntryMissing => 404,
            DownloadOutcome::BlobMissing => 404,
            DownloadOutcome::Failure(_) => 500,
        }
    }
}

/// The first decision of a download, from the metadata lookup of `id`: an absent entry
/// or a failed lookup ends it; a present one leads to the blob's file.
pub fn after_lookup(storage: &LocalStorage, id: u128, lookup: Result<Option<Entry>, String>) -> (r:
    DownloadStep)
    ensures
        match lookup {
            Ok(Some(e)) => r matches DownloadStep::CheckBlob { file_name, path } && file_name@
                == e.file_name@ && path@ == blob_path(storage.root(), id),
            Ok(None) => r == DownloadStep::Finished(DownloadOutcome::EntryMissing),
            Err(cause) => r == DownloadStep::Finished(DownloadOutcome::Failure(cause)),
        },
{
    match lookup {
        Ok(Some(e)) => DownloadStep::CheckBlob { file_name: e.file_name, path: storage.get_file_path(id) },
        Ok(None) => DownloadStep::Finished(DownloadOutcome::EntryMissing),
        Err(cause) => DownloadStep::Finished(DownloadOutcome::Failure(cause)),
    }
}

/// The last decision of a download: the blob's file is served if it exists; if it does
/// not, the stores have diverged and the outcome says so.
pub fn after_check(file_name: String, path: String, blob_exists: bool) -> (r: DownloadOutcome)
    ensures
        blob_exists ==> r == (DownloadOutcome::Found { file_name, path }),
        !blob_exists ==> r == DownloadOutcome::BlobMissing,
{
    if blob_exists {
        DownloadOutcome::Found { file_name, path }
    } else {
        DownloadOutcome::BlobMissing
    }
}

} // verus!
