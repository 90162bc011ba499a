use vstd::prelude::*;
use vstd::string::*;

use crate::ids::{canonical_text, id_text};

verus! {

/// How writing a blob went; a failure carries the cause as text.
#[derive(Clone, Debug, PartialEq, Eq)]
pub enum WriteFileResult {
    Success,
    Failure(String),
}

/// How deleting a blob went: a blob that was not there is `NotFound`, not a failure.
#[derive(Clone, Debug, PartialEq, Eq)]
pub enum DeleteFileResult {
    Success,
    NotFound,
    Failure(String),
}

/// Blobs kept as files in one directory, each named by the canonical text of its id.
pub struct LocalStorage {
    storage_path: String,
}

/// Where the blob of `id` lives under the directory `root`.
pub open spec fn blob_path(root: Seq<char>, id: u128) -> Seq<char> {
    if root.len() == 0 || root.last() == '/' {
        root + canonical_text(id)
    } else {
        root + seq!['/'] + canonical_text(id)
    }
}

/// The outcome of a blob deletion, from whether the blob was there and, where it was,
/// how its removal went (`None`: no removal was attempted).
pub open spec fn delete_outcome_of(
    existed: bool,
    removal: Option<Result<(), String>>,
) -> DeleteFileResult {
    if !existed {
        DeleteFileResult::NotFound
    } else {
        match removal {
            Some(Err(cause)) => DeleteFileResult::Failure(cause),
            _ => DeleteFileResult::Success,
        }
    }
}

/// The set of stored blob ids after a deletion of `id` that ended with `outcome`.
pub open spec fn blobs_after_delete(
    blobs: Set<u128>,
    id: u128,
    outcome: DeleteFileResult,
) -> Set<u128> {
    match outcome {
        DeleteFileResult::Failure(_) => blobs,
        _ => blobs.remove(id),
    }
}

impl LocalStorage {
    pub closed spec fn root(&self) -> Seq<char> {
        self.storage_path@
    }

    /// A store rooted at the given directory; the directory itself is made by the caller.
    pub fn new(storage_path: String) -> (r: LocalStorage)
        ensures
            r.root() == storage_path@,
    {
        LocalStorage { storage_path }
    }

    pub fn storage_path(&self) -> (r: &String)
        ensures
            r@ == self.root(),
    {
        &self.storage_path
    }

    /// The file that holds the blob of `uuid`.
    pub fn get_file_path(&self, uuid: u128) -> (r: String)
        ensures
            r@ == blob_path(self.root(), uuid),
    {
        let root = self.storage_path.as_str();
        let n = root.unicode_len();
        let name = id_text(uuid);
        let mut path = String::from_str(root);
        proof {
            reveal_strlit("/");
        }
        if n > 0 && root.get_char(n - 1) != '/' {
            path.append("/");
        }
        path.append(name.as_str());
        path
    }

    /// The outcome of deleting a blob: one that was not there is `NotFound`; one that was
    /// there is `Success` or `Failure`, as its removal went.
    pub fn delete_outcome(existed: bool, removal: Option<Result<(), String>>) -> (r:
        DeleteFileResult)
        ensures
            r == delete_outcome_of(existed, removal),
    {
        if !existed {
            DeleteFileResult::NotFound
        } else {
            match removal {
                Some(Err(cause)) => DeleteFileResult::Failure(cause),
                _ => DeleteFileResult::Success,
            }
        }
    }
}

/// Deleting a blob twice: once a deletion has not failed, the blob is gone, so a second
/// deletion of the same id finds nothing and reports `NotFound`, never a failure.
pub proof fn lemma_second_delete_not_found(
    blobs: Set<u128>,
    id: u128,
    first_removal: Option<Result<(), String>>,
    second_removal: Option<Result<(), String>>,
)
    ensures
        ({
            let first = delete_outcome_of(blobs.contains(id), first_removal);
            let after = blobs_after_delete(blobs, id, first);
            !(first is Failure) ==> delete_outcome_of(after.contains(id), second_removal)
                == DeleteFileResult::NotFound
        }),
{
}

} // verus!
