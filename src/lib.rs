//! Verified core of a file vault: uploaded files are kept as blobs named by a random id,
//! with a metadata entry per id. The upload, download and deletion pipelines are state
//! machines whose decisions are proved here; the runtime around them performs the I/O.

pub mod decimal;
pub mod deletion;
pub mod download;
pub mod entry;
pub mod ids;
pub mod storage;
pub mod upload;
