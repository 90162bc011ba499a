use vstd::prelude::*;

use crate::ids::{canonical_text, id_text, parse_id, uuid_value};

verus! {

/// A point in time as seconds since the Unix epoch and the nanoseconds past that second.
#[derive(Clone, Copy, Debug, PartialEq, Eq, Structural)]
pub struct Timestamp {
    pub secs: i64,
    pub nanos: u32,
}

/// A single stored file's metadata.
#[derive(Clone, Debug)]
pub struct Entry {
    pub uuid: u128,
    pub file_name: String,
    pub file_size: u64,
    pub source_ip: String,
    pub timestamp: Timestamp,
}

/// What an uploader supplies for a new entry; the server fills in the rest.
#[derive(Clone, Debug)]
pub struct EntryInput {
    pub file_name: String,
    pub file_size: u64,
}

/// An entry as the metadata table holds it: the id and the time as text, the size as the
/// table's signed integer.
#[derive(Clone, Debug)]
pub struct EntryRow {
    pub uuid: String,
    pub file_name: String,
    pub file_size: i64,
    pub source_ip: String,
    pub timestamp: String,
}

/// Why a table row does not make an entry, or an entry a row.
#[derive(Clone, Copy, Debug, PartialEq, Eq, Structural)]
pub enum RowError {
    BadId,
    BadSize,
    BadTimestamp,
    SizeOutOfRange,
    TimestampOutOfRange,
}

/// The RFC 3339 text that the time library writes for a UTC time, where it can represent it.
pub uninterp spec fn rfc3339_text(secs: i64, nanos: u32) -> Option<Seq<char>>;

/// The time that the time library reads from RFC 3339 text, if it is valid.
pub uninterp spec fn rfc3339_value(s: Seq<char>) -> Option<(i64, u32)>;

/// Relies on `chrono::DateTime::from_timestamp` and `DateTime::to_rfc3339`: the text depends
/// on the two numbers alone, and a nanosecond part of two seconds or more is refused.
#[verifier::external_body]
fn format_rfc3339(secs: i64, nanos: u32) -> (r: Option<String>)
    ensures
        r matches Some(t) ==> rfc3339_text(secs, nanos) == Some(t@),
        r is None ==> rfc3339_text(secs, nanos) is None,
        nanos >= 2_000_000_000 ==> r is None,
{
    chrono::DateTime::from_timestamp(secs, nanos).map(|d| d.to_rfc3339())
}

/// Relies on `chrono::DateTime::parse_from_rfc3339`, read back as Unix seconds and
/// sub-second nanoseconds: the result depends on the text alone.
#[verifier::external_body]
fn parse_rfc3339(s: &str) -> (r: Option<Timestamp>)
    ensures
        r matches Some(t) ==> rfc3339_value(s@) == Some((t.secs, t.nanos)),
        r is None ==> rfc3339_value(s@) is None,
{
    match chrono::DateTime::parse_from_rfc3339(s) {
        Ok(d) => Some(Timestamp { secs: d.timestamp(), nanos: d.timestamp_subsec_nanos() }),
        Err(_) => None,
    }
}

/// Relies on `chrono::Utc::now`: the current time, which nothing here can predict.
#[verifier::external_body]
pub(crate) fn now() -> (r: Timestamp)
    ensures
        r.nanos < 2_000_000_000,
{
    let d = chrono::Utc::now();
    Timestamp { secs: d.timestamp(), nanos: d.timestamp_subsec_nanos() }
}

/// Whether every text in `texts` reads as an id.
pub open spec fn all_ids(texts: Seq<String>) -> bool {
    forall|i: int| 0 <= i < texts.len() ==> (#[trigger] uuid_value(texts[i]@)) is Some
}

/// Reads the ids of the metadata table's rows, in order; a text that is no id is an error.
pub fn ids_from_texts(texts: &Vec<String>) -> (r: Result<Vec<u128>, RowError>)
    ensures
        all_ids(texts@) ==> (r matches Ok(ids) && ids@.len() == texts@.len() && forall|i: int|
            0 <= i < texts@.len() ==> uuid_value(#[trigger] texts@[i]@) == Some(ids@[i])),
        !all_ids(texts@) ==> r == Err::<Vec<u128>, RowError>(RowError::BadId),
{
    let mut ids: Vec<u128> = Vec::new();
    let mut i: usize = 0;
    while i < texts.len()
        invariant
            i <= texts@.len(),
            ids@.len() == i,
            forall|j: int| 0 <= j < i ==> uuid_value(#[trigger] texts@[j]@) == Some(ids@[j]),
        decreases texts@.len() - i,
    {
        match parse_id(texts[i].as_str()) {
            Some(id) => ids.push(id),
            None => {
                return Err(RowError::BadId);
            },
        }
        i = i + 1;
    }
    proof {
        assert forall|j: int| 0 <= j < texts@.len() implies (#[trigger] uuid_value(texts@[j]@)) is Some by {
            assert(uuid_value(texts@[j]@) == Some(ids@[j]));
        }
    }
    Ok(ids)
}

impl Entry {
    /// The row that stores this entry, if the size fits the table's integer and the time
    /// can be written as RFC 3339.
    pub fn to_row(&self) -> (r: Result<EntryRow, RowError>)
        ensures
            self.file_size > i64::MAX ==> r == Err::<EntryRow, RowError>(RowError::SizeOutOfRange),
            self.file_size <= i64::MAX ==> match rfc3339_text(self.timestamp.secs, self.timestamp.nanos) {
                Some(t) => r matches Ok(row) && row.uuid@ == canonical_text(self.uuid)
                    && row.file_name@ == self.file_name@ && row.file_size == self.file_size
                    && row.source_ip@ == self.source_ip@ && row.timestamp@ == t,
                None => r == Err::<EntryRow, RowError>(RowError::TimestampOutOfRange),
            },
    {
        if self.file_size > i64::MAX as u64 {
            return Err(RowError::SizeOutOfRange);
        }
        match format_rfc3339(self.timestamp.secs, self.timestamp.nanos) {
            Some(t) => Ok(
                EntryRow {
                    uuid: id_text(self.uuid),
                    file_name: self.file_name.clone(),
                    file_size: self.file_size as i64,
                    source_ip: self.source_ip.clone(),
                    timestamp: t,
                },
            ),
            None => Err(RowError::TimestampOutOfRange),
        }
    }

    /// The entry that a row stores: the id must parse, the size must not be negative, and
    /// the time must parse, checked in that order.
    pub fn from_row(row: &EntryRow) -> (r: Result<Entry, RowError>)
        ensures
            match (uuid_value(row.uuid@), rfc3339_value(row.timestamp@)) {
                (None, _) => r == Err::<Entry, RowError>(RowError::BadId),
                (Some(_), _) if row.file_size < 0 => r == Err::<Entry, RowError>(RowError::BadSize),
                (Some(_), None) => r == Err::<Entry, RowError>(RowError::BadTimestamp),
                (Some(id), Some((secs, nanos))) => r matches Ok(e) && e.uuid == id
                    && e.file_name@ == row.file_name@ && e.file_size == row.file_size
                    && e.source_ip@ == row.source_ip@ && e.timestamp == (Timestamp { secs, nanos }),
            },
    {
        let id = match parse_id(row.uuid.as_str()) {
            Some(id) => id,
            None => return Err(RowError::BadId),
        };
        if row.file_size < 0 {
            return Err(RowError::BadSize);
        }
        let timestamp = match parse_rfc3339(row.timestamp.as_str()) {
            Some(t) => t,
            None => return Err(RowError::BadTimestamp),
        };
        Ok(
            Entry {
                uuid: id,
                file_name: row.file_name.clone(),
                file_size: row.file_size as u64,
                source_ip: row.source_ip.clone(),
                timestamp,
            },
        )
    }
}

} // verus!
