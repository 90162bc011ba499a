use vstd::prelude::*;
use vstd::string::*;

use crate::decimal::{decimal_u64, parse_u64};
use crate::download::{fetch, Fetched, StoreModel};
use crate::entry::{now, Entry, EntryInput, Timestamp};
use crate::ids::{fresh_id, is_random_id};
use crate::storage::WriteFileResult;

verus! {

/// Why an upload request is turned away before anything is stored.
#[derive(Clone, Copy, Debug, PartialEq, Eq, Structural)]
pub enum UploadError {
    NoFile,
    NoFilename,
    MissingLength,
    InvalidLength,
}

/// Why an accepted upload failed; each carries the cause as text where there is one.
#[derive(Clone, Debug, PartialEq, Eq)]
pub enum UploadFailure {
    /// The bytes could not be handed to the blob writer.
    Handoff,
    /// The inbound stream broke off.
    Stream(String),
    /// The blob writer reported a failure.
    Storage(String),
    /// The blob writer's task was lost.
    Task(String),
    /// The metadata insert failed.
    Database(String),
}

/// How an accepted upload ends.
#[derive(Clone, Debug, PartialEq, Eq)]
pub enum UploadOutcome {
    Committed(u128),
    Failed(UploadFailure),
}

/// Where an accepted upload stands.
#[derive(Clone, Debug)]
pub enum UploadState {
    /// Reading the inbound stream and forwarding its bytes to the blob writer.
    Streaming,
    /// The stream ended; waiting for the blob writer to finish.
    AwaitingWrite,
    /// The blob is written; inserting this entry.
    Committing(Entry),
    /// Something failed; deleting the possibly partial blob.
    RollingBack(UploadFailure),
    Done(UploadOutcome),
}

/// What the surrounding runtime reports back to an upload.
#[derive(Clone, Debug)]
pub enum UploadEvent {
    Chunk(Vec<u8>),
    StreamFailed(String),
    HandoffFailed,
    StreamEnded,
    /// The blob writer succeeded, at this time.
    BlobWritten(Timestamp),
    BlobWriteFailed(String),
    WriterLost(String),
    Inserted,
    InsertFailed(String),
    /// The rollback's blob deletion finished (its result is not acted on).
    BlobRemoved,
}

/// What the surrounding runtime is to do next.
#[derive(Clone, Debug, PartialEq, Eq)]
pub enum UploadAction {
    ReadNext,
    Forward(Vec<u8>),
    /// Close the handoff and wait for the blob writer's result.
    AwaitWriter,
    /// Insert the entry that the `Committing` state holds.
    Insert,
    DeleteBlob,
    /// Answer with the outcome that the `Done` state holds.
    Respond,
}

/// One accepted upload: the blob and entry it makes are keyed by `id`.
#[derive(Clone, Debug)]
pub struct UploadSession {
    pub id: u128,
    pub file_name: String,
    pub file_size: u64,
    pub source_ip: String,
    pub state: UploadState,
}

/// The checks of an upload request, in order: a file part, its file name, then a
/// `Content-Length` that is a decimal `u64`.
pub open spec fn upload_inputs(
    has_file: bool,
    file_name: Option<String>,
    content_length: Option<Vec<u8>>,
) -> Result<(Seq<char>, u64), UploadError> {
    if !has_file {
        Err(UploadError::NoFile)
    } else {
        match file_name {
            None => Err(UploadError::NoFilename),
            Some(f) => match content_length {
                None => Err(UploadError::MissingLength),
                Some(c) => match decimal_u64(c@) {
                    None => Err(UploadError::InvalidLength),
                    Some(n) => Ok((f@, n)),
                },
            },
        }
    }
}

/// The entry that an upload commits once its blob is written at time `t`.
pub open spec fn entry_of(s: UploadSession, t: Timestamp) -> Entry {
    Entry {
        uuid: s.id,
        file_name: s.file_name,
        file_size: s.file_size,
        source_ip: s.source_ip,
        timestamp: t,
    }
}

/// The upload pipeline's transitions. An event that does not fit the state leaves it as is.
pub open spec fn upload_next(s: UploadSession, ev: UploadEvent) -> UploadSession {
    let to = |st: UploadState| UploadSession { state: st, ..s };
    match s.state {
        UploadState::Streaming => match ev {
            UploadEvent::StreamFailed(c) => to(UploadState::RollingBack(UploadFailure::Stream(c))),
            UploadEvent::HandoffFailed => to(UploadState::RollingBack(UploadFailure::Handoff)),
            UploadEvent::StreamEnded => to(UploadState::AwaitingWrite),
            _ => s,
        },
        UploadState::AwaitingWrite => match ev {
            UploadEvent::BlobWritten(t) => to(UploadState::Committing(entry_of(s, t))),
            UploadEvent::BlobWriteFailed(c) => to(
                UploadState::RollingBack(UploadFailure::Storage(c)),
            ),
            UploadEvent::WriterLost(c) => to(UploadState::RollingBack(UploadFailure::Task(c))),
            _ => s,
        },
        UploadState::Committing(_) => match ev {
            UploadEvent::Inserted => to(UploadState::Done(UploadOutcome::Committed(s.id))),
            UploadEvent::InsertFailed(c) => to(
                UploadState::RollingBack(UploadFailure::Database(c)),
            ),
            _ => s,
        },
        UploadState::RollingBack(f) => match ev {
            UploadEvent::BlobRemoved => to(UploadState::Done(UploadOutcome::Failed(f))),
            _ => s,
        },
        UploadState::Done(_) => s,
    }
}

/// The action that a state asks for.
pub open spec fn state_action(st: UploadState) -> UploadAction {
    match st {
        UploadState::Streaming => UploadAction::ReadNext,
        UploadState::AwaitingWrite => UploadAction::AwaitWriter,
        UploadState::Committing(_) => UploadAction::Insert,
        UploadState::RollingBack(_) => UploadAction::DeleteBlob,
        UploadState::Done(_) => UploadAction::Respond,
    }
}

/// The action after an event: a chunk read while streaming is forwarded as it is;
/// otherwise the new state's action.
pub open spec fn upload_action(s: UploadSession, ev: UploadEvent) -> UploadAction {
    match (s.state, ev) {
        (UploadState::Streaming, UploadEvent::Chunk(b)) => UploadAction::Forward(b),
        _ => state_action(upload_next(s, ev).state),
    }
}

/// What an event does to the stores, when they behave as their contracts say; `pending`
/// is what has been handed to the blob writer so far.
pub open spec fn upload_effect(s: UploadSession, ev: UploadEvent, m: StoreModel, pending: Seq<u8>) -> (
    StoreModel,
    Seq<u8>,
) {
    match (s.state, ev) {
        (UploadState::Streaming, UploadEvent::Chunk(b)) => (m, pending + b@),
        (UploadState::AwaitingWrite, UploadEvent::BlobWritten(_)) => (
            StoreModel { meta: m.meta, blobs: m.blobs.insert(s.id, pending) },
            pending,
        ),
        (UploadState::Committing(e), UploadEvent::Inserted) => (
            StoreModel { meta: m.meta.insert(s.id, e), blobs: m.blobs },
            pending,
        ),
        (UploadState::RollingBack(_), UploadEvent::BlobRemoved) => (
            StoreModel { meta: m.meta, blobs: m.blobs.remove(s.id) },
            pending,
        ),
        _ => (m, pending),
    }
}

/// An upload run over a sequence of events: the final session, stores and handed-off bytes.
pub open spec fn run_upload(
    s: UploadSession,
    m: StoreModel,
    pending: Seq<u8>,
    evs: Seq<UploadEvent>,
) -> (UploadSession, StoreModel, Seq<u8>)
    decreases evs.len(),
{
    if evs.len() == 0 {
        (s, m, pending)
    } else {
        let (m2, p2) = upload_effect(s, evs[0], m, pending);
        run_upload(upload_next(s, evs[0]), m2, p2, evs.drop_first())
    }
}

/// The bytes of the chunks in `evs` that come before the stream ends or breaks off.
pub open spec fn streamed(evs: Seq<UploadEvent>) -> Seq<u8>
    decreases evs.len(),
{
    if evs.len() == 0 {
        seq![]
    } else {
        match evs[0] {
            UploadEvent::Chunk(b) => b@ + streamed(evs.drop_first()),
            UploadEvent::StreamFailed(_) => seq![],
            UploadEvent::HandoffFailed => seq![],
            UploadEvent::StreamEnded => seq![],
            _ => streamed(evs.drop_first()),
        }
    }
}

/// What holds of an upload past streaming, for a commit to store what was handed off.
pub open spec fn commit_ready(s: UploadSession, m: StoreModel, pending: Seq<u8>) -> bool {
    &&& !(s.state is Streaming)
    &&& (s.state matches UploadState::Committing(e) ==> e.file_name == s.file_name
        && m.blobs.dom().contains(s.id) && m.blobs[s.id] == pending)
    &&& (s.state matches UploadState::Done(UploadOutcome::Committed(_)) ==> m.meta.dom().contains(
        s.id,
    ) && m.meta[s.id].file_name == s.file_name && m.blobs.dom().contains(s.id) && m.blobs[s.id]
        == pending)
}

/// The stores hold a commit's entry and blob once the run reports it.
pub open spec fn stored_as_committed(
    f: UploadSession,
    fm: StoreModel,
    id: u128,
    file_name: Seq<char>,
    bytes: Seq<u8>,
) -> bool {
    f.state == UploadState::Done(UploadOutcome::Committed(id)) ==> fetch(fm, id) == (Fetched::Found {
        file_name,
        bytes,
    })
}

proof fn lemma_commit_after_stream(s: UploadSession, m: StoreModel, pending: Seq<u8>, evs: Seq<UploadEvent>)
    requires
        commit_ready(s, m, pending),
    ensures
        ({
            let (f, fm, fp) = run_upload(s, m, pending, evs);
            stored_as_committed(f, fm, s.id, s.file_name@, pending)
        }),
    decreases evs.len(),
{
    if evs.len() == 0 {
        if s.state == UploadState::Done(UploadOutcome::Committed(s.id)) {
            assert(fetch(m, s.id) == (Fetched::Found { file_name: s.file_name@, bytes: pending }));
        }
    } else {
        let (m2, p2) = upload_effect(s, evs[0], m, pending);
        let s2 = upload_next(s, evs[0]);
        assert(p2 == pending);
        assert(commit_ready(s2, m2, p2));
        lemma_commit_after_stream(s2, m2, p2, evs.drop_first());
    }
}

proof fn lemma_commit_while_streaming(s: UploadSession, m: StoreModel, pending: Seq<u8>, evs: Seq<UploadEvent>)
    requires
        s.state is Streaming,
    ensures
        ({
            let (f, fm, fp) = run_upload(s, m, pending, evs);
            stored_as_committed(f, fm, s.id, s.file_name@, pending + streamed(evs))
        }),
    decreases evs.len(),
{
    if evs.len() > 0 {
        let (m2, p2) = upload_effect(s, evs[0], m, pending);
        let s2 = upload_next(s, evs[0]);
        let rest = evs.drop_first();
        match evs[0] {
            UploadEvent::Chunk(b) => {
                lemma_commit_while_streaming(s2, m2, p2, rest);
                assert(pending + b@ + streamed(rest) =~= pending + streamed(evs));
            },
            UploadEvent::StreamFailed(_) => {
                assert(pending + streamed(evs) =~= pending);
                lemma_commit_after_stream(s2, m2, p2, rest);
            },
            UploadEvent::HandoffFailed => {
                assert(pending + streamed(evs) =~= pending);
                lemma_commit_after_stream(s2, m2, p2, rest);
            },
            UploadEvent::StreamEnded => {
                assert(pending + streamed(evs) =~= pending);
                lemma_commit_after_stream(s2, m2, p2, rest);
            },
            _ => {
                lemma_commit_while_streaming(s2, m2, p2, rest);
            },
        }
    }
}

/// Round trip: an upload that commits leaves an entry under its file name and a blob that
/// holds exactly the bytes streamed in, so a download of its id yields those bytes under
/// that name.
pub proof fn lemma_upload_round_trip(s: UploadSession, m: StoreModel, evs: Seq<UploadEvent>)
    requires
        s.state is Streaming,
    ensures
        ({
            let (f, fm, fp) = run_upload(s, m, seq![], evs);
            f.state == UploadState::Done(UploadOutcome::Committed(s.id)) ==> fetch(fm, s.id) == (
            Fetched::Found { file_name: s.file_name@, bytes: streamed(evs) })
        }),
{
    lemma_commit_while_streaming(s, m, seq![], evs);
    assert(seq![] + streamed(evs) =~= streamed(evs));
}

/// Past a failure, an upload only rolls back.
pub open spec fn rolling_back(s: UploadSession) -> bool {
    s.state is RollingBack || s.state matches UploadState::Done(UploadOutcome::Failed(_))
}

proof fn lemma_rollback_keeps_meta_out(s: UploadSession, m: StoreModel, pending: Seq<u8>, evs: Seq<UploadEvent>)
    requires
        rolling_back(s),
        !m.meta.dom().contains(s.id),
    ensures
        ({
            let (f, fm, fp) = run_upload(s, m, pending, evs);
            rolling_back(f) && !fm.meta.dom().contains(s.id)
        }),
    decreases evs.len(),
{
    if evs.len() > 0 {
        let (m2, p2) = upload_effect(s, evs[0], m, pending);
        lemma_rollback_keeps_meta_out(upload_next(s, evs[0]), m2, p2, evs.drop_first());
    }
}

/// A failure before the metadata commit (the stream breaking off, the handoff failing, the
/// blob write failing or its task being lost) never lets an entry for the upload's id
/// appear: neither a lookup nor the list of ids sees it, whatever events follow, and the
/// upload never reports a commit.
pub proof fn lemma_failed_write_never_commits(
    s: UploadSession,
    ev: UploadEvent,
    m: StoreModel,
    pending: Seq<u8>,
    evs: Seq<UploadEvent>,
)
    requires
        (s.state is Streaming && (ev is StreamFailed || ev is HandoffFailed)) || (
        s.state is AwaitingWrite && (ev is BlobWriteFailed || ev is WriterLost)),
        !m.meta.dom().contains(s.id),
    ensures
        ({
            let (m1, p1) = upload_effect(s, ev, m, pending);
            let (f, fm, fp) = run_upload(upload_next(s, ev), m1, p1, evs);
            !fm.meta.dom().contains(s.id) && rolling_back(f)
        }),
{
    let (m1, p1) = upload_effect(s, ev, m, pending);
    lemma_rollback_keeps_meta_out(upload_next(s, ev), m1, p1, evs);
}

impl UploadError {
    pub open spec fn text(&self) -> Seq<char> {
        match self {
            UploadError::NoFile => "No file in request"@,
            UploadError::NoFilename => "No filename provided"@,
            UploadError::MissingLength => "Content-Length header required"@,
            UploadError::InvalidLength => "Invalid Content-Length header"@,
        }
    }

    /// Every rejected request is answered with 400.
    pub fn status(&self) -> (r: u16)
        ensures
            r == 400,
    {
        400
    }

    pub fn message(&self) -> (r: String)
        ensures
            r@ == self.text(),
    {
        match self {
            UploadError::NoFile => String::from_str("No file in request"),
            UploadError::NoFilename => String::from_str("No filename provided"),
            UploadError::MissingLength => String::from_str("Content-Length header required"),
            UploadError::InvalidLength => String::from_str("Invalid Content-Length header"),
        }
    }
}

impl UploadOutcome {
    pub open spec fn status_of(&self) -> u16 {
        match self {
            UploadOutcome::Committed(_) => 200,
            UploadOutcome::Failed(_) => 500,
        }
    }

    pub fn status(&self) -> (r: u16)
        ensures
            r == self.status_of(),
    {
        match self {
            UploadOutcome::Committed(_) => 200,
            UploadOutcome::Failed(_) => 500,
        }
    }
}

impl UploadFailure {
    pub open spec fn text(&self) -> Seq<char> {
        match self {
            UploadFailure::Handoff => "Failed to process upload stream"@,
            UploadFailure::Stream(c) => "Upload error: "@ + c@,
            UploadFailure::Storage(c) => "Storage error: "@ + c@,
            UploadFailure::Task(c) => "Task error: "@ + c@,
            UploadFailure::Database(c) => "Database error: "@ + c@,
        }
    }

    /// The text that the failure is answered with.
    pub fn message(&self) -> (r: String)
        ensures
            r@ == self.text(),
    {
        let (prefix, cause) = match self {
            UploadFailure::Handoff => {
                return String::from_str("Failed to process upload stream");
            },
            UploadFailure::Stream(c) => ("Upload error: ", c),
            UploadFailure::Storage(c) => ("Storage error: ", c),
            UploadFailure::Task(c) => ("Task error: ", c),
            UploadFailure::Database(c) => ("Database error: ", c),
        };
        let mut r = String::from_str(prefix);
        r.append(cause.as_str());
        r
    }
}

/// Checks an upload request before anything is stored: a file part must be present, with
/// a file name, and a `Content-Length` header that reads as a decimal `u64`.
pub fn validate_upload(has_file: bool, file_name: Option<String>, content_length: Option<Vec<u8>>) -> (r:
    Result<EntryInput, UploadError>)
    ensures
        match upload_inputs(has_file, file_name, content_length) {
            Ok((f, n)) => r matches Ok(input) && input.file_name@ == f && input.file_size == n,
            Err(e) => r == Err::<EntryInput, UploadError>(e),
        },
{
    if !has_file {
        return Err(UploadError::NoFile);
    }
    let file_name = match file_name {
        Some(f) => f,
        None => return Err(UploadError::NoFilename),
    };
    let content_length = match content_length {
        Some(c) => c,
        None => return Err(UploadError::MissingLength),
    };
    match parse_u64(content_length.as_slice()) {
        Some(n) => Ok(EntryInput { file_name, file_size: n }),
        None => Err(UploadError::InvalidLength),
    }
}

impl UploadSession {
    /// A session for a validated upload under a fresh random id, streaming from the start.
    pub fn start(input: EntryInput, source_ip: String) -> (r: UploadSession)
        ensures
            is_random_id(r.id),
            r.file_name@ == input.file_name@,
            r.file_size == input.file_size,
            r.source_ip@ == source_ip@,
            r.state is Streaming,
    {
        UploadSession {
            id: fresh_id(),
            file_name: input.file_name,
            file_size: input.file_size,
            source_ip,
            state: UploadState::Streaming,
        }
    }

    /// Validates an upload request and, only where it passes, starts a session for it;
    /// a rejected request gets no id.
    pub fn begin(
        has_file: bool,
        file_name: Option<String>,
        content_length: Option<Vec<u8>>,
        source_ip: String,
    ) -> (r: Result<UploadSession, UploadError>)
        ensures
            match upload_inputs(has_file, file_name, content_length) {
                Ok((f, n)) => r matches Ok(s) && s.file_name@ == f && s.file_size == n
                    && s.source_ip@ == source_ip@ && s.state is Streaming && is_random_id(s.id),
                Err(e) => r == Err::<UploadSession, UploadError>(e),
            },
    {
        match validate_upload(has_file, file_name, content_length) {
            Ok(input) => Ok(UploadSession::start(input, source_ip)),
            Err(e) => Err(e),
        }
    }

    /// The action that the current state asks for.
    pub fn action(&self) -> (r: UploadAction)
        ensures
            r == state_action(self.state),
    {
        match self.state {
            UploadState::Streaming => UploadAction::ReadNext,
            UploadState::AwaitingWrite => UploadAction::AwaitWriter,
            UploadState::Committing(_) => UploadAction::Insert,
            UploadState::RollingBack(_) => UploadAction::DeleteBlob,
            UploadState::Done(_) => UploadAction::Respond,
        }
    }

    /// Takes one event: the next session and what to do next.
    pub fn step(self, ev: UploadEvent) -> (r: (UploadSession, UploadAction))
        ensures
            r.0 == upload_next(self, ev),
            r.1 == upload_action(self, ev),
    {
        let ghost s0 = self;
        let ghost e0 = ev;
        let UploadSession { id, file_name, file_size, source_ip, state } = self;
        let (state, action) = match state {
            UploadState::Streaming => match ev {
                UploadEvent::Chunk(b) => (UploadState::Streaming, UploadAction::Forward(b)),
                UploadEvent::StreamFailed(c) => (
                    UploadState::RollingBack(UploadFailure::Stream(c)),
                    UploadAction::DeleteBlob,
                ),
                UploadEvent::HandoffFailed => (
                    UploadState::RollingBack(UploadFailure::Handoff),
                    UploadAction::DeleteBlob,
                ),
                UploadEvent::StreamEnded => (UploadState::AwaitingWrite, UploadAction::AwaitWriter),
                _ => (UploadState::Streaming, UploadAction::ReadNext),
            },
            UploadState::AwaitingWrite => match ev {
                UploadEvent::BlobWritten(t) => (
                    UploadState::Committing(
                        Entry {
                            uuid: id,
                            file_name: file_name.clone(),
                            file_size,
                            source_ip: source_ip.clone(),
                            timestamp: t,
                        },
                    ),
                    UploadAction::Insert,
                ),
                UploadEvent::BlobWriteFailed(c) => (
                    UploadState::RollingBack(UploadFailure::Storage(c)),
                    UploadAction::DeleteBlob,
                ),
                UploadEvent::WriterLost(c) => (
                    UploadState::RollingBack(UploadFailure::Task(c)),
                    UploadAction::DeleteBlob,
                ),
                _ => (UploadState::AwaitingWrite, UploadAction::AwaitWriter),
            },
            UploadState::Committing(e) => match ev {
                UploadEvent::Inserted => (
                    UploadState::Done(UploadOutcome::Committed(id)),
                    UploadAction::Respond,
                ),
                UploadEvent::InsertFailed(c) => (
                    UploadState::RollingBack(UploadFailure::Database(c)),
                    UploadAction::DeleteBlob,
                ),
                _ => (UploadState::Committing(e), UploadAction::Insert),
            },
            UploadState::RollingBack(f) => match ev {
                UploadEvent::BlobRemoved => (
                    UploadState::Done(UploadOutcome::Failed(f)),
                    UploadAction::Respond,
                ),
                _ => (UploadState::RollingBack(f), UploadAction::DeleteBlob),
            },
            UploadState::Done(o) => (UploadState::Done(o), UploadAction::Respond),
        };
        (UploadSession { id, file_name, file_size, source_ip, state }, action)
    }
}

/// The event that reports the blob writer's result; a success is stamped with the
/// current time, whatever it is.
pub fn write_finished(result: WriteFileResult) -> (r: UploadEvent)
    ensures
        match result {
            WriteFileResult::Success => r is BlobWritten,
            WriteFileResult::Failure(c) => r == UploadEvent::BlobWriteFailed(c),
        },
{
    match result {
        WriteFileResult::Success => UploadEvent::BlobWritten(now()),
        WriteFileResult::Failure(c) => UploadEvent::BlobWriteFailed(c),
    }
}

} // verus!
