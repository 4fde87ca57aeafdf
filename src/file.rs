use crate::cas::{alias_rule, blob_path, AliasPlan, DLStorage, LinkModel, LinkState};
use crate::decompress::{DLDecompressionConfig, DecompressionMethod, DecompressionModel};
use crate::hashes::{hashes_accept, DLHashType, DLHashes};
use crate::redirection_middleware::{is_success, status_is_success};
use vstd::prelude::*;

verus! {

/// One file to download.
#[derive(Debug, Clone)]
pub struct DLFile {
    /// Size of the file in bytes.
    pub size: u64,
    /// URL of the file.
    pub url: String,
    /// Hashes the content is checked against.
    pub hashes: DLHashes,
    /// Where the file is saved.
    pub path: String,
    /// How the file is unpacked once downloaded, if it is.
    pub decompression_config: Option<DLDecompressionConfig>,
    /// Content-addressed store the file is kept in, if any.
    pub cas: Option<DLStorage>,
}

/// Model of a [`DLFile`].
pub struct FileModel {
    pub size: u64,
    pub url: Seq<char>,
    pub hashes: Seq<(DLHashType, Seq<char>)>,
    pub path: Seq<char>,
    pub decompression: Option<DecompressionModel>,
    pub cas_root: Option<Seq<char>>,
}

impl View for DLFile {
    type V = FileModel;

    open spec fn view(&self) -> FileModel {
        FileModel {
            size: self.size,
            url: self.url@,
            hashes: self.hashes@,
            path: self.path@,
            decompression: match self.decompression_config {
                Some(c) => Some(c@),
                None => None,
            },
            cas_root: match self.cas {
                Some(s) => Some(s.path@),
                None => None,
            },
        }
    }
}

/// The content key a file is stored under: its first configured hash, when
/// it uses a store and has a hash at all.
pub open spec fn cas_key(f: FileModel) -> Option<Seq<char>> {
    if f.cas_root is Some && f.hashes.len() > 0 {
        Some(f.hashes[0].1)
    } else {
        None
    }
}

/// The content key when it is long enough to name a shard.
pub open spec fn content_key(f: FileModel) -> Option<Seq<char>> {
    match cas_key(f) {
        Some(k) => if k.len() >= 2 {
            Some(k)
        } else {
            None
        },
        None => None,
    }
}

/// Where the bytes of a file are written: its blob when it has a usable
/// content key, its own path otherwise.
pub open spec fn write_target(f: FileModel) -> Seq<char> {
    match content_key(f) {
        Some(k) => blob_path(f.cas_root->Some_0, k),
        None => f.path,
    }
}

impl DLFile {
    /// A file with no path, URL, size or hash, no unpacking and no store.
    pub fn new() -> (r: Self)
        ensures
            r@.size == 0,
            r@.url.len() == 0,
            r@.hashes.len() == 0,
            r@.path.len() == 0,
            r@.decompression is None,
            r@.cas_root is None,
    {
        DLFile {
            size: 0,
            url: String::new(),
            hashes: DLHashes::new(),
            path: String::new(),
            decompression_config: None,
            cas: None,
        }
    }

    /// Sets where the file is saved.
    pub fn with_path(self, path: &str) -> (r: Self)
        ensures
            r@ == (FileModel { path: path@, ..self@ }),
    {
        DLFile { path: path.to_owned(), ..self }
    }

    /// Sets the URL.
    pub fn with_url(self, url: &str) -> (r: Self)
        ensures
            r@ == (FileModel { url: url@, ..self@ }),
    {
        DLFile { url: url.to_owned(), ..self }
    }

    /// Sets the size in bytes.
    pub fn with_size(self, size: u64) -> (r: Self)
        ensures
            r@ == (FileModel { size, ..self@ }),
    {
        DLFile { size, ..self }
    }

    /// Sets the hashes.
    pub fn with_hashes(self, hashes: DLHashes) -> (r: Self)
        ensures
            r@ == (FileModel { hashes: hashes@, ..self@ }),
    {
        DLFile { hashes, ..self }
    }

    /// Unpacks the file once downloaded.
    pub fn with_decompression_config(self, config: DLDecompressionConfig) -> (r: Self)
        ensures
            r@ == (FileModel { decompression: Some(config@), ..self@ }),
    {
        DLFile { decompression_config: Some(config), ..self }
    }

    /// Keeps the file in a content-addressed store.
    pub fn with_cas(self, value: DLStorage) -> (r: Self)
        ensures
            r@ == (FileModel { cas_root: Some(value.path@), ..self@ }),
    {
        DLFile { cas: Some(value), ..self }
    }

    /// The content key of the file.
    pub fn cas_key(&self) -> (r: Option<String>)
        ensures
            match r {
                Some(k) => cas_key(self@) == Some(k@),
                None => cas_key(self@) is None,
            },
    {
        if self.cas.is_some() && self.hashes.hashes.len() > 0 {
            Some(self.hashes.hashes[0].1.clone())
        } else {
            None
        }
    }
}

/// Why a download failed.
#[derive(Debug, Clone, PartialEq, Eq)]
pub enum DLError {
    /// The server answered with a status that is not a success.
    HttpStatus(u16),
    /// The request or the reading of the body failed.
    Network(String),
    /// Too many redirections.
    RedirectLimitExceeded,
    /// No configured hash matched the content.
    Integrity,
    /// The content key is too short to name a shard.
    InvalidContentHash,
    /// Something other than the right alias occupies the file's path.
    PathOccupied,
    /// A directory, file or link could not be made or removed.
    Filesystem(String),
    /// Unpacking failed.
    Decompression(String),
}

/// Model of a [`DLError`].
pub enum ErrorModel {
    HttpStatus(u16),
    Network(Seq<char>),
    RedirectLimitExceeded,
    Integrity,
    InvalidContentHash,
    PathOccupied,
    Filesystem(Seq<char>),
    Decompression(Seq<char>),
}

impl View for DLError {
    type V = ErrorModel;

    open spec fn view(&self) -> ErrorModel {
        match self {
            DLError::HttpStatus(s) => ErrorModel::HttpStatus(*s),
            DLError::Network(m) => ErrorModel::Network(m@),
            DLError::RedirectLimitExceeded => ErrorModel::RedirectLimitExceeded,
            DLError::Integrity => ErrorModel::Integrity,
            DLError::InvalidContentHash => ErrorModel::InvalidContentHash,
            DLError::PathOccupied => ErrorModel::PathOccupied,
            DLError::Filesystem(m) => ErrorModel::Filesystem(m@),
            DLError::Decompression(m) => ErrorModel::Decompression(m@),
        }
    }
}

/// Where a download stands.
#[derive(Debug, Clone, Copy, PartialEq, Eq, Structural)]
pub enum Phase {
    /// Not started.
    Pending,
    /// Waiting to learn whether the blob is already stored.
    LookingUp,
    /// Waiting for the response.
    Requesting,
    /// Waiting for the output file to be created.
    Opening,
    /// Receiving the body.
    Receiving,
    /// Waiting for the written content to check it.
    Verifying,
    /// Waiting for the alias to be created.
    Aliasing,
    /// Waiting for the completion callback to run.
    Notifying,
    /// Waiting for the archive to be unpacked.
    PostProcessing,
    /// Waiting for the archive to be removed.
    Cleaning,
    /// Done.
    Completed,
    /// Failed.
    Failed,
}

/// What happened, reported to the machine by whoever performs its actions.
#[derive(Debug)]
pub enum TaskEvent {
    /// A transfer permit was granted.
    Begin,
    /// Whether the blob exists, and what lies at the file's path.
    Lookup(bool, LinkState),
    /// The alias was created, or why not.
    Aliased(Result<(), String>),
    /// The response arrived with this status.
    Responded(u16),
    /// The request failed.
    TransportFailed(String),
    /// The redirect bound was reached.
    TooManyRedirects,
    /// The output file was created, or why not.
    Opened(Result<(), String>),
    /// A chunk of this many bytes was received and written.
    Chunk(u64),
    /// The body ended.
    BodyEnd,
    /// Reading or writing the body failed.
    ReadFailed(String),
    /// The written content.
    Content(Vec<u8>),
    /// The completion callback ran.
    Notified,
    /// The archive was unpacked, or why not.
    Decompressed(Result<(), String>),
    /// The archive was removed, or why not.
    Removed(Result<(), String>),
}

/// Model of a [`TaskEvent`]; an `Err` carries the reason.
pub enum EventModel {
    Begin,
    Lookup(bool, LinkModel),
    Aliased(Result<(), Seq<char>>),
    Responded(u16),
    TransportFailed(Seq<char>),
    TooManyRedirects,
    Opened(Result<(), Seq<char>>),
    Chunk(u64),
    BodyEnd,
    ReadFailed(Seq<char>),
    Content(Seq<u8>),
    Notified,
    Decompressed(Result<(), Seq<char>>),
    Removed(Result<(), Seq<char>>),
}

/// Model of an outcome that carries a reason on failure.
pub open spec fn outcome_view(r: Result<(), String>) -> Result<(), Seq<char>> {
    match r {
        Ok(()) => Ok(()),
        Err(m) => Err(m@),
    }
}

impl View for TaskEvent {
    type V = EventModel;

    open spec fn view(&self) -> EventModel {
        match self {
            TaskEvent::Begin => EventModel::Begin,
            TaskEvent::Lookup(found, link) => EventModel::Lookup(*found, link@),
            TaskEvent::Aliased(r) => EventModel::Aliased(outcome_view(*r)),
            TaskEvent::Responded(s) => EventModel::Responded(*s),
            TaskEvent::TransportFailed(m) => EventModel::TransportFailed(m@),
            TaskEvent::TooManyRedirects => EventModel::TooManyRedirects,
            TaskEvent::Opened(r) => EventModel::Opened(outcome_view(*r)),
            TaskEvent::Chunk(n) => EventModel::Chunk(*n),
            TaskEvent::BodyEnd => EventModel::BodyEnd,
            TaskEvent::ReadFailed(m) => EventModel::ReadFailed(m@),
            TaskEvent::Content(b) => EventModel::Content(b@),
            TaskEvent::Notified => EventModel::Notified,
            TaskEvent::Decompressed(r) => EventModel::Decompressed(outcome_view(*r)),
            TaskEvent::Removed(r) => EventModel::Removed(outcome_view(*r)),
        }
    }
}

/// What the machine asks to be done next.
#[derive(Debug, Clone)]
pub enum TaskAction {
    /// Test whether the blob at this path exists and what lies at the
    /// file's path; answer with `Lookup`.
    LookupBlob(String),
    /// Make a symbolic link at the second path to the first; answer with
    /// `Aliased`.
    CreateAlias(String, String),
    /// Request this URL; answer with `Responded`, `TransportFailed` or
    /// `TooManyRedirects`.
    Request(String),
    /// Create the output file at this path, and its directory; answer with
    /// `Opened`.
    OpenOutput(String),
    /// Report this position and read the next chunk; answer with `Chunk`,
    /// `BodyEnd` or `ReadFailed`.
    Progress(u64),
    /// Read the file at this path; answer with `Content`.
    ReadContent(String),
    /// Run the completion callback with the file's path; answer with
    /// `Notified`.
    Notify(String),
    /// Unpack the archive at the first path into the second; answer with
    /// `Decompressed`.
    Decompress(String, String, DecompressionMethod),
    /// Remove the archive at this path; answer with `Removed`.
    RemoveArchive(String),
    /// The download succeeded; report the position, if one is given, then
    /// the success.
    Succeed(Option<u64>),
    /// The download failed.
    Fail(DLError),
    /// The event was not expected here; nothing to do.
    Ignore,
}

/// Model of a [`TaskAction`].
pub enum ActionModel {
    LookupBlob(Seq<char>),
    CreateAlias(Seq<char>, Seq<char>),
    Request(Seq<char>),
    OpenOutput(Seq<char>),
    Progress(u64),
    ReadContent(Seq<char>),
    Notify(Seq<char>),
    Decompress(Seq<char>, Seq<char>, DecompressionMethod),
    RemoveArchive(Seq<char>),
    Succeed(Option<u64>),
    Fail(ErrorModel),
    Ignore,
}

impl View for TaskAction {
    type V = ActionModel;

    open spec fn view(&self) -> ActionModel {
        match self {
            TaskAction::LookupBlob(p) => ActionModel::LookupBlob(p@),
            TaskAction::CreateAlias(b, l) => ActionModel::CreateAlias(b@, l@),
            TaskAction::Request(u) => ActionModel::Request(u@),
            TaskAction::OpenOutput(p) => ActionModel::OpenOutput(p@),
            TaskAction::Progress(n) => ActionModel::Progress(*n),
            TaskAction::ReadContent(p) => ActionModel::ReadContent(p@),
            TaskAction::Notify(p) => ActionModel::Notify(p@),
            TaskAction::Decompress(a, o, m) => ActionModel::Decompress(a@, o@, *m),
            TaskAction::RemoveArchive(p) => ActionModel::RemoveArchive(p@),
            TaskAction::Succeed(n) => ActionModel::Succeed(*n),
            TaskAction::Fail(e) => ActionModel::Fail(e@),
            TaskAction::Ignore => ActionModel::Ignore,
        }
    }
}

/// The state of one download.
#[derive(Debug, Clone, Copy, PartialEq, Eq, Structural)]
pub struct TaskRun {
    /// Where the download stands.
    pub phase: Phase,
    /// Bytes received so far.
    pub received: u64,
    /// Whether the content came from the store without a transfer.
    pub deduplicated: bool,
    /// How the file's path is to be aliased to its blob.
    pub alias: AliasPlan,
}

/// `a + b`, or the largest `u64` when that does not fit.
pub open spec fn saturating_sum(a: u64, b: u64) -> u64 {
    if a + b > u64::MAX {
        u64::MAX
    } else {
        (a + b) as u64
    }
}

/// The run after moving to `phase`.
pub open spec fn moved(r: TaskRun, phase: Phase) -> TaskRun {
    TaskRun { phase, ..r }
}

/// Step taken once the content is accepted: alias it if it went to a
/// blob and the alias is missing, else run the callback.
pub open spec fn after_accept(r: TaskRun, f: FileModel) -> (TaskRun, ActionModel) {
    if content_key(f) is Some && r.alias == AliasPlan::Create {
        (moved(r, Phase::Aliasing), ActionModel::CreateAlias(write_target(f), f.path))
    } else {
        (moved(r, Phase::Notifying), ActionModel::Notify(f.path))
    }
}

/// Step taken once the callback ran: a file taken from the store is done;
/// another is unpacked when so configured.
pub open spec fn after_notify(r: TaskRun, f: FileModel) -> (TaskRun, ActionModel) {
    if r.deduplicated {
        (moved(r, Phase::Completed), ActionModel::Succeed(Some(f.size)))
    } else {
        match f.decompression {
            Some(c) => (
                moved(r, Phase::PostProcessing),
                ActionModel::Decompress(f.path, c.1, c.0),
            ),
            None => (moved(r, Phase::Completed), ActionModel::Succeed(None)),
        }
    }
}

/// Failing with `e`.
pub open spec fn failing(r: TaskRun, e: ErrorModel) -> (TaskRun, ActionModel) {
    (moved(r, Phase::Failed), ActionModel::Fail(e))
}

/// The download protocol: the next state and the action to perform, given
/// the current state, the file and what happened.
pub open spec fn task_next(r: TaskRun, f: FileModel, e: EventModel) -> (TaskRun, ActionModel) {
    match (r.phase, e) {
        (Phase::Pending, EventModel::Begin) => if cas_key(f) is Some && content_key(f) is None {
            failing(r, ErrorModel::InvalidContentHash)
        } else if content_key(f) is Some {
            (moved(r, Phase::LookingUp), ActionModel::LookupBlob(write_target(f)))
        } else {
            (moved(r, Phase::Requesting), ActionModel::Request(f.url))
        },
        (Phase::LookingUp, EventModel::Lookup(found, link)) => {
            let plan = alias_rule(write_target(f), link);
            let r2 = TaskRun { alias: plan, ..r };
            if plan == AliasPlan::Conflict {
                failing(r2, ErrorModel::PathOccupied)
            } else if found {
                after_accept(TaskRun { deduplicated: true, ..r2 }, f)
            } else {
                (moved(r2, Phase::Requesting), ActionModel::Request(f.url))
            }
        },
        (Phase::Requesting, EventModel::Responded(status)) => if is_success(status) {
            (moved(r, Phase::Opening), ActionModel::OpenOutput(write_target(f)))
        } else {
            failing(r, ErrorModel::HttpStatus(status))
        },
        (Phase::Requesting, EventModel::TransportFailed(m)) => failing(r, ErrorModel::Network(m)),
        (Phase::Requesting, EventModel::TooManyRedirects) => failing(
            r,
            ErrorModel::RedirectLimitExceeded,
        ),
        (Phase::Opening, EventModel::Opened(o)) => match o {
            Ok(()) => (moved(r, Phase::Receiving), ActionModel::Progress(r.received)),
            Err(m) => failing(r, ErrorModel::Filesystem(m)),
        },
        (Phase::Receiving, EventModel::Chunk(n)) => {
            let total = saturating_sum(r.received, n);
            (TaskRun { received: total, ..r }, ActionModel::Progress(total))
        },
        (Phase::Receiving, EventModel::ReadFailed(m)) => failing(r, ErrorModel::Network(m)),
        (Phase::Receiving, EventModel::BodyEnd) => if f.hashes.len() == 0 {
            after_accept(r, f)
        } else {
            (moved(r, Phase::Verifying), ActionModel::ReadContent(write_target(f)))
        },
        (Phase::Verifying, EventModel::Content(bytes)) => if hashes_accept(f.hashes, bytes) {
            after_accept(r, f)
        } else {
            failing(r, ErrorModel::Integrity)
        },
        (Phase::Aliasing, EventModel::Aliased(o)) => match o {
            Ok(()) => (moved(r, Phase::Notifying), ActionModel::Notify(f.path)),
            Err(m) => failing(r, ErrorModel::Filesystem(m)),
        },
        (Phase::Notifying, EventModel::Notified) => after_notify(r, f),
        (Phase::PostProcessing, EventModel::Decompressed(o)) => match o {
            Ok(()) => match f.decompression {
                Some(c) if c.2 => (moved(r, Phase::Cleaning), ActionModel::RemoveArchive(f.path)),
                _ => (moved(r, Phase::Completed), ActionModel::Succeed(None)),
            },
            Err(m) => failing(r, ErrorModel::Decompression(m)),
        },
        (Phase::Cleaning, EventModel::Removed(o)) => match o {
            Ok(()) => (moved(r, Phase::Completed), ActionModel::Succeed(None)),
            Err(m) => failing(r, ErrorModel::Filesystem(m)),
        },
        _ => (r, ActionModel::Ignore),
    }
}

impl TaskRun {
    /// A download that has not started.
    pub fn new() -> (r: Self)
        ensures
            r.phase == Phase::Pending,
            r.received == 0,
            !r.deduplicated,
            r.alias == AliasPlan::Create,
    {
        TaskRun { phase: Phase::Pending, received: 0, deduplicated: false, alias: AliasPlan::Create }
    }

    /// Whether the download reached a terminal state.
    pub fn is_finished(&self) -> (r: bool)
        ensures
            r == (self.phase == Phase::Completed || self.phase == Phase::Failed),
    {
        self.phase == Phase::Completed || self.phase == Phase::Failed
    }

    fn content_key(file: &DLFile) -> (r: Option<String>)
        ensures
            match r {
                Some(k) => content_key(file@) == Some(k@),
                None => content_key(file@) is None,
            },
    {
        match file.cas_key() {
            Some(k) => if k.unicode_len() >= 2 {
                Some(k)
            } else {
                None
            },
            None => None,
        }
    }

    fn write_target(file: &DLFile) -> (r: String)
        ensures
            r@ == write_target(file@),
    {
        match Self::content_key(file) {
            Some(k) => match &file.cas {
                Some(store) => store.path(k.as_str()),
                None => file.path.clone(),
            },
            None => file.path.clone(),
        }
    }

    fn fail(&mut self, e: DLError) -> (a: TaskAction)
        ensures
            (*final(self), a@) == failing(*old(self), e@),
    {
        self.phase = Phase::Failed;
        TaskAction::Fail(e)
    }

    fn accept(&mut self, file: &DLFile) -> (a: TaskAction)
        ensures
            (*final(self), a@) == after_accept(*old(self), file@),
    {
        if Self::content_key(file).is_some() && self.alias == AliasPlan::Create {
            self.phase = Phase::Aliasing;
            TaskAction::CreateAlias(Self::write_target(file), file.path.clone())
        } else {
            self.phase = Phase::Notifying;
            TaskAction::Notify(file.path.clone())
        }
    }

    fn notified(&mut self, file: &DLFile) -> (a: TaskAction)
        ensures
            (*final(self), a@) == after_notify(*old(self), file@),
    {
        if self.deduplicated {
            self.phase = Phase::Completed;
            TaskAction::Succeed(Some(file.size))
        } else {
            match &file.decompression_config {
                Some(c) => {
                    self.phase = Phase::PostProcessing;
                    TaskAction::Decompress(file.path.clone(), c.output.clone(), c.method)
                },
                None => {
                    self.phase = Phase::Completed;
                    TaskAction::Succeed(None)
                },
            }
        }
    }

    /// Advances the download on `event` and returns what to do next.
    pub fn step(&mut self, file: &DLFile, event: TaskEvent) -> (a: TaskAction)
        ensures
            (*final(self), a@) == task_next(*old(self), file@, event@),
    {
        match (self.phase, event) {
            (Phase::Pending, TaskEvent::Begin) => {
                if file.cas_key().is_some() && Self::content_key(file).is_none() {
                    self.fail(DLError::InvalidContentHash)
                } else if Self::content_key(file).is_some() {
                    self.phase = Phase::LookingUp;
                    TaskAction::LookupBlob(Self::write_target(file))
                } else {
                    self.phase = Phase::Requesting;
                    TaskAction::Request(file.url.clone())
                }
            },
            (Phase::LookingUp, TaskEvent::Lookup(found, link)) => {
                let target = Self::write_target(file);
                let plan = match link {
                    LinkState::Absent => AliasPlan::Create,
                    LinkState::Symlink(t) => if t == target {
                        AliasPlan::Keep
                    } else {
                        AliasPlan::Conflict
                    },
                    LinkState::Other => AliasPlan::Conflict,
                };
                self.alias = plan;
                if plan == AliasPlan::Conflict {
                    self.fail(DLError::PathOccupied)
                } else if found {
                    self.deduplicated = true;
                    self.accept(file)
                } else {
                    self.phase = Phase::Requesting;
                    TaskAction::Request(file.url.clone())
                }
            },
            (Phase::Requesting, TaskEvent::Responded(status)) => {
                if status_is_success(status) {
                    self.phase = Phase::Opening;
                    TaskAction::OpenOutput(Self::write_target(file))
                } else {
                    self.fail(DLError::HttpStatus(status))
                }
            },
            (Phase::Requesting, TaskEvent::TransportFailed(m)) => self.fail(DLError::Network(m)),
            (Phase::Requesting, TaskEvent::TooManyRedirects) => self.fail(
                DLError::RedirectLimitExceeded,
            ),
            (Phase::Opening, TaskEvent::Opened(o)) => match o {
                Ok(()) => {
                    self.phase = Phase::Receiving;
                    TaskAction::Progress(self.received)
                },
                Err(m) => self.fail(DLError::Filesystem(m)),
            },
            (Phase::Receiving, TaskEvent::Chunk(n)) => {
                self.received = self.received.saturating_add(n);
                TaskAction::Progress(self.received)
            },
            (Phase::Receiving, TaskEvent::ReadFailed(m)) => self.fail(DLError::Network(m)),
            (Phase::Receiving, TaskEvent::BodyEnd) => {
                if file.hashes.hashes.len() == 0 {
                    self.accept(file)
                } else {
                    self.phase = Phase::Verifying;
                    TaskAction::ReadContent(Self::write_target(file))
                }
            },
            (Phase::Verifying, TaskEvent::Content(bytes)) => {
                if file.hashes.verify_data(bytes.as_slice()) {
                    self.accept(file)
                } else {
                    self.fail(DLError::Integrity)
                }
            },
            (Phase::Aliasing, TaskEvent::Aliased(o)) => match o {
                Ok(()) => {
                    self.phase = Phase::Notifying;
                    TaskAction::Notify(file.path.clone())
                },
                Err(m) => self.fail(DLError::Filesystem(m)),
            },
            (Phase::Notifying, TaskEvent::Notified) => self.notified(file),
            (Phase::PostProcessing, TaskEvent::Decompressed(o)) => match o {
                Ok(()) => match &file.decompression_config {
                    Some(c) => if c.delete_after {
                        self.phase = Phase::Cleaning;
                        TaskAction::RemoveArchive(file.path.clone())
                    } else {
                        self.phase = Phase::Completed;
                        TaskAction::Succeed(None)
                    },
                    None => {
                        self.phase = Phase::Completed;
                        TaskAction::Succeed(None)
                    },
                },
                Err(m) => self.fail(DLError::Decompression(m)),
            },
            (Phase::Cleaning, TaskEvent::Removed(o)) => match o {
                Ok(()) => {
                    self.phase = Phase::Completed;
                    TaskAction::Succeed(None)
                },
                Err(m) => self.fail(DLError::Filesystem(m)),
            },
            _ => TaskAction::Ignore,
        }
    }
}

/// Whether a run was served from the store and is past the lookup.
pub open spec fn served_from_store(r: TaskRun) -> bool {
    r.deduplicated && (r.phase == Phase::Aliasing || r.phase == Phase::Notifying || r.phase
        == Phase::Completed || r.phase == Phase::Failed)
}

/// Content deduplication: a download whose content the lookup finds in the
/// store issues no request and writes no blob, then or at any later step;
/// and two files with the same store and the same content key write to,
/// and alias, one and the same blob.
pub proof fn lemma_dedup_skips_transfer(
    r: TaskRun,
    f: FileModel,
    g: FileModel,
    link: LinkModel,
)
    requires
        r.phase == Phase::LookingUp,
    ensures
        !(task_next(r, f, EventModel::Lookup(true, link)).1 is Request),
        !(task_next(r, f, EventModel::Lookup(true, link)).1 is OpenOutput),
        task_next(r, f, EventModel::Lookup(true, link)).0.phase == Phase::Failed || served_from_store(
            task_next(r, f, EventModel::Lookup(true, link)).0,
        ),
        content_key(f) is Some && f.cas_root == g.cas_root && cas_key(f) == cas_key(g) ==> write_target(f)
            == write_target(g),
{
}

/// Once a download is served from the store, no event makes it request or
/// write anything, and it stays served from the store.
pub proof fn lemma_served_stays_local(r: TaskRun, f: FileModel, e: EventModel)
    requires
        served_from_store(r),
    ensures
        !(task_next(r, f, e).1 is Request),
        !(task_next(r, f, e).1 is OpenOutput),
        served_from_store(task_next(r, f, e).0),
{
}

/// Verification at the task level: once the body is in, content that
/// matches at least one configured hash moves the download on, and the
/// download fails with an integrity error exactly when it matches none.
pub proof fn lemma_integrity_failure_iff_no_match(r: TaskRun, f: FileModel, bytes: Seq<u8>)
    requires
        r.phase == Phase::Verifying,
    ensures
        task_next(r, f, EventModel::Content(bytes)).1 == ActionModel::Fail(ErrorModel::Integrity)
            <==> !hashes_accept(f.hashes, bytes),
        task_next(r, f, EventModel::Content(bytes)).0.phase == Phase::Failed <==> !hashes_accept(
            f.hashes,
            bytes,
        ),
{
}

} // verus!
