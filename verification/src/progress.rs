//! The progress-event model: channel types, the tagged event union delivered
//! over the stream, and the analysis stage enumeration.
//!
//! Entity ids are opaque 128-bit identifiers; timestamps and extra payload
//! data are carried as plain values so the routing and tracking logic over
//! them can be specified exactly.

use vstd::prelude::*;

verus! {

/// Coarse category of a subscription, used to route subscribe/unsubscribe
/// commands and to key the subscription registry.
#[derive(Debug, Clone, Copy, PartialEq, Eq, Hash, Structural)]
pub enum ChannelType {
    Upload,
    Analysis,
    Batch,
    User,
}

/// Progress of a single document upload.
#[derive(Debug, PartialEq)]
pub struct UploadProgressEvent {
    pub document_id: u128,
    pub file_name: String,
    pub bytes_uploaded: u64,
    pub total_bytes: u64,
    pub progress: u8,
    pub message: String,
}

/// The closed set of stages an analysis passes through, used only for
/// display; `Completed` is the one terminal stage.
#[derive(Debug, Clone, Copy, PartialEq, Eq, Structural)]
pub enum AnalysisStage {
    Queued,
    Starting,
    ExtractingText,
    ChunkingText,
    GeneratingEmbeddings,
    AnalyzingContent,
    Finalizing,
    Completed,
}

impl AnalysisStage {
    /// The human-readable name of the stage.
    pub fn display_name(&self) -> (r: &str)
        ensures
            r@ == self.display_name_spec(),
    {
        proof {
            reveal_strlit("Queued");
            reveal_strlit("Starting");
            reveal_strlit("Extracting Text");
            reveal_strlit("Chunking Text");
            reveal_strlit("Generating Embeddings");
            reveal_strlit("Analyzing Content");
            reveal_strlit("Finalizing");
            reveal_strlit("Completed");
        }
        match self {
            Self::Queued => "Queued",
            Self::Starting => "Starting",
            Self::ExtractingText => "Extracting Text",
            Self::ChunkingText => "Chunking Text",
            Self::GeneratingEmbeddings => "Generating Embeddings",
            Self::AnalyzingContent => "Analyzing Content",
            Self::Finalizing => "Finalizing",
            Self::Completed => "Completed",
        }
    }

    /// The name `display_name` returns, one per stage.
    pub open spec fn display_name_spec(&self) -> Seq<char> {
        match self {
            Self::Queued => "Queued"@,
            Self::Starting => "Starting"@,
            Self::ExtractingText => "Extracting Text"@,
            Self::ChunkingText => "Chunking Text"@,
            Self::GeneratingEmbeddings => "Generating Embeddings"@,
            Self::AnalyzingContent => "Analyzing Content"@,
            Self::Finalizing => "Finalizing"@,
            Self::Completed => "Completed"@,
        }
    }

    /// Whether the stage is the terminal one.
    pub fn is_terminal(&self) -> (r: bool)
        ensures
            r == (*self == AnalysisStage::Completed),
    {
        matches!(self, Self::Completed)
    }
}

/// Progress of a running analysis. Extra detail the server attaches is
/// carried through verbatim as text.
#[derive(Debug, PartialEq)]
pub struct AnalysisProgressEvent {
    pub analysis_id: u128,
    pub document_id: u128,
    pub stage: AnalysisStage,
    pub progress: u8,
    pub message: String,
    pub details: Option<String>,
}

/// Status of a single file within a batch.
#[derive(Debug, Clone, Copy, PartialEq, Eq, Structural)]
pub enum FileStatus {
    Pending,
    Uploading,
    Processing,
    Completed,
    Failed,
}

/// Progress of one file of a batch operation.
#[derive(Debug, PartialEq)]
pub struct FileProgress {
    pub document_id: u128,
    pub file_name: String,
    pub status: FileStatus,
    pub progress: u8,
    pub message: String,
}

/// Progress of a batch operation as a whole.
#[derive(Debug, PartialEq)]
pub struct BatchProgressEvent {
    pub batch_id: u128,
    pub total_files: usize,
    pub completed_files: usize,
    pub current_file: Option<String>,
    pub overall_progress: u8,
    pub file_progress: Vec<FileProgress>,
}

/// The kind of failure an error event reports.
#[derive(Debug, Clone, Copy, PartialEq, Eq, Structural)]
pub enum ErrorType {
    Upload,
    Analysis,
    System,
    Network,
}

/// A terminal failure event for an entity.
#[derive(Debug, PartialEq)]
pub struct ErrorEvent {
    pub id: u128,
    pub error_type: ErrorType,
    pub message: String,
    pub details: Option<String>,
}

/// The kind of work a completion event closes out.
#[derive(Debug, Clone, Copy, PartialEq, Eq, Structural)]
pub enum CompleteEventType {
    Upload,
    Analysis,
    Batch,
}

/// A terminal success event for an entity. Any result payload the server
/// attaches is carried through verbatim as text.
#[derive(Debug, PartialEq)]
pub struct CompleteEvent {
    pub id: u128,
    pub event_type: CompleteEventType,
    pub message: String,
    pub result: Option<String>,
}

/// The tagged union of events delivered over the stream. Every payload
/// carries the correlating entity id; `Error` and `Complete` are the only
/// terminal kinds.
#[derive(Debug, PartialEq)]
pub enum ProgressEvent {
    Upload(UploadProgressEvent),
    Analysis(AnalysisProgressEvent),
    Batch(BatchProgressEvent),
    Error(ErrorEvent),
    Complete(CompleteEvent),
}

impl ProgressEvent {
    /// The id of the entity the event correlates with.
    pub open spec fn spec_entity_id(&self) -> u128 {
        match self {
            ProgressEvent::Upload(e) => e.document_id,
            ProgressEvent::Analysis(e) => e.analysis_id,
            ProgressEvent::Batch(e) => e.batch_id,
            ProgressEvent::Error(e) => e.id,
            ProgressEvent::Complete(e) => e.id,
        }
    }

    /// Returns the id of the entity the event correlates with.
    pub fn entity_id(&self) -> (id: u128)
        ensures
            id == self.spec_entity_id(),
    {
        match self {
            ProgressEvent::Upload(e) => e.document_id,
            ProgressEvent::Analysis(e) => e.analysis_id,
            ProgressEvent::Batch(e) => e.batch_id,
            ProgressEvent::Error(e) => e.id,
            ProgressEvent::Complete(e) => e.id,
        }
    }

    /// Whether the event is terminal for its entity.
    pub open spec fn spec_is_terminal(&self) -> bool {
        self is Error || self is Complete
    }

    /// Returns whether the event is terminal for its entity: `Complete` and
    /// `Error` are the only terminal kinds.
    pub fn is_terminal(&self) -> (r: bool)
        ensures
            r == self.spec_is_terminal(),
    {
        matches!(self, ProgressEvent::Error(_) | ProgressEvent::Complete(_))
    }
}

/// Two optional texts hold the same characters (or are both absent).
pub open spec fn opt_text_equiv(a: &Option<String>, b: &Option<String>) -> bool {
    match (a, b) {
        (Some(x), Some(y)) => x@ == y@,
        (None, None) => true,
        _ => false,
    }
}

/// Two upload events agree on every field, comparing texts by content.
pub open spec fn upload_equiv(a: &UploadProgressEvent, b: &UploadProgressEvent) -> bool {
    &&& a.document_id == b.document_id
    &&& a.file_name@ == b.file_name@
    &&& a.bytes_uploaded == b.bytes_uploaded
    &&& a.total_bytes == b.total_bytes
    &&& a.progress == b.progress
    &&& a.message@ == b.message@
}

/// Two analysis events agree on every field, comparing texts by content.
pub open spec fn analysis_equiv(a: &AnalysisProgressEvent, b: &AnalysisProgressEvent) -> bool {
    &&& a.analysis_id == b.analysis_id
    &&& a.document_id == b.document_id
    &&& a.stage == b.stage
    &&& a.progress == b.progress
    &&& a.message@ == b.message@
    &&& opt_text_equiv(&a.details, &b.details)
}

/// Two per-file records agree on every field, comparing texts by content.
pub open spec fn file_progress_equiv(a: &FileProgress, b: &FileProgress) -> bool {
    &&& a.document_id == b.document_id
    &&& a.file_name@ == b.file_name@
    &&& a.status == b.status
    &&& a.progress == b.progress
    &&& a.message@ == b.message@
}

/// Two batch events agree on every field, comparing texts by content.
pub open spec fn batch_equiv(a: &BatchProgressEvent, b: &BatchProgressEvent) -> bool {
    &&& a.batch_id == b.batch_id
    &&& a.total_files == b.total_files
    &&& a.completed_files == b.completed_files
    &&& opt_text_equiv(&a.current_file, &b.current_file)
    &&& a.overall_progress == b.overall_progress
    &&& a.file_progress@.len() == b.file_progress@.len()
    &&& forall|i: int|
        0 <= i < a.file_progress@.len() ==> file_progress_equiv(
            #[trigger] &a.file_progress@[i],
            &b.file_progress@[i],
        )
}

/// Two error events agree on every field, comparing texts by content.
pub open spec fn error_equiv(a: &ErrorEvent, b: &ErrorEvent) -> bool {
    &&& a.id == b.id
    &&& a.error_type == b.error_type
    &&& a.message@ == b.message@
    &&& opt_text_equiv(&a.details, &b.details)
}

/// Two completion events agree on every field, comparing texts by content.
pub open spec fn complete_equiv(a: &CompleteEvent, b: &CompleteEvent) -> bool {
    &&& a.id == b.id
    &&& a.event_type == b.event_type
    &&& a.message@ == b.message@
    &&& opt_text_equiv(&a.result, &b.result)
}

/// Two events carry the same variant and payload, comparing texts by content.
pub open spec fn event_equiv(a: &ProgressEvent, b: &ProgressEvent) -> bool {
    match (a, b) {
        (ProgressEvent::Upload(x), ProgressEvent::Upload(y)) => upload_equiv(x, y),
        (ProgressEvent::Analysis(x), ProgressEvent::Analysis(y)) => analysis_equiv(x, y),
        (ProgressEvent::Batch(x), ProgressEvent::Batch(y)) => batch_equiv(x, y),
        (ProgressEvent::Error(x), ProgressEvent::Error(y)) => error_equiv(x, y),
        (ProgressEvent::Complete(x), ProgressEvent::Complete(y)) => complete_equiv(x, y),
        _ => false,
    }
}

/// Equivalent events correlate with the same entity and agree on being
/// terminal.
pub proof fn lemma_event_equiv_same_routing(a: &ProgressEvent, b: &ProgressEvent)
    requires
        event_equiv(a, b),
    ensures
        a.spec_entity_id() == b.spec_entity_id(),
        a.spec_is_terminal() == b.spec_is_terminal(),
{
}

/// Copies an optional text, keeping its content.
fn clone_opt_text(a: &Option<String>) -> (r: Option<String>)
    ensures
        opt_text_equiv(a, &r),
{
    match a {
        Some(s) => Some(s.clone()),
        None => None,
    }
}

impl Clone for UploadProgressEvent {
    /// Copies the event, keeping every field's content.
    fn clone(&self) -> (r: Self)
        ensures
            upload_equiv(self, &r),
    {
        UploadProgressEvent {
            document_id: self.document_id,
            file_name: self.file_name.clone(),
            bytes_uploaded: self.bytes_uploaded,
            total_bytes: self.total_bytes,
            progress: self.progress,
            message: self.message.clone(),
        }
    }
}

impl Clone for AnalysisProgressEvent {
    /// Copies the event, keeping every field's content.
    fn clone(&self) -> (r: Self)
        ensures
            analysis_equiv(self, &r),
    {
        AnalysisProgressEvent {
            analysis_id: self.analysis_id,
            document_id: self.document_id,
            stage: self.stage,
            progress: self.progress,
            message: self.message.clone(),
            details: clone_opt_text(&self.details),
        }
    }
}

impl Clone for FileProgress {
    /// Copies the record, keeping every field's content.
    fn clone(&self) -> (r: Self)
        ensures
            file_progress_equiv(self, &r),
    {
        FileProgress {
            document_id: self.document_id,
            file_name: self.file_name.clone(),
            status: self.status,
            progress: self.progress,
            message: self.message.clone(),
        }
    }
}

impl Clone for BatchProgressEvent {
    /// Copies the event, keeping every field's content.
    fn clone(&self) -> (r: Self)
        ensures
            batch_equiv(self, &r),
    {
        let mut files: Vec<FileProgress> = Vec::new();
        let mut i: usize = 0;
        while i < self.file_progress.len()
            invariant
                i <= self.file_progress@.len(),
                files@.len() == i,
                forall|j: int|
                    0 <= j < i ==> file_progress_equiv(
                        #[trigger] &self.file_progress@[j],
                        &files@[j],
                    ),
            decreases self.file_progress@.len() - i,
        {
            files.push(self.file_progress[i].clone());
            i = i + 1;
        }
        BatchProgressEvent {
            batch_id: self.batch_id,
            total_files: self.total_files,
            completed_files: self.completed_files,
            current_file: clone_opt_text(&self.current_file),
            overall_progress: self.overall_progress,
            file_progress: files,
        }
    }
}

impl Clone for ErrorEvent {
    /// Copies the event, keeping every field's content.
    fn clone(&self) -> (r: Self)
        ensures
            error_equiv(self, &r),
    {
        ErrorEvent {
            id: self.id,
            error_type: self.error_type,
            message: self.message.clone(),
            details: clone_opt_text(&self.details),
        }
    }
}

impl Clone for CompleteEvent {
    /// Copies the event, keeping every field's content.
    fn clone(&self) -> (r: Self)
        ensures
            complete_equiv(self, &r),
    {
        CompleteEvent {
            id: self.id,
            event_type: self.event_type,
            message: self.message.clone(),
            result: clone_opt_text(&self.result),
        }
    }
}

impl Clone for ProgressEvent {
    /// Copies the event, keeping its variant and every field's content.
    fn clone(&self) -> (r: Self)
        ensures
            event_equiv(self, &r),
    {
        match self {
            ProgressEvent::Upload(e) => ProgressEvent::Upload(e.clone()),
            ProgressEvent::Analysis(e) => ProgressEvent::Analysis(e.clone()),
            ProgressEvent::Batch(e) => ProgressEvent::Batch(e.clone()),
            ProgressEvent::Error(e) => ProgressEvent::Error(e.clone()),
            ProgressEvent::Complete(e) => ProgressEvent::Complete(e.clone()),
        }
    }
}

} // verus!
