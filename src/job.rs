//! Job records, their abstract states, and the responses that report on them.
use vstd::prelude::*;

verus! {

/// The state of one conversion job. A job starts `Processing` and moves once,
/// to `Completed` or to `Error`; both of those are final.
#[derive(Debug)]
pub enum JobStatus {
    Processing,
    Completed { mp3_path: String },
    Error { message: String },
}

/// What a `JobStatus` stands for, with its texts as character sequences.
pub enum JobState {
    Processing,
    Completed(Seq<char>),
    Failed(Seq<char>),
}

impl View for JobStatus {
    type V = JobState;

    open spec fn view(&self) -> JobState {
        match self {
            JobStatus::Processing => JobState::Processing,
            JobStatus::Completed { mp3_path } => JobState::Completed(mp3_path@),
            JobStatus::Error { message } => JobState::Failed(message@),
        }
    }
}

impl JobState {
    /// No further transition leaves this state.
    pub open spec fn is_terminal(self) -> bool {
        !(self is Processing)
    }
}

/// A job as it is handed to a store: its identifier, the working directory
/// that it owns, and its state.
pub struct ConversionJob<W> {
    pub id: String,
    pub temp_dir: W,
    pub status: JobStatus,
}

/// The answer to a caller that starts a conversion or asks about one.
#[derive(Debug)]
pub struct ConvertResponse {
    pub id: String,
    pub status: String,
    pub message: String,
}

/// What a `ConvertResponse` says, as character sequences.
pub struct ResponseView {
    pub id: Seq<char>,
    pub status: Seq<char>,
    pub message: Seq<char>,
}

impl View for ConvertResponse {
    type V = ResponseView;

    open spec fn view(&self) -> ResponseView {
        ResponseView { id: self.id@, status: self.status@, message: self.message@ }
    }
}

/// The report on the job `id`, which is in state `job`, or unknown where `job` is `None`.
pub open spec fn status_response(id: Seq<char>, job: Option<JobState>) -> ResponseView {
    match job {
        None => ResponseView { id, status: "not_found"@, message: "Job not found"@ },
        Some(JobState::Processing) => ResponseView {
            id,
            status: "processing"@,
            message: "Processing your video..."@,
        },
        Some(JobState::Completed(_)) => ResponseView {
            id,
            status: "completed"@,
            message: "Conversion completed successfully"@,
        },
        Some(JobState::Failed(m)) => ResponseView { id, status: "error"@, message: m },
    }
}

/// The answer to a start request whose address was refused.
pub open spec fn invalid_url_response() -> ResponseView {
    ResponseView {
        id: Seq::empty(),
        status: "error"@,
        message: "Please enter a valid YouTube URL"@,
    }
}

/// The answer to a start request that created the job `id`.
pub open spec fn started_response(id: Seq<char>) -> ResponseView {
    ResponseView { id, status: "processing"@, message: "Conversion started"@ }
}

/// The answer to a start request that failed for the reason `reason`.
pub open spec fn start_failed_response(reason: Seq<char>) -> ResponseView {
    ResponseView {
        id: Seq::empty(),
        status: "error"@,
        message: "Failed to start conversion: "@ + reason,
    }
}

/// Why the audio file of a job cannot be handed out.
#[derive(Clone, Copy, Debug, PartialEq, Eq, Structural)]
pub enum FileError {
    /// No job has the identifier.
    NotFound,
    /// The job exists but has not completed.
    NotReady,
}

impl FileError {
    pub open spec fn message_of(self) -> Seq<char> {
        match self {
            FileError::NotFound => "Job not found"@,
            FileError::NotReady => "Conversion not completed yet"@,
        }
    }

    /// The text reported to the caller.
    pub fn message(&self) -> (r: String)
        ensures
            r@ == self.message_of(),
    {
        match self {
            FileError::NotFound => String::from_str("Job not found"),
            FileError::NotReady => String::from_str("Conversion not completed yet"),
        }
    }
}

/// Why a job could not be created.
#[derive(Debug)]
pub enum StartError {
    /// No working directory could be made; the text says why.
    Workdir(String),
    /// The identifier drawn for the new job is already taken.
    IdInUse,
}

impl StartError {
    pub open spec fn message_of(&self) -> Seq<char> {
        match self {
            StartError::Workdir(reason) => reason@,
            StartError::IdInUse => "job identifier already in use"@,
        }
    }

    /// The text reported to the caller.
    pub fn message(&self) -> (r: String)
        ensures
            r@ == self.message_of(),
    {
        match self {
            StartError::Workdir(reason) => reason.clone(),
            StartError::IdInUse => String::from_str("job identifier already in use"),
        }
    }
}

} // verus!
