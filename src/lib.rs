//! Conversion of video addresses to MP3 files, run as tracked jobs: a store of
//! jobs, the strategies with which the extraction tool is tried, the runner that
//! decides between attempts, and the classifier of failures.

pub mod auth;
pub mod classify;
pub mod job;
pub mod runner;
pub mod store;
pub mod strategy;
pub mod text;
pub mod url;

pub use auth::{
    AppMetadata, Auth, AuthData, AuthSession, Identity, IdentityData, Session, User, UserMetadata,
};
pub use classify::{classify_failure, failure_message, FailureKind};
pub use job::{ConversionJob, ConvertResponse, FileError, JobStatus, StartError};
pub use runner::{find_mp3, is_mp3_path, AttemptOutcome, Runner, RunnerAction, COOLDOWN_SECS, PAUSE_SECS};
pub use store::{convert_video, JobStore};
pub use strategy::{attempt_args, strategy_args, STRATEGY_COUNT};
pub use text::first_lines;
pub use url::is_valid_youtube_url;
