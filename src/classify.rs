//! Maps the raw failure text of the extraction tool to a user-facing category and message.
use vstd::prelude::*;
use crate::text::{chars_of, contains, excerpt, first_lines, mentions};

verus! {

/// The categories of extraction failure that users are told about.
#[derive(Clone, Copy, Debug, PartialEq, Eq, Structural)]
pub enum FailureKind {
    BotDetection,
    PlayerResponse,
    Unavailable,
    AgeRestricted,
    RateLimited,
    Premiere,
    LiveStream,
    Generic,
}

/// The category of a failure text: the first known phrase that it holds decides.
pub open spec fn failure_kind_of(e: Seq<char>) -> FailureKind {
    if contains(e, "Sign in to confirm"@) {
        FailureKind::BotDetection
    } else if contains(e, "Failed to extract any player response"@) {
        FailureKind::PlayerResponse
    } else if contains(e, "Video unavailable"@) || contains(e, "Private video"@) {
        FailureKind::Unavailable
    } else if contains(e, "age-restricted"@) || contains(e, "age_restricted"@) {
        FailureKind::AgeRestricted
    } else if contains(e, "rate limit"@) || contains(e, "too many requests"@) || contains(
        e,
        "HTTP Error 429"@,
    ) {
        FailureKind::RateLimited
    } else if contains(e, "premieres in"@) {
        FailureKind::Premiere
    } else if contains(e, "live stream"@) {
        FailureKind::LiveStream
    } else {
        FailureKind::Generic
    }
}

/// The message shown for a failure text; only the generic one quotes the text,
/// and then only its first two lines.
pub open spec fn failure_message_of(e: Seq<char>) -> Seq<char> {
    match failure_kind_of(e) {
        FailureKind::BotDetection => "YouTube is currently blocking automated downloads. This is temporary - please try again in 10-15 minutes, or try a different video."@,
        FailureKind::PlayerResponse => "YouTube has updated their protection. Please try again in a few minutes, or contact support if the issue persists."@,
        FailureKind::Unavailable => "This video is unavailable. It may be private, deleted, or region-restricted."@,
        FailureKind::AgeRestricted => "This video is age-restricted and cannot be downloaded without authentication."@,
        FailureKind::RateLimited => "YouTube is rate limiting requests. Please wait a few minutes before trying again."@,
        FailureKind::Premiere => "This video is a premiere that hasn't started yet. Please wait until it's available."@,
        FailureKind::LiveStream => "Live streams cannot be downloaded. Please wait until the stream ends or try a regular video."@,
        FailureKind::Generic => "Download failed after multiple attempts. Last error: "@ + excerpt(e),
    }
}

/// The category of the raw failure text `raw`.
pub fn classify_failure(raw: &str) -> (r: FailureKind)
    ensures
        r == failure_kind_of(raw@),
{
    let cs = chars_of(raw);
    if mentions(&cs, "Sign in to confirm") {
        FailureKind::BotDetection
    } else if mentions(&cs, "Failed to extract any player response") {
        FailureKind::PlayerResponse
    } else if mentions(&cs, "Video unavailable") || mentions(&cs, "Private video") {
        FailureKind::Unavailable
    } else if mentions(&cs, "age-restricted") || mentions(&cs, "age_restricted") {
        FailureKind::AgeRestricted
    } else if mentions(&cs, "rate limit") || mentions(&cs, "too many requests") || mentions(
        &cs,
        "HTTP Error 429",
    ) {
        FailureKind::RateLimited
    } else if mentions(&cs, "premieres in") {
        FailureKind::Premiere
    } else if mentions(&cs, "live stream") {
        FailureKind::LiveStream
    } else {
        FailureKind::Generic
    }
}

/// The user-facing message for the raw failure text `raw`.
pub fn failure_message(raw: &str) -> (r: String)
    ensures
        r@ == failure_message_of(raw@),
{
    match classify_failure(raw) {
        FailureKind::BotDetection => String::from_str(
            "YouTube is currently blocking automated downloads. This is temporary - please try again in 10-15 minutes, or try a different video.",
        ),
        FailureKind::PlayerResponse => String::from_str(
            "YouTube has updated their protection. Please try again in a few minutes, or contact support if the issue persists.",
        ),
        FailureKind::Unavailable => String::from_str(
            "This video is unavailable. It may be private, deleted, or region-restricted.",
        ),
        FailureKind::AgeRestricted => String::from_str(
            "This video is age-restricted and cannot be downloaded without authentication.",
        ),
        FailureKind::RateLimited => String::from_str(
            "YouTube is rate limiting requests. Please wait a few minutes before trying again.",
        ),
        FailureKind::Premiere => String::from_str(
            "This video is a premiere that hasn't started yet. Please wait until it's available.",
        ),
        FailureKind::LiveStream => String::from_str(
            "Live streams cannot be downloaded. Please wait until the stream ends or try a regular video.",
        ),
        FailureKind::Generic => {
            let mut r = String::from_str("Download failed after multiple attempts. Last error: ");
            let lines = first_lines(raw);
            r.append(lines.as_str());
            r
        },
    }
}

} // verus!
