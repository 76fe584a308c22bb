use ytmp3::{classify_failure, failure_message, first_lines, FailureKind};

#[test]
fn bot_detection_is_recognised() {
    let raw = "ERROR: [youtube] abc: Sign in to confirm you're not a bot. Use --cookies";
    assert_eq!(classify_failure(raw), FailureKind::BotDetection);
    assert_eq!(
        failure_message(raw),
        "YouTube is currently blocking automated downloads. This is temporary - please try again in 10-15 minutes, or try a different video."
    );
}

#[test]
fn each_category_has_its_message() {
    assert_eq!(
        failure_message("ERROR: Failed to extract any player response"),
        "YouTube has updated their protection. Please try again in a few minutes, or contact support if the issue persists."
    );
    assert_eq!(
        failure_message("ERROR: Video unavailable"),
        "This video is unavailable. It may be private, deleted, or region-restricted."
    );
    assert_eq!(
        failure_message("this video is age_restricted"),
        "This video is age-restricted and cannot be downloaded without authentication."
    );
    assert_eq!(
        failure_message("HTTP Error 429: Too Many Requests"),
        "YouTube is rate limiting requests. Please wait a few minutes before trying again."
    );
    assert_eq!(
        failure_message("This live event premieres in 3 hours"),
        "This video is a premiere that hasn't started yet. Please wait until it's available."
    );
    assert_eq!(
        failure_message("cannot download a live stream"),
        "Live streams cannot be downloaded. Please wait until the stream ends or try a regular video."
    );
}

#[test]
fn earlier_phrase_wins_over_later_one() {
    let raw = "Video unavailable; also hit a rate limit";
    assert_eq!(classify_failure(raw), FailureKind::Unavailable);
    assert_eq!(classify_failure("age-restricted live stream"), FailureKind::AgeRestricted);
}

#[test]
fn generic_failure_quotes_first_two_lines() {
    let raw = "first problem\r\nsecond problem\nthird problem\n";
    assert_eq!(classify_failure(raw), FailureKind::Generic);
    assert_eq!(
        failure_message(raw),
        "Download failed after multiple attempts. Last error: first problem second problem"
    );
}

#[test]
fn generic_failure_of_empty_text() {
    assert_eq!(
        failure_message(""),
        "Download failed after multiple attempts. Last error: "
    );
}

#[test]
fn first_lines_edge_cases() {
    assert_eq!(first_lines(""), "");
    assert_eq!(first_lines("one"), "one");
    assert_eq!(first_lines("one\n"), "one");
    assert_eq!(first_lines("one\r\n"), "one");
    assert_eq!(first_lines("one\r"), "one\r");
    assert_eq!(first_lines("\n"), "");
    assert_eq!(first_lines("one\n\n"), "one ");
    assert_eq!(first_lines("one\ntwo"), "one two");
    assert_eq!(first_lines("one\ntwo\r\nthree"), "one two");
    assert_eq!(first_lines("\u{e9}t\u{e9}\nb"), "\u{e9}t\u{e9} b");
}

#[test]
fn sign_in_request_alone_is_bot_detection() {
    let raw = "ERROR: [youtube] abc: Sign in to confirm your age";
    assert_eq!(classify_failure(raw), FailureKind::BotDetection);
    assert_eq!(classify_failure("Sign in to confirm"), FailureKind::BotDetection);
    assert_eq!(classify_failure("Sign in to conf"), FailureKind::Generic);
}

#[test]
fn private_video_is_unavailable() {
    assert_eq!(classify_failure("ERROR: Private video. Sign in if you've been granted access"), FailureKind::Unavailable);
    assert_eq!(
        failure_message("ERROR: Private video"),
        "This video is unavailable. It may be private, deleted, or region-restricted."
    );
}
