use ytmp3::{
    attempt_args, find_mp3, is_mp3_path, strategy_args, AttemptOutcome, JobStatus, Runner,
    RunnerAction, COOLDOWN_SECS, PAUSE_SECS, STRATEGY_COUNT,
};

fn failed(text: &str) -> AttemptOutcome {
    AttemptOutcome::Failed { stderr: text.to_string() }
}

fn error_message(action: RunnerAction) -> String {
    match action {
        RunnerAction::Finish { status: JobStatus::Error { message } } => message,
        other => panic!("expected an error finish, got {:?}", other),
    }
}

#[test]
fn last_failure_decides_the_message() {
    // two failing attempts with different texts, then the rest fail the same way
    let mut runner = Runner::new();
    let mut action = runner.record(failed("ERROR: Sign in to confirm you're not a bot"));
    assert!(matches!(action, RunnerAction::Attempt { strategy: 1, .. }));
    for _ in 1..STRATEGY_COUNT {
        action = runner.record(failed("ERROR: Video unavailable"));
    }
    assert_eq!(
        error_message(action),
        "This video is unavailable. It may be private, deleted, or region-restricted."
    );
}

#[test]
fn bot_detection_as_the_last_failure() {
    let mut runner = Runner::new();
    let mut action = runner.record(failed("ERROR: Video unavailable"));
    for _ in 1..STRATEGY_COUNT {
        action = runner.record(failed("ERROR: Sign in to confirm you're not a bot"));
    }
    assert_eq!(
        error_message(action),
        "YouTube is currently blocking automated downloads. This is temporary - please try again in 10-15 minutes, or try a different video."
    );
}

#[test]
fn second_strategy_succeeds_and_stops_the_runner() {
    let mut runner = Runner::new();
    assert_eq!(runner.current(), 0);
    let action = runner.record(failed("ERROR: something broke"));
    assert!(matches!(action, RunnerAction::Attempt { strategy: 1, delay_secs: 2 }));
    let entries = vec!["/tmp/job/Some_Title.webm".to_string(), "/tmp/job/Some_Title.mp3".to_string()];
    let action = runner.record(AttemptOutcome::Exited { entries });
    match action {
        RunnerAction::Finish { status: JobStatus::Completed { mp3_path } } => {
            assert_eq!(mp3_path, "/tmp/job/Some_Title.mp3")
        }
        other => panic!("expected completion, got {:?}", other),
    }
    assert_eq!(runner.current(), 1);
}

#[test]
fn all_strategies_failing_generically() {
    let mut runner = Runner::new();
    let mut action = runner.record(failed("first generic failure"));
    for k in 1..STRATEGY_COUNT {
        assert!(matches!(action, RunnerAction::Attempt { strategy, .. } if strategy == k));
        let text = format!("generic failure number {}\nsecond line\nthird line", k);
        action = runner.record(failed(&text));
    }
    let message = error_message(action);
    assert_eq!(
        message,
        "Download failed after multiple attempts. Last error: generic failure number 5 second line"
    );
}

#[test]
fn throttled_failure_waits_longer() {
    let mut runner = Runner::new();
    let action = runner.record(failed("HTTP Error 429: Too Many Requests"));
    assert!(matches!(action, RunnerAction::Attempt { strategy: 1, delay_secs: 10 }));
    let action = runner.record(failed("ERROR: Sign in to confirm your age"));
    assert!(matches!(action, RunnerAction::Attempt { strategy: 2, delay_secs } if delay_secs == COOLDOWN_SECS));
    let action = runner.record(failed("plain failure"));
    assert!(matches!(action, RunnerAction::Attempt { strategy: 3, delay_secs } if delay_secs == PAUSE_SECS));
}

#[test]
fn success_without_mp3_moves_on_and_keeps_last_error() {
    let mut runner = Runner::new();
    let action = runner.record(failed("ERROR: Video unavailable"));
    assert!(matches!(action, RunnerAction::Attempt { strategy: 1, delay_secs: 2 }));
    let mut action = runner.record(AttemptOutcome::Exited { entries: vec!["/w/clip.m4a".to_string()] });
    assert!(matches!(action, RunnerAction::Attempt { strategy: 2, delay_secs: 2 }));
    for _ in 2..STRATEGY_COUNT {
        action = runner.record(AttemptOutcome::Exited { entries: vec![] });
    }
    assert_eq!(
        error_message(action),
        "This video is unavailable. It may be private, deleted, or region-restricted."
    );
}

#[test]
fn launch_failure_is_one_failed_attempt() {
    let mut runner = Runner::new();
    let mut action = runner.record(AttemptOutcome::NotLaunched { error: "No such file or directory (os error 2)".to_string() });
    assert!(matches!(action, RunnerAction::Attempt { strategy: 1, delay_secs: 2 }));
    for _ in 1..STRATEGY_COUNT {
        action = runner.record(AttemptOutcome::NotLaunched { error: "No such file or directory (os error 2)".to_string() });
    }
    assert_eq!(
        error_message(action),
        "Download failed after multiple attempts. Last error: Command execution failed: No such file or directory (os error 2)"
    );
}

#[test]
fn mp3_paths_are_recognised() {
    assert!(is_mp3_path("song.mp3"));
    assert!(is_mp3_path("/tmp/job/a.mp3"));
    assert!(is_mp3_path("/tmp/job/..mp3"));
    assert!(!is_mp3_path(".mp3"));
    assert!(!is_mp3_path("/tmp/job/.mp3"));
    assert!(!is_mp3_path("song.MP3"));
    assert!(!is_mp3_path("song.mp3.part"));
    assert!(!is_mp3_path("mp3"));
}

#[test]
fn first_mp3_entry_is_chosen() {
    let entries = vec![
        "/w/a.webm".to_string(),
        "/w/b.mp3".to_string(),
        "/w/c.mp3".to_string(),
    ];
    assert_eq!(find_mp3(&entries), Some(1));
    assert_eq!(find_mp3(&vec!["/w/a.webm".to_string()]), None);
    assert_eq!(find_mp3(&vec![]), None);
}

#[test]
fn first_strategy_goes_without_pacing() {
    let args = attempt_args("https://youtu.be/x", 0);
    let expected = vec![
        "https://youtu.be/x",
        "-x",
        "--audio-format",
        "mp3",
        "--audio-quality",
        "192K",
        "-o",
        "%(title)s.%(ext)s",
        "--restrict-filenames",
        "--retries",
        "2",
        "--retry-sleep",
        "3",
        "--extractor-args",
        "youtube:player_client=android",
        "--user-agent",
        "com.google.android.youtube/17.31.35 (Linux; U; Android 11) gzip",
        "--no-check-certificates",
    ];
    assert_eq!(args, expected);
}

#[test]
fn other_strategies_are_paced() {
    let args = attempt_args("https://youtu.be/x", 5);
    let expected = vec![
        "https://youtu.be/x",
        "-x",
        "--audio-format",
        "mp3",
        "--audio-quality",
        "192K",
        "-o",
        "%(title)s.%(ext)s",
        "--restrict-filenames",
        "--retries",
        "2",
        "--retry-sleep",
        "3",
        "--extractor-args",
        "youtube:player_client=mediaconnect",
        "--socket-timeout",
        "30",
        "--sleep-interval",
        "1",
        "--max-sleep-interval",
        "3",
    ];
    assert_eq!(args, expected);
    let embedded = attempt_args("u", 1);
    assert_eq!(embedded.len(), 13 + 4 + 4);
    assert_eq!(embedded[14], "youtube:player_client=android_embedded");
    assert_eq!(embedded[17], "--sleep-interval");
}

#[test]
fn strategy_table_order() {
    assert_eq!(STRATEGY_COUNT, 6);
    assert_eq!(strategy_args(2)[1], "youtube:player_client=ios");
    assert_eq!(strategy_args(3)[5], "Accept-Language:en-US,en;q=0.9");
    assert_eq!(strategy_args(4)[3], "prefer-legacy-http-handler");
}

#[test]
fn short_sign_in_text_at_the_last_attempt_is_bot_detection() {
    let mut runner = Runner::new();
    let mut action = runner.record(failed("ERROR: Video unavailable"));
    for _ in 1..STRATEGY_COUNT {
        action = runner.record(failed("ERROR: Sign in to confirm"));
    }
    assert_eq!(
        error_message(action),
        "YouTube is currently blocking automated downloads. This is temporary - please try again in 10-15 minutes, or try a different video."
    );
}

#[test]
fn exit_without_mp3_after_the_last_failure_keeps_that_failure() {
    let mut runner = Runner::new();
    let mut action = runner.record(failed("ERROR: Sign in to confirm you're not a bot"));
    action = match action {
        RunnerAction::Attempt { .. } => runner.record(failed("unmatched text\nline two\nline three")),
        other => other,
    };
    for _ in 2..STRATEGY_COUNT {
        action = runner.record(AttemptOutcome::Exited { entries: vec!["/w/a.webm".to_string()] });
    }
    assert_eq!(
        error_message(action),
        "Download failed after multiple attempts. Last error: unmatched text line two"
    );
}
