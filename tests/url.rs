use ytmp3::is_valid_youtube_url;

#[test]
fn video_converter_test_is_valid_youtube_url() {
    assert!(is_valid_youtube_url("https://www.youtube.com/watch?v=dQw4w9WgXcQ"));
    assert!(is_valid_youtube_url("https://youtu.be/dQw4w9WgXcQ"));
    assert!(is_valid_youtube_url("https://m.youtube.com/watch?v=dQw4w9WgXcQ"));
    assert!(is_valid_youtube_url("https://www.youtube.com/shorts/abcdef123"));
    assert!(is_valid_youtube_url("https://www.youtube.com/watch?v=some_id&list=PL..."));
    assert!(!is_valid_youtube_url("https://www.google.com"));
    assert!(!is_valid_youtube_url("https://www.youtube.com/feed/subscriptions"));
    assert!(!is_valid_youtube_url("https://example.com/watch?v=dQw4w9WgXcQ"));
}

#[test]
fn converter_test_is_valid_youtube_url() {
    assert!(is_valid_youtube_url("https://www.youtube.com/watch?v=dQw4w9WgXcQ"));
    assert!(is_valid_youtube_url("https://youtu.be/dQw4w9WgXcQ"));
    assert!(is_valid_youtube_url("https://m.youtube.com/watch?v=dQw4w9WgXcQ"));
    assert!(is_valid_youtube_url("https://www.youtube.com/shorts/abcdef123"));
    assert!(is_valid_youtube_url("https://www.youtube.com/watch?v=some_id&list=PL..."));
    assert!(!is_valid_youtube_url("https://www.google.com"));
    assert!(!is_valid_youtube_url("https://www.youtube.com/feed/subscriptions"));
    assert!(!is_valid_youtube_url("https://example.com/watch?v=dQw4w9WgXcQ"));
}

#[test]
fn empty_url_is_not_valid() {
    assert!(!is_valid_youtube_url(""));
}

#[test]
fn pattern_at_the_very_end_is_found() {
    assert!(is_valid_youtube_url("youtu.be/"));
    assert!(!is_valid_youtube_url("youtu.be"));
}
