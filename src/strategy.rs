//! The strategy table: the ordered argument sets with which the extraction tool
//! is tried, and the full argument list of one attempt.
use vstd::prelude::*;

verus! {

broadcast use vstd::string::group_string_axioms;

/// How many strategies the table holds.
pub const STRATEGY_COUNT: usize = 6;

/// The texts of a list of strings.
pub open spec fn texts(v: Seq<String>) -> Seq<Seq<char>> {
    v.map_values(|s: String| s@)
}

/// The distinguishing arguments of each strategy, in the order they are tried.
pub open spec fn strategy_table() -> Seq<Seq<Seq<char>>> {
    seq![
        seq![
            "--extractor-args"@,
            "youtube:player_client=android"@,
            "--user-agent"@,
            "com.google.android.youtube/17.31.35 (Linux; U; Android 11) gzip"@,
            "--no-check-certificates"@,
        ],
        seq![
            "--extractor-args"@,
            "youtube:player_client=android_embedded"@,
            "--user-agent"@,
            "com.google.android.youtube/17.31.35 (Linux; U; Android 11) gzip"@,
        ],
        seq![
            "--extractor-args"@,
            "youtube:player_client=ios"@,
            "--user-agent"@,
            "com.google.ios.youtube/17.31.4 (iPhone14,3; U; CPU iOS 15_6 like Mac OS X)"@,
        ],
        seq![
            "--extractor-args"@,
            "youtube:player_client=web"@,
            "--user-agent"@,
            "Mozilla/5.0 (X11; Linux x86_64) AppleWebKit/537.36 (KHTML, like Gecko) Chrome/120.0.0.0 Safari/537.36"@,
            "--add-header"@,
            "Accept-Language:en-US,en;q=0.9"@,
        ],
        seq![
            "--extractor-args"@,
            "youtube:player_client=web"@,
            "--compat-options"@,
            "prefer-legacy-http-handler"@,
            "--no-check-certificates"@,
            "--prefer-insecure"@,
        ],
        seq!["--extractor-args"@, "youtube:player_client=mediaconnect"@, "--socket-timeout"@, "30"@],
    ]
}

/// The arguments that every attempt on `url` starts with: audio extraction to
/// 192K MP3, a file named from the title, safe file names, and bounded retries.
pub open spec fn base_args(url: Seq<char>) -> Seq<Seq<char>> {
    seq![
        url,
        "-x"@,
        "--audio-format"@,
        "mp3"@,
        "--audio-quality"@,
        "192K"@,
        "-o"@,
        "%(title)s.%(ext)s"@,
        "--restrict-filenames"@,
        "--retries"@,
        "2"@,
        "--retry-sleep"@,
        "3"@,
    ]
}

/// The client marker whose strategy goes without request pacing.
pub open spec fn android_marker() -> Seq<char> {
    "youtube:player_client=android"@
}

/// Request pacing, added to every strategy but the one that carries the marker.
pub open spec fn pacing_args() -> Seq<Seq<char>> {
    seq!["--sleep-interval"@, "1"@, "--max-sleep-interval"@, "3"@]
}

/// The full argument list of the attempt on `url` with strategy `i`.
pub open spec fn attempt_args_of(url: Seq<char>, i: int) -> Seq<Seq<char>> {
    let s = strategy_table()[i];
    base_args(url) + s + if s.contains(android_marker()) {
        Seq::empty()
    } else {
        pacing_args()
    }
}

/// The distinguishing arguments of strategy `i`.
pub fn strategy_args(i: usize) -> (r: Vec<String>)
    requires
        i < STRATEGY_COUNT,
    ensures
        texts(r@) == strategy_table()[i as int],
{
    let r = if i == 0 {
        vec![
            String::from_str("--extractor-args"),
            String::from_str("youtube:player_client=android"),
            String::from_str("--user-agent"),
            String::from_str("com.google.android.youtube/17.31.35 (Linux; U; Android 11) gzip"),
            String::from_str("--no-check-certificates"),
        ]
    } else if i == 1 {
        vec![
            String::from_str("--extractor-args"),
            String::from_str("youtube:player_client=android_embedded"),
            String::from_str("--user-agent"),
            String::from_str("com.google.android.youtube/17.31.35 (Linux; U; Android 11) gzip"),
        ]
    } else if i == 2 {
        vec![
            String::from_str("--extractor-args"),
            String::from_str("youtube:player_client=ios"),
            String::from_str("--user-agent"),
            String::from_str(
                "com.google.ios.youtube/17.31.4 (iPhone14,3; U; CPU iOS 15_6 like Mac OS X)",
            ),
        ]
    } else if i == 3 {
        vec![
            String::from_str("--extractor-args"),
            String::from_str("youtube:player_client=web"),
            String::from_str("--user-agent"),
            String::from_str(
                "Mozilla/5.0 (X11; Linux x86_64) AppleWebKit/537.36 (KHTML, like Gecko) Chrome/120.0.0.0 Safari/537.36",
            ),
            String::from_str("--add-header"),
            String::from_str("Accept-Language:en-US,en;q=0.9"),
        ]
    } else if i == 4 {
        vec![
            String::from_str("--extractor-args"),
            String::from_str("youtube:player_client=web"),
            String::from_str("--compat-options"),
            String::from_str("prefer-legacy-http-handler"),
            String::from_str("--no-check-certificates"),
            String::from_str("--prefer-insecure"),
        ]
    } else {
        vec![
            String::from_str("--extractor-args"),
            String::from_str("youtube:player_client=mediaconnect"),
            String::from_str("--socket-timeout"),
            String::from_str("30"),
        ]
    };
    assert(texts(r@) =~= strategy_table()[i as int]);
    r
}

/// Whether one of `args` is exactly `marker`.
fn has_arg(args: &Vec<String>, marker: &str) -> (r: bool)
    ensures
        r == texts(args@).contains(marker@),
{
    let m = String::from_str(marker);
    let mut k: usize = 0;
    while k < args.len()
        invariant
            k <= args.len(),
            m@ == marker@,
            forall|j: int| 0 <= j < k ==> args@[j]@ != marker@,
        decreases args.len() - k,
    {
        if args[k] == m {
            assert(texts(args@)[k as int] == marker@);
            return true;
        }
        k += 1;
    }
    assert(!texts(args@).contains(marker@)) by {
        assert forall|j: int| 0 <= j < texts(args@).len() implies texts(args@)[j] != marker@ by {
            assert(args@[j]@ != marker@);
        }
    }
    false
}

/// The full argument list of the attempt on `url` with strategy `i`: the base
/// arguments, then the strategy's own, then pacing where the strategy does not
/// carry the marker.
pub fn attempt_args(url: &str, i: usize) -> (r: Vec<String>)
    requires
        i < STRATEGY_COUNT,
    ensures
        texts(r@) == attempt_args_of(url@, i as int),
{
    let mut r = vec![
        String::from_str(url),
        String::from_str("-x"),
        String::from_str("--audio-format"),
        String::from_str("mp3"),
        String::from_str("--audio-quality"),
        String::from_str("192K"),
        String::from_str("-o"),
        String::from_str("%(title)s.%(ext)s"),
        String::from_str("--restrict-filenames"),
        String::from_str("--retries"),
        String::from_str("2"),
        String::from_str("--retry-sleep"),
        String::from_str("3"),
    ];
    assert(texts(r@) =~= base_args(url@));
    let mut own = strategy_args(i);
    let paced = !has_arg(&own, "youtube:player_client=android");
    let ghost before = r@;
    r.append(&mut own);
    assert(texts(r@) =~= texts(before) + strategy_table()[i as int]);
    if paced {
        let mut pacing = vec![
            String::from_str("--sleep-interval"),
            String::from_str("1"),
            String::from_str("--max-sleep-interval"),
            String::from_str("3"),
        ];
        assert(texts(pacing@) =~= pacing_args());
        let ghost before = r@;
        r.append(&mut pacing);
        assert(texts(r@) =~= texts(before) + pacing_args());
    } else {
        assert(texts(r@) =~= texts(r@) + Seq::<Seq<char>>::empty());
    }
    r
}

} // verus!
