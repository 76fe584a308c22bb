//! Which submitted addresses are accepted for conversion.
use vstd::prelude::*;
use crate::text::{chars_of, contains, mentions};

verus! {

/// `url` names a video: a watch page, a short link, or a short video.
pub open spec fn is_video_url(url: Seq<char>) -> bool {
    ||| contains(url, "youtube.com/watch"@)
    ||| contains(url, "youtu.be/"@)
    ||| contains(url, "youtube.com/shorts/"@)
    ||| contains(url, "m.youtube.com/watch"@)
}

/// Whether `url` is accepted for conversion.
pub fn is_valid_youtube_url(url: &str) -> (r: bool)
    ensures
        r == is_video_url(url@),
{
    let cs = chars_of(url);
    mentions(&cs, "youtube.com/watch") || mentions(&cs, "youtu.be/") || mentions(
        &cs,
        "youtube.com/shorts/",
    ) || mentions(&cs, "m.youtube.com/watch")
}

} // verus!
