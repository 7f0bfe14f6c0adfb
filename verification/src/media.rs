//! Media-file classification by extension, and the greeting used by the
//! host shell's smoke test.

use vstd::prelude::*;
use vstd::string::StringExecFns;

use crate::text::str_eq;

verus! {

/// The file extensions this library treats as video rather than audio.
pub open spec fn spec_is_video_extension(ext: Seq<char>) -> bool {
    ||| ext == "mp4"@
    ||| ext == "avi"@
    ||| ext == "mkv"@
    ||| ext == "mov"@
    ||| ext == "wmv"@
    ||| ext == "flv"@
    ||| ext == "webm"@
    ||| ext == "m4v"@
    ||| ext == "3gp"@
    ||| ext == "ogv"@
}

/// Whether a lower-case extension names a video container; see
/// [`spec_is_video_extension`].
pub fn is_video_extension(ext: &str) -> (r: bool)
    ensures
        r == spec_is_video_extension(ext@),
{
    str_eq(ext, "mp4") || str_eq(ext, "avi") || str_eq(ext, "mkv") || str_eq(ext, "mov")
        || str_eq(ext, "wmv") || str_eq(ext, "flv") || str_eq(ext, "webm") || str_eq(ext, "m4v")
        || str_eq(ext, "3gp") || str_eq(ext, "ogv")
}

/// The media kind for a lower-case extension: `video` for the video
/// containers, `audio` for everything else.
pub fn file_type_for_extension(ext: &str) -> (r: String)
    ensures
        r@ == (if spec_is_video_extension(ext@) {
            "video"@
        } else {
            "audio"@
        }),
{
    if is_video_extension(ext) {
        "video".to_owned()
    } else {
        "audio".to_owned()
    }
}

/// The host shell's smoke-test greeting.
pub fn greet(name: &str) -> (r: String)
    ensures
        r@ == "Hello, "@ + name@ + "! You've been greeted from Rust!"@,
{
    let mut m = "Hello, ".to_owned();
    m.append(name);
    m.append("! You've been greeted from Rust!");
    proof {
        assert(m@ =~= "Hello, "@ + name@ + "! You've been greeted from Rust!"@);
    }
    m
}

} // verus!
