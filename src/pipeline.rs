use vstd::prelude::*;
use vstd::string::*;

verus! {

/// The text that precedes the media URI in the pipeline description.
pub open spec fn description_head() -> Seq<char> {
    "playbin uri=\""@
}

/// The text that follows it: a video sink that scales and converts to NV12
/// with square pixels, into an application sink that keeps at most three
/// buffers and drops the oldest rather than block the decoder.
pub open spec fn description_tail() -> Seq<char> {
    "\" video-sink=\"videoscale ! videoconvert ! appsink name=gpui_video drop=true max-buffers=3 enable-last-sample=false caps=video/x-raw,format=NV12,pixel-aspect-ratio=1/1\""@
}

/// The pipeline description that plays the media at `uri`.
pub fn playbin_description(uri: &str) -> (r: String)
    ensures
        r@ == description_head() + uri@ + description_tail(),
{
    let head = String::from_str("playbin uri=\"");
    let with_uri = head.concat(uri);
    with_uri.concat(
        "\" video-sink=\"videoscale ! videoconvert ! appsink name=gpui_video drop=true max-buffers=3 enable-last-sample=false caps=video/x-raw,format=NV12,pixel-aspect-ratio=1/1\"",
    )
}

/// The name of the application sink in that description.
pub fn video_sink_name() -> (r: &'static str)
    ensures
        r@ == "gpui_video"@,
{
    "gpui_video"
}

} // verus!
