use vstd::prelude::*;

use crate::text::{decimal, decimal_text};

verus! {

/// Name of the compositor stage.
pub const MIXER_NAME: &'static str = "mixer";
/// Name of the compositor input that carries the overlay.
pub const MIXER_OVERLAY_PAD: &'static str = "sink_1";
/// Name of the tee that splits the mixed video.
pub const VIDEO_TEE_NAME: &'static str = "tee";
/// Name of the tee that splits the captured audio.
pub const AUDIO_TEE_NAME: &'static str = "audio-tee";
/// Name of the local display sink.
pub const DISPLAY_SINK_NAME: &'static str = "sink";
/// Name of the web-document source.
pub const WEB_SOURCE_NAME: &'static str = "wpesrc";
/// Name of the camera's capability filter.
pub const CAMERA_CAPS_NAME: &'static str = "camcaps";
/// Name of the web source's capability filter.
pub const OVERLAY_CAPS_NAME: &'static str = "wpecaps";
/// Name of the recording sub-graph.
pub const RECORDING_BIN_NAME: &'static str = "recording-bin";
/// Entry stage of the recording sub-graph's video chain.
pub const VIDEO_QUEUE_NAME: &'static str = "video-queue";
/// Entry stage of the recording sub-graph's audio chain.
pub const AUDIO_QUEUE_NAME: &'static str = "audio-queue";
/// Boundary connection point of the recording sub-graph for video.
pub const VIDEO_GHOST_PAD: &'static str = "video_sink";
/// Boundary connection point of the recording sub-graph for audio.
pub const AUDIO_GHOST_PAD: &'static str = "audio_sink";

/// Caps that pin the camera's output.
pub open spec fn spec_camera_caps(width: u32, height: u32) -> Seq<char> {
    "image/jpeg,width="@ + decimal(width as nat) + ",height="@ + decimal(height as nat)
        + ",framerate=30/1"@
}

/// Caps that pin the web source's output.
pub open spec fn spec_overlay_caps(width: u32, height: u32) -> Seq<char> {
    "video/x-raw(memory:GLMemory),width="@ + decimal(width as nat) + ",height="@ + decimal(
        height as nat,
    ) + ",pixel-aspect-ratio=(fraction)1/1"@
}

/// Textual description of the whole main graph at the given size.
pub open spec fn spec_main_description(width: u32, height: u32) -> Seq<char> {
    "glvideomixerelement name=mixer sink_1::zorder=0 sink_1::height="@ + decimal(height as nat)
        + " sink_1::width="@ + decimal(width as nat)
        + " ! tee name=tee ! queue ! gtkglsink enable-last-sample=0 name=sink autoaudiosrc ! tee name=audio-tee ! queue ! level ! fakesink sync=1 wpesrc name=wpesrc draw-background=0 ! capsfilter name=wpecaps caps=\""@
        + spec_overlay_caps(width, height)
        + "\" ! glcolorconvert ! queue ! mixer. v4l2src name=videosrc ! capsfilter name=camcaps caps=\""@
        + spec_camera_caps(width, height)
        + "\" ! decodebin ! queue ! glupload ! glcolorconvert ! queue ! mixer."@
}

/// Textual description of the recording sub-graph.
pub open spec fn spec_recording_description(location: Seq<char>, encoder: Seq<char>) -> Seq<
    char,
> {
    "queue name=video-queue ! gldownload ! videoconvert ! "@ + encoder
        + " ! flvmux streamable=1 name=mux ! rtmpsink enable-last-sample=0 location=\""@
        + location + "\" queue name=audio-queue ! fdkaacenc bitrate=128000 ! mux."@
}

/// Caps for the camera's capability filter.
pub fn camera_caps(width: u32, height: u32) -> (r: String)
    ensures
        r@ == spec_camera_caps(width, height),
{
    let w = decimal_text(width);
    let h = decimal_text(height);
    let r = String::from_str("image/jpeg,width=").concat(w.as_str()).concat(",height=").concat(
        h.as_str(),
    ).concat(",framerate=30/1");
    proof {
        assert(r@ =~= spec_camera_caps(width, height));
    }
    r
}

/// Caps for the web source's capability filter.
pub fn overlay_caps(width: u32, height: u32) -> (r: String)
    ensures
        r@ == spec_overlay_caps(width, height),
{
    let w = decimal_text(width);
    let h = decimal_text(height);
    let r = String::from_str("video/x-raw(memory:GLMemory),width=").concat(w.as_str()).concat(
        ",height=",
    ).concat(h.as_str()).concat(",pixel-aspect-ratio=(fraction)1/1");
    proof {
        assert(r@ =~= spec_overlay_caps(width, height));
    }
    r
}

/// Description of the main graph: camera and web source mixed, the overlay
/// above the camera at the given size, the mix split towards the display,
/// and the captured audio split towards the level meter.
pub fn main_description(width: u32, height: u32) -> (r: String)
    ensures
        r@ == spec_main_description(width, height),
{
    let w = decimal_text(width);
    let h = decimal_text(height);
    let oc = overlay_caps(width, height);
    let cc = camera_caps(width, height);
    let r = String::from_str("glvideomixerelement name=mixer sink_1::zorder=0 sink_1::height=")
        .concat(h.as_str())
        .concat(" sink_1::width=")
        .concat(w.as_str())
        .concat(" ! tee name=tee ! queue ! gtkglsink enable-last-sample=0 name=sink autoaudiosrc ! tee name=audio-tee ! queue ! level ! fakesink sync=1 wpesrc name=wpesrc draw-background=0 ! capsfilter name=wpecaps caps=\"")
        .concat(oc.as_str())
        .concat("\" ! glcolorconvert ! queue ! mixer. v4l2src name=videosrc ! capsfilter name=camcaps caps=\"")
        .concat(cc.as_str())
        .concat("\" ! decodebin ! queue ! glupload ! glcolorconvert ! queue ! mixer.");
    proof {
        assert(r@ =~= spec_main_description(width, height));
    }
    r
}

/// Description of the recording sub-graph: video converted and encoded by
/// `encoder`, audio encoded to AAC, both muxed and published to `location`.
pub fn recording_description(location: &str, encoder: &str) -> (r: String)
    ensures
        r@ == spec_recording_description(location@, encoder@),
{
    let r = String::from_str("queue name=video-queue ! gldownload ! videoconvert ! ")
        .concat(encoder)
        .concat(" ! flvmux streamable=1 name=mux ! rtmpsink enable-last-sample=0 location=\"")
        .concat(location)
        .concat("\" queue name=audio-queue ! fdkaacenc bitrate=128000 ! mux.");
    proof {
        assert(r@ =~= spec_recording_description(location@, encoder@));
    }
    r
}

} // verus!
