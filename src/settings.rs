use vstd::prelude::*;

use crate::text::same_text;

verus! {

/// Output resolution of the mixed video.
#[derive(Debug, Clone, Copy, PartialEq, Eq, Structural)]
pub enum VideoResolution {
    V480P,
    V720P,
    V1080P,
}

/// Width and height in pixels of a resolution.
pub open spec fn spec_dimensions(r: VideoResolution) -> (u32, u32) {
    match r {
        VideoResolution::V480P => (640, 480),
        VideoResolution::V720P => (1280, 720),
        VideoResolution::V1080P => (1920, 1080),
    }
}

impl VideoResolution {
    /// Width and height in pixels.
    pub fn dimensions(&self) -> (r: (u32, u32))
        ensures
            r == spec_dimensions(*self),
    {
        match self {
            VideoResolution::V480P => (640, 480),
            VideoResolution::V720P => (1280, 720),
            VideoResolution::V1080P => (1920, 1080),
        }
    }
}

impl Default for VideoResolution {
    fn default() -> (r: VideoResolution)
        ensures
            r == VideoResolution::V720P,
    {
        VideoResolution::V720P
    }
}

/// The characters of `s` in lower case, as `str::to_lowercase` gives them.
pub uninterp spec fn lower_of(s: Seq<char>) -> Seq<char>;

/// Relies on `str::to_lowercase`: its result depends on the characters alone.
#[verifier::external_body]
fn lowercase(s: &str) -> (r: String)
    ensures
        r@ == lower_of(s@),
{
    s.to_lowercase()
}

/// The resolution named by a label that is already in lower case.
pub open spec fn spec_resolution_of_lowercase(t: Seq<char>) -> Option<VideoResolution> {
    if t == "480p"@ {
        Some(VideoResolution::V480P)
    } else if t == "720p"@ {
        Some(VideoResolution::V720P)
    } else if t == "1080p"@ {
        Some(VideoResolution::V1080P)
    } else {
        None
    }
}

/// The resolution named by a lower-case label: `480p`, `720p` or `1080p`.
pub fn resolution_of_lowercase(t: &str) -> (r: Option<VideoResolution>)
    ensures
        r == spec_resolution_of_lowercase(t@),
{
    if same_text(t, "480p") {
        Some(VideoResolution::V480P)
    } else if same_text(t, "720p") {
        Some(VideoResolution::V720P)
    } else if same_text(t, "1080p") {
        Some(VideoResolution::V1080P)
    } else {
        None
    }
}

impl VideoResolution {
    /// The resolution chosen by a selector label that names one, compared
    /// without regard to case; no label at all selects the default.
    pub fn from_label(label: Option<&str>) -> (r: VideoResolution)
        requires
            label is None || spec_resolution_of_lowercase(lower_of(label->0@)) is Some,
        ensures
            label is None ==> r == VideoResolution::V720P,
            label is Some ==> Some(r) == spec_resolution_of_lowercase(lower_of(label->0@)),
    {
        match label {
            None => VideoResolution::default(),
            Some(s) => {
                let t = lowercase(s);
                match resolution_of_lowercase(t.as_str()) {
                    Some(v) => v,
                    None => VideoResolution::default(),
                }
            },
        }
    }

    /// The resolution chosen by a selector label, as `from_label` reads it,
    /// or `None` for a label that names no resolution.
    pub fn parse_label(label: Option<&str>) -> (r: Option<VideoResolution>)
        ensures
            label is None ==> r == Some(VideoResolution::V720P),
            label is Some ==> r == spec_resolution_of_lowercase(lower_of(label->0@)),
    {
        match label {
            None => Some(VideoResolution::from_label(None)),
            Some(s) => {
                let t = lowercase(s);
                if resolution_of_lowercase(t.as_str()).is_none() {
                    None
                } else {
                    Some(VideoResolution::from_label(Some(s)))
                }
            },
        }
    }

    /// Position of the resolution among the selector's entries.
    pub fn index(&self) -> (r: u32)
        ensures
            r < 3,
            r == 0 <==> *self == VideoResolution::V480P,
            r == 1 <==> *self == VideoResolution::V720P,
    {
        match self {
            VideoResolution::V480P => 0,
            VideoResolution::V720P => 1,
            VideoResolution::V1080P => 2,
        }
    }
}

/// Encoder chain used when none was configured.
pub open spec fn spec_default_encoder() -> Seq<char> {
    "video/x-raw,format=NV12 ! vaapih264enc bitrate=20000 keyframe-period=60 ! video/x-h264,profile=main"@
}

/// What the orchestrator reads from its configuration on each operation.
#[derive(Debug, Clone)]
pub struct Settings {
    /// Where the recording branch publishes to; none configured when absent.
    pub rtmp_location: Option<String>,
    /// Encoder chain, in the media framework's pipeline syntax.
    pub h264_encoder: String,
    pub video_resolution: VideoResolution,
}

impl Default for Settings {
    fn default() -> (r: Settings)
        ensures
            r.rtmp_location is None,
            r.h264_encoder@ == spec_default_encoder(),
            r.video_resolution == VideoResolution::V720P,
    {
        Settings {
            rtmp_location: None,
            h264_encoder: String::from_str(
                "video/x-raw,format=NV12 ! vaapih264enc bitrate=20000 keyframe-period=60 ! video/x-h264,profile=main",
            ),
            video_resolution: VideoResolution::default(),
        }
    }
}

/// Why the settings form could not be turned into settings.
#[derive(Debug, Clone, Copy, PartialEq, Eq, Structural)]
pub enum SettingsError {
    /// No encoder chain was given.
    MissingEncoder,
    /// The resolution selector names no known resolution.
    UnknownResolution,
}

impl Settings {
    /// Settings from the form's three fields: the publish destination, the
    /// encoder chain, which is required, and the resolution label, read as
    /// `VideoResolution::parse_label` reads it.
    pub fn from_fields(rtmp_location: Option<&str>, h264_encoder: Option<&str>, resolution: Option<&str>) -> (r: Result<Settings, SettingsError>)
        ensures
            h264_encoder is None ==> r == Err::<Settings, SettingsError>(SettingsError::MissingEncoder),
            h264_encoder is Some && resolution is Some && spec_resolution_of_lowercase(lower_of(resolution->0@)) is None ==> r == Err::<Settings, SettingsError>(SettingsError::UnknownResolution),
            r is Ok ==> h264_encoder is Some && r->Ok_0.h264_encoder@ == h264_encoder->0@,
            r is Ok ==> (rtmp_location is None <==> r->Ok_0.rtmp_location is None),
            r is Ok && rtmp_location is Some ==> r->Ok_0.rtmp_location->0@ == rtmp_location->0@,
            r is Ok && resolution is None ==> r->Ok_0.video_resolution == VideoResolution::V720P,
            r is Ok && resolution is Some ==> Some(r->Ok_0.video_resolution) == spec_resolution_of_lowercase(lower_of(resolution->0@)),
            h264_encoder is Some && (resolution is None || spec_resolution_of_lowercase(lower_of(resolution->0@)) is Some) ==> r is Ok,
    {
        let encoder = match h264_encoder {
            None => { return Err(SettingsError::MissingEncoder); },
            Some(e) => String::from_str(e),
        };
        let video_resolution = match VideoResolution::parse_label(resolution) {
            None => { return Err(SettingsError::UnknownResolution); },
            Some(v) => v,
        };
        let rtmp = match rtmp_location {
            None => None,
            Some(l) => Some(String::from_str(l)),
        };
        Ok(Settings { rtmp_location: rtmp, h264_encoder: encoder, video_resolution })
    }
}

} // verus!
