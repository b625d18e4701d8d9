//! Pipeline construction plans: every decision that shapes a media pipeline
//! — element choice, element names, normalization caps, sink tuning, window
//! targeting, device selection — computed and fixed here. The shell realizes
//! a plan with the media framework, element by element, and reports a
//! missing element as a missing capability.

use vstd::prelude::*;

use crate::chunk::StreamKind;
use crate::digits::parse_u32;
use crate::digits::spec_parse_u32;
use crate::options::CaptureOptions;
use crate::options::CaptureTarget;

verus! {

/// The window the video stream should be restricted to, if any: a window
/// target whose identifier parses as a numeric node handle. A full-display
/// target asks for no restriction, and a non-numeric identifier is silently
/// ignored — capture then falls back to the default source behaviour. This
/// lenient fallback is deliberate policy, not an oversight.
pub open spec fn spec_window_target_node(target: CaptureTarget) -> Option<u32> {
    match target {
        CaptureTarget::FullDisplay => Option::None,
        CaptureTarget::Window { id } => spec_parse_u32(id@),
    }
}

/// The numeric node handle a capture target names, when it names one.
pub fn window_target_node(target: &CaptureTarget) -> (r: Option<u32>)
    ensures
        r == spec_window_target_node(*target),
{
    match target {
        CaptureTarget::FullDisplay => Option::None,
        CaptureTarget::Window { id } => parse_u32(id.as_str()),
    }
}

/// Everything the shell needs to construct the video pipeline: the element
/// factories and their instance names, the fixed normalization caps, the
/// sink tuning, and the optional window restriction.
#[derive(Debug)]
pub struct VideoPipelinePlan {
    pub source_element: String,
    pub source_name: String,
    pub convert_element: String,
    pub scale_element: String,
    pub sink_element: String,
    pub sink_name: String,
    pub pixel_format: String,
    pub framerate: u32,
    pub max_buffers: u32,
    pub target_node: Option<u32>,
    pub do_timestamp: bool,
    pub sync: bool,
    pub drop_when_full: bool,
}

/// The video pipeline plan for the given options: a timestamping desktop
/// source, convert and scale stages, and an application sink normalized to a
/// fixed pixel format and frame rate so the chunk buffer never sees format
/// variability.
pub fn video_pipeline_plan(options: &CaptureOptions) -> (r: VideoPipelinePlan)
    ensures
        r.source_element@ == "pipewiresrc"@,
        r.source_name@ == "video_source"@,
        r.convert_element@ == "videoconvert"@,
        r.scale_element@ == "videoscale"@,
        r.sink_element@ == "appsink"@,
        r.sink_name@ == "video_sink"@,
        r.pixel_format@ == "RGBA"@,
        r.framerate == 30,
        r.max_buffers == 5,
        r.target_node == spec_window_target_node(options.target),
        r.do_timestamp == true,
        r.sync == false,
        r.drop_when_full == true,
{
    VideoPipelinePlan {
        source_element: "pipewiresrc".to_owned(),
        source_name: "video_source".to_owned(),
        convert_element: "videoconvert".to_owned(),
        scale_element: "videoscale".to_owned(),
        sink_element: "appsink".to_owned(),
        sink_name: "video_sink".to_owned(),
        pixel_format: "RGBA".to_owned(),
        framerate: 30,
        max_buffers: 5,
        target_node: window_target_node(&options.target),
        do_timestamp: true,
        sync: false,
        drop_when_full: true,
    }
}

/// Everything the shell needs to construct one audio pipeline: the element
/// factories and their instance names, the resolved capture device, the
/// fixed normalization caps, and the sink tuning.
#[derive(Debug)]
pub struct AudioPipelinePlan {
    pub source_element: String,
    pub source_name: String,
    pub convert_element: String,
    pub convert_name: String,
    pub resample_element: String,
    pub resample_name: String,
    pub sink_element: String,
    pub sink_name: String,
    pub device: String,
    pub sample_format: String,
    pub sample_rate: u32,
    pub channels: u32,
    pub max_buffers: u32,
    pub sync: bool,
    pub drop_when_full: bool,
}

/// The audio pipeline plan shared by both audio streams: a pulse source on
/// the given device, convert and resample stages, and an application sink
/// normalized to a fixed sample format, rate and channel count.
fn pulse_audio_pipeline_plan(kind: StreamKind, device: String) -> (r: AudioPipelinePlan)
    requires
        !(kind is Video),
    ensures
        r.source_element@ == "pulsesrc"@,
        kind is SystemAudio ==> r.source_name@ == "system_audio_source"@ && r.convert_name@
            == "system_audio_source_convert"@ && r.resample_name@
            == "system_audio_source_resample"@ && r.sink_name@ == "system_audio_source_sink"@,
        kind is Mic ==> r.source_name@ == "mic_audio_source"@ && r.convert_name@
            == "mic_audio_source_convert"@ && r.resample_name@ == "mic_audio_source_resample"@
            && r.sink_name@ == "mic_audio_source_sink"@,
        r.convert_element@ == "audioconvert"@,
        r.resample_element@ == "audioresample"@,
        r.sink_element@ == "appsink"@,
        r.device == device,
        r.sample_format@ == "F32LE"@,
        r.sample_rate == 48000,
        r.channels == 2,
        r.max_buffers == 20,
        r.sync == false,
        r.drop_when_full == true,
{
    let mic = matches!(kind, StreamKind::Mic);
    AudioPipelinePlan {
        source_element: "pulsesrc".to_owned(),
        source_name: if mic {
            "mic_audio_source".to_owned()
        } else {
            "system_audio_source".to_owned()
        },
        convert_element: "audioconvert".to_owned(),
        convert_name: if mic {
            "mic_audio_source_convert".to_owned()
        } else {
            "system_audio_source_convert".to_owned()
        },
        resample_element: "audioresample".to_owned(),
        resample_name: if mic {
            "mic_audio_source_resample".to_owned()
        } else {
            "system_audio_source_resample".to_owned()
        },
        sink_element: "appsink".to_owned(),
        sink_name: if mic {
            "mic_audio_source_sink".to_owned()
        } else {
            "system_audio_source_sink".to_owned()
        },
        device,
        sample_format: "F32LE".to_owned(),
        sample_rate: 48000,
        channels: 2,
        max_buffers: 20,
        sync: false,
        drop_when_full: true,
    }
}

/// The system-audio pipeline plan: captures the monitor of the default sink
/// unless a device override names another source. The override is read from
/// the environment once per pipeline build, by the shell.
pub fn system_audio_pipeline_plan(device_override: Option<String>) -> (r: AudioPipelinePlan)
    ensures
        r.source_element@ == "pulsesrc"@,
        r.source_name@ == "system_audio_source"@,
        r.convert_element@ == "audioconvert"@,
        r.convert_name@ == "system_audio_source_convert"@,
        r.resample_element@ == "audioresample"@,
        r.resample_name@ == "system_audio_source_resample"@,
        r.sink_element@ == "appsink"@,
        r.sink_name@ == "system_audio_source_sink"@,
        device_override matches Some(d) ==> r.device@ == d@,
        device_override is None ==> r.device@ == "@DEFAULT_SINK@.monitor"@,
        r.sample_format@ == "F32LE"@,
        r.sample_rate == 48000,
        r.channels == 2,
        r.max_buffers == 20,
        r.sync == false,
        r.drop_when_full == true,
{
    let device = match device_override {
        Option::Some(d) => d,
        Option::None => "@DEFAULT_SINK@.monitor".to_owned(),
    };
    pulse_audio_pipeline_plan(StreamKind::SystemAudio, device)
}

/// The mic pipeline plan: captures the default source unless a device
/// override names another. The override is read from the environment once
/// per pipeline build, by the shell.
pub fn mic_audio_pipeline_plan(device_override: Option<String>) -> (r: AudioPipelinePlan)
    ensures
        r.source_element@ == "pulsesrc"@,
        r.source_name@ == "mic_audio_source"@,
        r.convert_element@ == "audioconvert"@,
        r.convert_name@ == "mic_audio_source_convert"@,
        r.resample_element@ == "audioresample"@,
        r.resample_name@ == "mic_audio_source_resample"@,
        r.sink_element@ == "appsink"@,
        r.sink_name@ == "mic_audio_source_sink"@,
        device_override matches Some(d) ==> r.device@ == d@,
        device_override is None ==> r.device@ == "@DEFAULT_SOURCE@"@,
        r.sample_format@ == "F32LE"@,
        r.sample_rate == 48000,
        r.channels == 2,
        r.max_buffers == 20,
        r.sync == false,
        r.drop_when_full == true,
{
    let device = match device_override {
        Option::Some(d) => d,
        Option::None => "@DEFAULT_SOURCE@".to_owned(),
    };
    pulse_audio_pipeline_plan(StreamKind::Mic, device)
}

} // verus!
