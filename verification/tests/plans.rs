use capture_core::error::CaptureError;
use capture_core::error::missing_element;
use capture_core::options::CaptureOptions;
use capture_core::options::CaptureTarget;
use capture_core::options::CaptureTargetPayload;
use capture_core::options::StartCapturePayload;
use capture_core::pipeline::mic_audio_pipeline_plan;
use capture_core::pipeline::system_audio_pipeline_plan;
use capture_core::pipeline::video_pipeline_plan;
use capture_core::pipeline::window_target_node;

fn options_with_target(target: CaptureTarget) -> CaptureOptions {
    CaptureOptions {
        chunk_duration_ms: 5000,
        capture_mic: false,
        debug_save: false,
        target,
    }
}

#[test]
fn full_display_asks_for_no_window_restriction() {
    assert_eq!(window_target_node(&CaptureTarget::FullDisplay), None);
}

#[test]
fn numeric_window_ids_are_honored() {
    let target = CaptureTarget::Window { id: "42".to_string() };
    assert_eq!(window_target_node(&target), Some(42));
    let plus = CaptureTarget::Window { id: "+7".to_string() };
    assert_eq!(window_target_node(&plus), Some(7));
    let zeros = CaptureTarget::Window { id: "007".to_string() };
    assert_eq!(window_target_node(&zeros), Some(7));
}

#[test]
fn unusable_window_ids_are_silently_ignored() {
    // the lenient fallback: a non-numeric or oversized id restricts nothing
    for id in ["", "abc", "12a", "-3", "+", "99999999999999999999", "4294967296"] {
        let target = CaptureTarget::Window { id: id.to_string() };
        assert_eq!(window_target_node(&target), None, "id {:?}", id);
    }
    let edge = CaptureTarget::Window { id: "4294967295".to_string() };
    assert_eq!(window_target_node(&edge), Some(u32::MAX));
}

#[test]
fn video_plan_normalizes_to_fixed_caps() {
    let plan = video_pipeline_plan(&options_with_target(CaptureTarget::FullDisplay));
    assert_eq!(plan.source_element, "pipewiresrc");
    assert_eq!(plan.source_name, "video_source");
    assert_eq!(plan.convert_element, "videoconvert");
    assert_eq!(plan.scale_element, "videoscale");
    assert_eq!(plan.sink_element, "appsink");
    assert_eq!(plan.sink_name, "video_sink");
    assert_eq!(plan.pixel_format, "RGBA");
    assert_eq!(plan.framerate, 30);
    assert_eq!(plan.max_buffers, 5);
    assert_eq!(plan.target_node, None);
    assert!(plan.do_timestamp);
    assert!(!plan.sync);
    assert!(plan.drop_when_full);

    let windowed = video_pipeline_plan(&options_with_target(CaptureTarget::Window {
        id: "31".to_string(),
    }));
    assert_eq!(windowed.target_node, Some(31));
}

#[test]
fn audio_plans_resolve_devices() {
    let sys = system_audio_pipeline_plan(None);
    assert_eq!(sys.source_element, "pulsesrc");
    assert_eq!(sys.source_name, "system_audio_source");
    assert_eq!(sys.device, "@DEFAULT_SINK@.monitor");
    assert_eq!(sys.sample_format, "F32LE");
    assert_eq!(sys.sample_rate, 48_000);
    assert_eq!(sys.channels, 2);
    assert_eq!(sys.max_buffers, 20);

    let mic = mic_audio_pipeline_plan(None);
    assert_eq!(mic.source_name, "mic_audio_source");
    assert_eq!(mic.convert_name, "mic_audio_source_convert");
    assert_eq!(mic.resample_name, "mic_audio_source_resample");
    assert_eq!(mic.sink_name, "mic_audio_source_sink");
    assert_eq!(mic.device, "@DEFAULT_SOURCE@");

    let overridden = system_audio_pipeline_plan(Some("bluez_output.speaker".to_string()));
    assert_eq!(overridden.device, "bluez_output.speaker");
}

#[test]
fn error_messages_name_the_failure() {
    let err = missing_element("pipewiresrc");
    assert_eq!(
        err.message(),
        "missing media framework element 'pipewiresrc': ensure required plugins are installed"
    );
    assert_eq!(
        CaptureError::AlreadyActive.message(),
        "capture already running"
    );
    assert_eq!(
        CaptureError::CaptureActive.message(),
        "stop capture before updating options"
    );
    let failed = CaptureError::PipelineStartFailed {
        stream: capture_core::chunk::StreamKind::Mic,
        detail: "state change refused".to_string(),
    };
    assert_eq!(
        failed.message(),
        "failed to start mic pipeline: state change refused"
    );
}

#[test]
fn start_payload_converts_to_options() {
    let payload = StartCapturePayload {
        chunk_duration_ms: CaptureOptions::default_chunk_ms(),
        capture_mic: true,
        debug_save: false,
        target: CaptureTargetPayload::default_full_display(),
    };
    let opts = CaptureOptions::from(payload);
    assert_eq!(opts.chunk_duration_ms, 5000);
    assert!(opts.capture_mic);
    assert!(!opts.debug_save);
    assert!(matches!(opts.target, CaptureTarget::FullDisplay));

    let windowed = StartCapturePayload {
        chunk_duration_ms: 1000,
        capture_mic: false,
        debug_save: true,
        target: CaptureTargetPayload::Window { id: "9".to_string() },
    };
    let opts = CaptureOptions::from(windowed);
    assert!(matches!(opts.target, CaptureTarget::Window { id } if id == "9"));
}
