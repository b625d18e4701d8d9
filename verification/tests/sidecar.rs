use capture_core::chunk::AudioFrameMetadata;
use capture_core::chunk::ChunkMetadata;
use capture_core::chunk::VideoFrameMetadata;
use capture_core::sidecar::parse_metadata;
use capture_core::sidecar::render_metadata;

fn video(width: i32, height: i32, format: Option<&str>, pts_ms: Option<u64>) -> ChunkMetadata {
    ChunkMetadata::Video(VideoFrameMetadata {
        width,
        height,
        format: format.map(|f| f.to_string()),
        pts_ms,
    })
}

fn audio(
    rate: u32,
    channels: u32,
    format: Option<&str>,
    frames: usize,
    pts_ms: Option<u64>,
) -> ChunkMetadata {
    ChunkMetadata::Audio(AudioFrameMetadata {
        rate,
        channels,
        format: format.map(|f| f.to_string()),
        frames,
        pts_ms,
    })
}

#[test]
fn video_sidecar_text_is_exact() {
    let rendered = render_metadata(&video(1920, 1080, Some("RGBA"), Some(42)));
    assert_eq!(
        rendered,
        "{\n  \"width\": 1920,\n  \"height\": 1080,\n  \"format\": \"RGBA\",\n  \"pts\": 42\n}"
    );
}

#[test]
fn audio_sidecar_text_is_exact() {
    let rendered = render_metadata(&audio(48_000, 2, Some("F32LE"), 4800, None));
    assert_eq!(
        rendered,
        "{\n  \"rate\": 48000,\n  \"channels\": 2,\n  \"format\": \"F32LE\",\n  \"frames\": 4800,\n  \"pts_ms\": null\n}"
    );
}

#[test]
fn missing_metadata_renders_null() {
    assert_eq!(render_metadata(&ChunkMetadata::Missing), "null");
    assert!(matches!(
        parse_metadata("null"),
        Some(ChunkMetadata::Missing)
    ));
}

#[test]
fn video_round_trip_reproduces_fields() {
    let rendered = render_metadata(&video(1920, 1080, Some("RGBA"), Some(42)));
    match parse_metadata(&rendered) {
        Some(ChunkMetadata::Video(m)) => {
            assert_eq!(m.width, 1920);
            assert_eq!(m.height, 1080);
            assert_eq!(m.format.as_deref(), Some("RGBA"));
            assert_eq!(m.pts_ms, Some(42));
        }
        other => panic!("expected video metadata back, got {:?}", other),
    }
}

#[test]
fn video_round_trip_with_negative_and_null_fields() {
    let rendered = render_metadata(&video(-5, 0, None, None));
    assert_eq!(
        rendered,
        "{\n  \"width\": -5,\n  \"height\": 0,\n  \"format\": null,\n  \"pts\": null\n}"
    );
    match parse_metadata(&rendered) {
        Some(ChunkMetadata::Video(m)) => {
            assert_eq!(m.width, -5);
            assert_eq!(m.height, 0);
            assert_eq!(m.format, None);
            assert_eq!(m.pts_ms, None);
        }
        other => panic!("expected video metadata back, got {:?}", other),
    }
}

#[test]
fn audio_round_trip_reproduces_fields() {
    let rendered = render_metadata(&audio(44_100, 1, Some("S16LE"), 12345, Some(999)));
    match parse_metadata(&rendered) {
        Some(ChunkMetadata::Audio(m)) => {
            assert_eq!(m.rate, 44_100);
            assert_eq!(m.channels, 1);
            assert_eq!(m.format.as_deref(), Some("S16LE"));
            assert_eq!(m.frames, 12345);
            assert_eq!(m.pts_ms, Some(999));
        }
        other => panic!("expected audio metadata back, got {:?}", other),
    }
}

#[test]
fn format_tags_with_quotes_and_backslashes_round_trip() {
    let tricky = "a\"b\\c\"\"";
    let rendered = render_metadata(&video(1, 2, Some(tricky), None));
    match parse_metadata(&rendered) {
        Some(ChunkMetadata::Video(m)) => {
            assert_eq!(m.format.as_deref(), Some(tricky));
        }
        other => panic!("expected video metadata back, got {:?}", other),
    }
}

#[test]
fn video_sidecar_is_well_formed_json() {
    let rendered = render_metadata(&video(640, 480, Some("RGBA"), Some(7)));
    let value: serde_json::Value = serde_json::from_str(&rendered).expect("sidecar must be JSON");
    assert_eq!(value["width"], serde_json::Value::from(640));
    assert_eq!(value["height"], serde_json::Value::from(480));
    assert_eq!(value["format"], serde_json::Value::from("RGBA"));
    assert_eq!(value["pts"], serde_json::Value::from(7));
}

#[test]
fn audio_sidecar_is_well_formed_json() {
    let rendered = render_metadata(&audio(48_000, 2, Some("F32LE"), 960, Some(123)));
    let value: serde_json::Value = serde_json::from_str(&rendered).expect("sidecar must be JSON");
    assert_eq!(value["rate"], serde_json::Value::from(48_000));
    assert_eq!(value["channels"], serde_json::Value::from(2));
    assert_eq!(value["format"], serde_json::Value::from("F32LE"));
    assert_eq!(value["frames"], serde_json::Value::from(960));
    assert_eq!(value["pts_ms"], serde_json::Value::from(123));
    let null_meta = render_metadata(&audio(8000, 1, None, 0, None));
    let value: serde_json::Value = serde_json::from_str(&null_meta).expect("sidecar must be JSON");
    assert_eq!(value["format"], serde_json::Value::Null);
    assert_eq!(value["pts_ms"], serde_json::Value::Null);
}

#[test]
fn parser_rejects_foreign_text() {
    assert!(parse_metadata("").is_none());
    assert!(parse_metadata("nul").is_none());
    assert!(parse_metadata("nullx").is_none());
    assert!(parse_metadata("{}").is_none());
    assert!(parse_metadata("{\n  \"width\": x\n}").is_none());
    assert!(parse_metadata("{\n  \"width\": 1,\n  \"height\": 2,\n  \"format\": null,\n  \"pts\": null\n} ").is_none());
    assert!(parse_metadata("{\n  \"width\": 1,\n  \"height\": 2,\n  \"format\": \"unterminated").is_none());
}
