use capture_core::chunk::AudioChunkBuffer;
use capture_core::chunk::AudioFrameMetadata;
use capture_core::chunk::CapturedChunk;
use capture_core::chunk::ChunkMetadata;
use capture_core::chunk::StreamKind;
use capture_core::chunk::VideoChunkBuffer;
use capture_core::chunk::VideoFrameMetadata;
use capture_core::options::CaptureOptions;
use capture_core::options::CaptureTarget;

#[test]
fn constant_rate_feed_emits_one_chunk_per_duration() {
    // chunk duration 1000 ms, deliveries every 250 ms over 10 s:
    // exactly floor(10000 / 1000) == 10 chunks, ids 0 through 9
    let mut buffer = VideoChunkBuffer::new(1000, 0, 0);
    let mut emitted: Vec<CapturedChunk> = Vec::new();
    let mut k: u64 = 1;
    while k * 250 <= 10_000 {
        let now = k * 250;
        if let Some(chunk) = buffer.handle_sample(&[7u8; 4], None, now, u128::from(now) * 1_000_000)
        {
            emitted.push(chunk);
        }
        k += 1;
    }
    assert_eq!(emitted.len(), 10);
    for (index, chunk) in emitted.iter().enumerate() {
        assert_eq!(chunk.id, index as u64);
        assert_eq!(chunk.kind, StreamKind::Video);
        assert_eq!(chunk.duration_ms, 1000);
    }
}

#[test]
fn non_dividing_rate_stays_within_one_chunk_of_the_quotient() {
    // deliveries every 300 ms against a 1000 ms duration: windows close at
    // the first delivery on or after the duration, so emissions land every
    // 1200 ms and the count sits one below floor(9900 / 1000)
    let mut buffer = VideoChunkBuffer::new(1000, 0, 0);
    let mut count: u64 = 0;
    let mut k: u64 = 1;
    while k * 300 <= 9_900 {
        if buffer.handle_sample(&[0u8], None, k * 300, 0).is_some() {
            count += 1;
        }
        k += 1;
    }
    assert_eq!(count, 8);
    let quotient = 9_900 / 1_000;
    assert!(count >= quotient - 1 && count <= quotient);
}

#[test]
fn video_chunk_snapshots_accumulated_bytes() {
    let mut buffer = VideoChunkBuffer::new(1000, 0, 5_000);
    assert!(buffer.handle_sample(&[1, 2], None, 100, 5_100).is_none());
    assert!(buffer.handle_sample(&[3], None, 400, 5_400).is_none());
    let chunk = buffer
        .handle_sample(&[4, 5], None, 1000, 6_000)
        .expect("the window elapsed, a chunk must be emitted");
    assert_eq!(chunk.id, 0);
    assert_eq!(chunk.kind, StreamKind::Video);
    assert_eq!(chunk.data, vec![1, 2, 3, 4, 5]);
    assert_eq!(chunk.data_len, 5);
    assert_eq!(chunk.start_ts_unix_nanos, 5_000);
    assert_eq!(chunk.duration_ms, 1000);
    // the buffer restarted: next chunk begins empty, under the next id
    let chunk2 = buffer
        .handle_sample(&[9], None, 2000, 7_000)
        .expect("second window elapsed");
    assert_eq!(chunk2.id, 1);
    assert_eq!(chunk2.data, vec![9]);
}

#[test]
fn chunk_without_metadata_is_still_emitted() {
    let mut video = VideoChunkBuffer::new(1000, 0, 0);
    let chunk = video
        .handle_sample(&[], None, 1000, 0)
        .expect("emitted despite no metadata and no bytes");
    assert!(matches!(chunk.metadata, ChunkMetadata::Missing));
    assert_eq!(chunk.kind, StreamKind::Video);
    assert_eq!(chunk.data_len, 0);

    let mut audio = AudioChunkBuffer::new(StreamKind::SystemAudio, 1000, 0, 0);
    let chunk = audio
        .handle_sample(&[0u8; 16], None, 1500, 0)
        .expect("emitted despite unparsed metadata");
    assert!(matches!(chunk.metadata, ChunkMetadata::Missing));
    assert_eq!(chunk.kind, StreamKind::SystemAudio);
    assert_eq!(chunk.data_len, 16);
}

#[test]
fn audio_chunk_carries_most_recent_metadata() {
    let mut buffer = AudioChunkBuffer::new(StreamKind::Mic, 1000, 0, 0);
    let meta = AudioFrameMetadata::from_fields(48_000, 2, Some("F32LE".to_string()), 8, 480, None)
        .expect("nonzero bytes-per-frame parses");
    assert!(buffer.handle_sample(&[0u8; 480], Some(meta), 200, 0).is_none());
    assert_eq!(buffer.frames_accumulated, 60);
    // the closing delivery decodes no metadata; the remembered one is used
    let chunk = buffer
        .handle_sample(&[0u8; 16], None, 1200, 0)
        .expect("window elapsed");
    assert_eq!(chunk.kind, StreamKind::Mic);
    match &chunk.metadata {
        ChunkMetadata::Audio(m) => {
            assert_eq!(m.rate, 48_000);
            assert_eq!(m.channels, 2);
            assert_eq!(m.format.as_deref(), Some("F32LE"));
            assert_eq!(m.frames, 60);
        }
        other => panic!("expected audio metadata, got {:?}", other),
    }
    // the remembered metadata is forgotten after the cut
    assert!(buffer.last_metadata.is_none());
    assert_eq!(buffer.frames_accumulated, 0);
}

#[test]
fn audio_metadata_requires_nonzero_bytes_per_frame() {
    assert!(AudioFrameMetadata::from_fields(48_000, 2, None, 0, 480, None).is_none());
    let m = AudioFrameMetadata::from_fields(44_100, 1, None, 4, 403, Some(2_500_000)).unwrap();
    assert_eq!(m.frames, 100);
    assert_eq!(m.pts_ms, Some(2));
}

#[test]
fn video_metadata_requires_dimensions() {
    assert!(VideoFrameMetadata::from_fields(None, Some(1080), None, None).is_none());
    assert!(VideoFrameMetadata::from_fields(Some(1920), None, None, None).is_none());
    let m = VideoFrameMetadata::from_fields(
        Some(1920),
        Some(1080),
        Some("RGBA".to_string()),
        Some(1_999_999),
    )
    .unwrap();
    assert_eq!(m.width, 1920);
    assert_eq!(m.height, 1080);
    assert_eq!(m.format.as_deref(), Some("RGBA"));
    assert_eq!(m.pts_ms, Some(1));
}

#[test]
fn chunk_duration_is_clamped_to_the_floor() {
    let mut opts = CaptureOptions::default();
    assert_eq!(opts.chunk_duration_ms, 5000);
    assert_eq!(opts.chunk_duration(), 5000);
    opts.chunk_duration_ms = 250;
    assert_eq!(opts.chunk_duration(), 1000);
    opts.chunk_duration_ms = 1000;
    assert_eq!(opts.chunk_duration(), 1000);
    assert!(matches!(opts.target, CaptureTarget::FullDisplay));
}
