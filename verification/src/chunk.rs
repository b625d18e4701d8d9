//! Per-stream chunk buffering: each live pipeline feeds raw sample bytes and
//! decoded format metadata into its own buffer, and the buffer cuts the
//! unbounded delivery stream into fixed-duration chunks.
//!
//! The buffers are driven by the delivery callbacks: a caller hands in the
//! sample bytes together with the clock readings taken at delivery time, and
//! receives the completed chunk back whenever the running window has elapsed.
//! Dispatching the chunk (channel send, logging, persistence) is the caller's
//! business; nothing here blocks on it.

use vstd::prelude::*;

verus! {

/// Label of one media stream within a session.
#[derive(Debug, Clone, Copy, PartialEq, Eq, Structural)]
pub enum StreamKind {
    Video,
    SystemAudio,
    Mic,
}

impl StreamKind {
    /// The wire label of the stream, as a sequence of characters.
    pub open spec fn label_seq(self) -> Seq<char> {
        match self {
            StreamKind::Video => "video"@,
            StreamKind::SystemAudio => "system_audio"@,
            StreamKind::Mic => "mic"@,
        }
    }

    /// The wire label of the stream, as it appears in logs and artifact names.
    pub fn label(&self) -> (r: &'static str)
        ensures
            r@ == self.label_seq(),
    {
        match self {
            StreamKind::Video => "video",
            StreamKind::SystemAudio => "system_audio",
            StreamKind::Mic => "mic",
        }
    }
}

/// The milliseconds a presentation timestamp in nanoseconds stands for.
pub open spec fn spec_pts_ms(pts_nanos: Option<u64>) -> Option<u64> {
    match pts_nanos {
        Option::None => Option::None,
        Option::Some(n) => Option::Some((n / 1_000_000) as u64),
    }
}

/// Decoded format description of one video sample delivery.
#[derive(Debug, Clone)]
pub struct VideoFrameMetadata {
    pub width: i32,
    pub height: i32,
    pub format: Option<String>,
    pub pts_ms: Option<u64>,
}

impl VideoFrameMetadata {
    /// Builds the metadata of a video delivery from the fields its format
    /// description exposes. A delivery whose description lacks the frame
    /// dimensions carries no usable metadata and yields `None`.
    pub fn from_fields(
        width: Option<i32>,
        height: Option<i32>,
        format: Option<String>,
        pts_nanos: Option<u64>,
    ) -> (r: Option<Self>)
        ensures
            r is Some <==> (width is Some && height is Some),
            r matches Some(m) ==> m.width == width->Some_0 && m.height == height->Some_0
                && m.format == format && m.pts_ms == spec_pts_ms(pts_nanos),
    {
        match (width, height) {
            (Option::Some(w), Option::Some(h)) => Option::Some(VideoFrameMetadata {
                width: w,
                height: h,
                format,
                pts_ms: match pts_nanos {
                    Option::None => Option::None,
                    Option::Some(n) => Option::Some(n / 1_000_000),
                },
            }),
            _ => Option::None,
        }
    }
}

/// Decoded format description of one audio sample delivery.
#[derive(Debug, Clone)]
pub struct AudioFrameMetadata {
    pub rate: u32,
    pub channels: u32,
    pub format: Option<String>,
    pub frames: usize,
    pub pts_ms: Option<u64>,
}

impl AudioFrameMetadata {
    /// Builds the metadata of an audio delivery from its resolved format
    /// layout. A layout whose bytes-per-frame is zero gives no way to count
    /// sample frames, so the delivery is treated as carrying no metadata
    /// rather than dividing by zero.
    pub fn from_fields(
        rate: u32,
        channels: u32,
        format: Option<String>,
        bytes_per_frame: u32,
        byte_len: usize,
        pts_nanos: Option<u64>,
    ) -> (r: Option<Self>)
        ensures
            r is Some <==> bytes_per_frame != 0,
            r matches Some(m) ==> m.rate == rate && m.channels == channels && m.format == format
                && m.frames == byte_len as int / bytes_per_frame as int && m.pts_ms == spec_pts_ms(
                pts_nanos,
            ),
    {
        if bytes_per_frame == 0 {
            Option::None
        } else {
            Option::Some(AudioFrameMetadata {
                rate,
                channels,
                format,
                frames: byte_len / (bytes_per_frame as usize),
                pts_ms: match pts_nanos {
                    Option::None => Option::None,
                    Option::Some(n) => Option::Some(n / 1_000_000),
                },
            })
        }
    }
}

/// Stream-specific metadata attached to a completed chunk. A chunk cut from
/// a window in which no delivery carried usable metadata is still emitted,
/// with `Missing` in this slot.
#[derive(Debug, Clone)]
pub enum ChunkMetadata {
    Missing,
    Video(VideoFrameMetadata),
    Audio(AudioFrameMetadata),
}

/// Mathematical mirror of video metadata: the format tag as its characters.
pub struct VideoMetaModel {
    pub width: i32,
    pub height: i32,
    pub format: Option<Seq<char>>,
    pub pts_ms: Option<u64>,
}

/// Mathematical mirror of audio metadata: the format tag as its characters.
pub struct AudioMetaModel {
    pub rate: u32,
    pub channels: u32,
    pub format: Option<Seq<char>>,
    pub frames: usize,
    pub pts_ms: Option<u64>,
}

/// Mathematical mirror of the metadata attached to a chunk.
pub enum MetaModel {
    Missing,
    Video(VideoMetaModel),
    Audio(AudioMetaModel),
}

impl View for VideoFrameMetadata {
    type V = VideoMetaModel;

    open spec fn view(&self) -> VideoMetaModel {
        VideoMetaModel {
            width: self.width,
            height: self.height,
            format: match self.format {
                Option::Some(f) => Option::Some(f@),
                Option::None => Option::None,
            },
            pts_ms: self.pts_ms,
        }
    }
}

impl View for AudioFrameMetadata {
    type V = AudioMetaModel;

    open spec fn view(&self) -> AudioMetaModel {
        AudioMetaModel {
            rate: self.rate,
            channels: self.channels,
            format: match self.format {
                Option::Some(f) => Option::Some(f@),
                Option::None => Option::None,
            },
            frames: self.frames,
            pts_ms: self.pts_ms,
        }
    }
}

impl View for ChunkMetadata {
    type V = MetaModel;

    open spec fn view(&self) -> MetaModel {
        match self {
            ChunkMetadata::Missing => MetaModel::Missing,
            ChunkMetadata::Video(m) => MetaModel::Video(m@),
            ChunkMetadata::Audio(m) => MetaModel::Audio(m@),
        }
    }
}

/// One completed chunk: a time-bounded slice of accumulated raw samples from
/// one stream, immutable after construction.
#[derive(Debug, Clone)]
pub struct CapturedChunk {
    pub id: u64,
    pub kind: StreamKind,
    pub start_ts_unix_nanos: u128,
    pub duration_ms: u64,
    pub metadata: ChunkMetadata,
    pub data_len: usize,
    pub data: Vec<u8>,
}

/// Appends every byte of `src` to `dst`, in order.
fn append_bytes(dst: &mut Vec<u8>, src: &[u8])
    ensures
        final(dst)@ == old(dst)@ + src@,
{
    let n = src.len();
    let mut i: usize = 0;
    while i < n
        invariant
            n == src@.len(),
            i <= n,
            dst@ == old(dst)@ + src@.subrange(0, i as int),
        decreases n - i,
    {
        dst.push(*vstd::slice::slice_index_get(src, i));
        proof {
            assert(dst@ =~= old(dst)@ + src@.subrange(0, i as int + 1));
        }
        i = i + 1;
    }
    proof {
        assert(old(dst)@ + src@.subrange(0, src@.len() as int) =~= old(dst)@ + src@);
    }
}

/// The timing window a chunk buffer runs: everything chunk emission depends
/// on, abstracted away from the stream's payload.
pub struct ChunkWindow {
    pub duration_ms: u64,
    pub start_ms: u64,
    pub next_id: u64,
}

/// Whether a delivery observed at `now_ms` completes the current window.
pub open spec fn window_emits(w: ChunkWindow, now_ms: u64) -> bool {
    now_ms - w.start_ms >= w.duration_ms
}

/// The window after one delivery observed at `now_ms`: on emission the window
/// restarts at the delivery instant and the next chunk id is taken.
pub open spec fn window_step(w: ChunkWindow, now_ms: u64) -> ChunkWindow {
    if window_emits(w, now_ms) {
        ChunkWindow { duration_ms: w.duration_ms, start_ms: now_ms, next_id: (w.next_id + 1) as u64 }
    } else {
        w
    }
}

/// The ids of the chunks emitted over a sequence of deliveries, in emission
/// order.
pub open spec fn emitted_ids(w: ChunkWindow, times: Seq<u64>) -> Seq<u64>
    decreases times.len(),
{
    if times.len() == 0 {
        Seq::empty()
    } else {
        let head: Seq<u64> = if window_emits(w, times[0]) {
            seq![w.next_id]
        } else {
            Seq::empty()
        };
        head + emitted_ids(window_step(w, times[0]), times.skip(1))
    }
}

/// Delivery instants a window can be fed: nondecreasing, and none earlier
/// than the window's start.
pub open spec fn valid_delivery_times(w: ChunkWindow, times: Seq<u64>) -> bool {
    (forall|k: int| 0 <= k < times.len() - 1 ==> #[trigger] times[k] <= times[k + 1]) && (times.len()
        > 0 ==> w.start_ms <= times[0])
}

/// Chunk ids are consecutive: over any run of deliveries, the emitted chunks
/// carry the ids `next_id`, `next_id + 1`, ... in order — in particular, a
/// fresh buffer's chunk ids strictly increase from zero, and no id is ever
/// reused.
pub proof fn lemma_emitted_ids_consecutive(w: ChunkWindow, times: Seq<u64>)
    requires
        valid_delivery_times(w, times),
        w.next_id + times.len() <= u64::MAX,
    ensures
        emitted_ids(w, times).len() <= times.len(),
        forall|k: int|
            0 <= k < emitted_ids(w, times).len() ==> #[trigger] emitted_ids(w, times)[k]
                == w.next_id + k,
        forall|k1: int, k2: int|
            #![trigger emitted_ids(w, times)[k1], emitted_ids(w, times)[k2]]
            0 <= k1 < k2 < emitted_ids(w, times).len() ==> emitted_ids(w, times)[k1]
                < emitted_ids(w, times)[k2],
    decreases times.len(),
{
    if times.len() > 0 {
        let t1 = times[0];
        let w2 = window_step(w, t1);
        let rest = times.skip(1);
        assert forall|k: int| 0 <= k < rest.len() - 1 implies #[trigger] rest[k] <= rest[k + 1] by {
            assert(rest[k] == times[k + 1]);
            assert(rest[k + 1] == times[k + 2]);
        }
        if rest.len() > 0 {
            assert(rest[0] == times[1]);
            assert(times[0] <= times[1]);
            assert(w2.start_ms <= rest[0]);
        }
        lemma_emitted_ids_consecutive(w2, rest);
        let ids = emitted_ids(w, times);
        let ids2 = emitted_ids(w2, rest);
        if window_emits(w, t1) {
            assert(ids == seq![w.next_id] + ids2);
            assert forall|k: int| 0 <= k < ids.len() implies #[trigger] ids[k] == w.next_id
                + k by {
                if k == 0 {
                    assert(ids[0] == w.next_id);
                } else {
                    assert(ids[k] == ids2[k - 1]);
                    assert(ids2[k - 1] == w2.next_id + (k - 1));
                }
            }
        } else {
            assert(ids == Seq::<u64>::empty() + ids2);
            assert(ids =~= ids2);
        }
    }
}

/// Over a span of `T` milliseconds, a window of duration `D` emits at most
/// `T / D` chunks: every emission closes a window that ran for at least the
/// full duration.
pub proof fn lemma_emitted_count_bound(w: ChunkWindow, times: Seq<u64>, hi: u64)
    requires
        valid_delivery_times(w, times),
        forall|k: int| 0 <= k < times.len() ==> times[k] <= hi,
        w.start_ms <= hi,
        w.duration_ms >= 1,
    ensures
        emitted_ids(w, times).len() <= (hi - w.start_ms) as int / (w.duration_ms as int),
    decreases times.len(),
{
    let d = w.duration_ms as int;
    if times.len() == 0 {
        vstd::arithmetic::div_mod::lemma_div_pos_is_pos((hi - w.start_ms) as int, d);
    } else {
        let t1 = times[0];
        let w2 = window_step(w, t1);
        let rest = times.skip(1);
        assert forall|k: int| 0 <= k < rest.len() - 1 implies #[trigger] rest[k] <= rest[k + 1] by {
            assert(rest[k] == times[k + 1]);
            assert(rest[k + 1] == times[k + 2]);
        }
        assert forall|k: int| 0 <= k < rest.len() implies rest[k] <= hi by {
            assert(rest[k] == times[k + 1]);
        }
        if rest.len() > 0 {
            assert(rest[0] == times[1]);
            assert(times[0] <= times[1]);
        }
        lemma_emitted_count_bound(w2, rest, hi);
        if window_emits(w, t1) {
            assert(t1 - w.start_ms >= w.duration_ms);
            assert(emitted_ids(w, times).len() == 1 + emitted_ids(w2, rest).len());
            lemma_div_add_denominator((hi - t1) as int, d);
            assert((hi - t1) as int + d <= (hi - w.start_ms) as int);
            vstd::arithmetic::div_mod::lemma_div_is_ordered(
                (hi - t1) as int + d,
                (hi - w.start_ms) as int,
                d,
            );
        } else {
            assert(emitted_ids(w, times) =~= emitted_ids(w2, rest));
        }
    }
}

/// Count of chunks under a constant-rate feed, generalized over the time
/// already elapsed in the current window. The elapsed time and the window
/// duration both sit on the delivery grid, so every window closes exactly on
/// a delivery and the count is exact.
proof fn lemma_constant_rate_count_from(w: ChunkWindow, delta: u64, e: int, n: int)
    requires
        w.duration_ms >= 1,
        1 <= delta,
        (w.duration_ms as int) % (delta as int) == 0,
        0 <= e < w.duration_ms,
        e % (delta as int) == 0,
        n >= 0,
        w.start_ms + e + n * (delta as int) <= u64::MAX,
    ensures
        emitted_ids(
            w,
            Seq::new(n as nat, |k: int| (w.start_ms + e + (k + 1) * (delta as int)) as u64),
        ).len() == (e + n * (delta as int)) / (w.duration_ms as int),
    decreases n,
{
    let dm = w.duration_ms as int;
    let dl = delta as int;
    let s = w.start_ms as int;
    let times = Seq::new(n as nat, |k: int| (s + e + (k + 1) * dl) as u64);
    if n == 0 {
        vstd::arithmetic::div_mod::lemma_basic_div(e, dm);
        assert(n * dl == 0) by (nonlinear_arith)
            requires
                n == 0,
        ;
    } else {
        assert(dl <= n * dl && n * dl <= n * dl) by (nonlinear_arith)
            requires
                n >= 1,
                dl >= 1,
        ;
        assert(s + e + 1 * dl <= u64::MAX) by (nonlinear_arith)
            requires
                s + e + n * dl <= u64::MAX,
                n >= 1,
                dl >= 1,
        ;
        assert(times[0] == (s + e + 1 * dl) as u64);
        assert(1 * dl == dl) by (nonlinear_arith);
        let t1 = times[0];
        assert(t1 == s + e + dl);
        // the elapsed time never oversteps the duration: both sit on the grid
        assert(e + dl <= dm) by {
            vstd::arithmetic::div_mod::lemma_sub_mod_noop(dm, e, dl);
            vstd::arithmetic::div_mod::lemma_small_mod(0, delta as nat);
            assert((dm - e) % dl == 0);
            vstd::arithmetic::div_mod::lemma_fundamental_div_mod(dm - e, dl);
            let q = (dm - e) / dl;
            assert(dm - e == dl * q);
            assert(dm - e >= dl) by (nonlinear_arith)
                requires
                    dm - e == dl * q,
                    dm - e > 0,
                    dl >= 1,
            ;
        }
        let w2 = window_step(w, t1);
        let rest = times.skip(1);
        if e + dl == dm {
            // this delivery closes the window exactly
            assert(window_emits(w, t1));
            assert(w2.start_ms == t1);
            let times2 = Seq::new(
                (n - 1) as nat,
                |k: int| (w2.start_ms + 0 + (k + 1) * dl) as u64,
            );
            assert(rest =~= times2) by {
                assert forall|k: int| 0 <= k < n - 1 implies rest[k] == times2[k] by {
                    assert(rest[k] == times[k + 1]);
                    assert((k + 2) * dl == dl + (k + 1) * dl) by (nonlinear_arith);
                }
            }
            vstd::arithmetic::div_mod::lemma_small_mod(0, delta as nat);
            assert((n - 1) * dl == n * dl - dl) by (nonlinear_arith);
            lemma_constant_rate_count_from(w2, delta, 0, n - 1);
            assert(emitted_ids(w, times) == seq![w.next_id] + emitted_ids(w2, rest));
            assert(emitted_ids(w, times).len() == 1 + emitted_ids(w2, times2).len());
            let y = (n - 1) * dl;
            assert(y >= 0) by (nonlinear_arith)
                requires
                    n >= 1,
                    dl >= 1,
                    y == (n - 1) * dl,
            ;
            lemma_div_add_denominator(y, dm);
            assert(e + n * dl == y + dm) by (nonlinear_arith)
                requires
                    e + dl == dm,
                    y == (n - 1) * dl,
            ;
        } else {
            // the window keeps running; the elapsed time grows by one period
            assert(!window_emits(w, t1));
            assert(w2 == w);
            let e2 = e + dl;
            let times2 = Seq::new((n - 1) as nat, |k: int| (s + e2 + (k + 1) * dl) as u64);
            assert(rest =~= times2) by {
                assert forall|k: int| 0 <= k < n - 1 implies rest[k] == times2[k] by {
                    assert(rest[k] == times[k + 1]);
                    assert((k + 2) * dl == dl + (k + 1) * dl) by (nonlinear_arith);
                }
            }
            vstd::arithmetic::div_mod::lemma_mod_add_multiples_vanish(e, dl);
            assert(e2 % dl == 0);
            assert(e2 + (n - 1) * dl == e + n * dl) by (nonlinear_arith)
                requires
                    e2 == e + dl,
            ;
            lemma_constant_rate_count_from(w, delta, e2, n - 1);
            assert(emitted_ids(w, times) =~= emitted_ids(w2, rest));
        }
    }
}

/// Under a constant-rate feed whose period divides the chunk duration, the
/// number of chunks emitted over `n` deliveries — that is, over a span of
/// `T = n * delta` milliseconds — is exactly `T / D` for chunk duration `D`:
/// one chunk per full duration, none lost and none extra.
pub proof fn lemma_constant_rate_chunk_count(w: ChunkWindow, delta: u64, n: int)
    requires
        w.duration_ms >= 1,
        1 <= delta,
        (w.duration_ms as int) % (delta as int) == 0,
        n >= 0,
        w.start_ms + n * (delta as int) <= u64::MAX,
    ensures
        emitted_ids(
            w,
            Seq::new(n as nat, |k: int| (w.start_ms + (k + 1) * (delta as int)) as u64),
        ).len() == (n * (delta as int)) / (w.duration_ms as int),
{
    vstd::arithmetic::div_mod::lemma_small_mod(0, delta as nat);
    lemma_constant_rate_count_from(w, delta, 0, n);
    assert(Seq::new(
        n as nat,
        |k: int| (w.start_ms + 0 + (k + 1) * (delta as int)) as u64,
    ) =~= Seq::new(n as nat, |k: int| (w.start_ms + (k + 1) * (delta as int)) as u64));
}

/// Dividing a sum by its added denominator: `(y + d) / d == y / d + 1`.
proof fn lemma_div_add_denominator(y: int, d: int)
    requires
        0 <= y,
        0 < d,
    ensures
        (y + d) / d == y / d + 1,
{
    vstd::arithmetic::div_mod::lemma_fundamental_div_mod(y, d);
    vstd::arithmetic::div_mod::lemma_mod_bound(y, d);
    assert((y / d + 1) * d == (y / d) * d + d) by (nonlinear_arith);
    assert(y + d == (y / d + 1) * d + y % d) by {
        assert(y == d * (y / d) + y % d);
        assert(d * (y / d) == (y / d) * d) by (nonlinear_arith);
    }
    vstd::arithmetic::div_mod::lemma_fundamental_div_mod_converse_div(
        y + d,
        d,
        y / d + 1,
        y % d,
    );
}

/// Accumulates raw video sample deliveries and cuts them into fixed-duration
/// chunks. One instance exists per constructed video pipeline; callers are
/// expected to exclude concurrent access by their own lock around it.
#[derive(Debug)]
pub struct VideoChunkBuffer {
    pub chunk_duration_ms: u64,
    pub chunk_start_ms: u64,
    pub frames_in_chunk: u64,
    pub accum: Vec<u8>,
    pub start_ts_unix_nanos: u128,
    pub id_counter: u64,
}

/// The timing window a video buffer is currently running.
pub open spec fn video_window(b: VideoChunkBuffer) -> ChunkWindow {
    ChunkWindow {
        duration_ms: b.chunk_duration_ms,
        start_ms: b.chunk_start_ms,
        next_id: b.id_counter,
    }
}

impl VideoChunkBuffer {
    /// A fresh buffer whose first window begins at the given monotonic
    /// instant, stamped with the wall clock read at the same moment.
    pub fn new(chunk_duration_ms: u64, now_ms: u64, wall_clock_nanos: u128) -> (r: Self)
        ensures
            r.chunk_duration_ms == chunk_duration_ms,
            r.chunk_start_ms == now_ms,
            r.frames_in_chunk == 0,
            r.accum@ == Seq::<u8>::empty(),
            r.start_ts_unix_nanos == wall_clock_nanos,
            r.id_counter == 0,
    {
        VideoChunkBuffer {
            chunk_duration_ms,
            chunk_start_ms: now_ms,
            frames_in_chunk: 0,
            accum: Vec::new(),
            start_ts_unix_nanos: wall_clock_nanos,
            id_counter: 0,
        }
    }

    /// Takes one sample delivery: appends the raw bytes, counts the frame,
    /// and, if the running window has elapsed at the delivery instant, cuts
    /// and returns the completed chunk, resetting the buffer for the next
    /// window. A returned chunk carries the delivery's metadata, or
    /// `Missing` when the delivery decoded none.
    pub fn handle_sample(
        &mut self,
        data: &[u8],
        meta: Option<VideoFrameMetadata>,
        now_ms: u64,
        wall_clock_nanos: u128,
    ) -> (r: Option<CapturedChunk>)
        requires
            old(self).chunk_start_ms <= now_ms,
            old(self).id_counter < u64::MAX,
            old(self).frames_in_chunk < u64::MAX,
            old(self).accum@.len() + data@.len() <= usize::MAX,
        ensures
            r is Some <==> window_emits(video_window(*old(self)), now_ms),
            video_window(*final(self)) == window_step(video_window(*old(self)), now_ms),
            final(self).chunk_duration_ms == old(self).chunk_duration_ms,
            r matches Some(chunk) ==> ({
                &&& chunk.id == old(self).id_counter
                &&& chunk.kind is Video
                &&& chunk.start_ts_unix_nanos == old(self).start_ts_unix_nanos
                &&& chunk.duration_ms == old(self).chunk_duration_ms
                &&& chunk.data@ == old(self).accum@ + data@
                &&& chunk.data_len == chunk.data@.len()
                &&& meta matches Some(m) ==> chunk.metadata == ChunkMetadata::Video(m)
                &&& chunk.metadata is Missing <==> meta is None
                &&& final(self).accum@ == Seq::<u8>::empty()
                &&& final(self).frames_in_chunk == 0
                &&& final(self).start_ts_unix_nanos == wall_clock_nanos
            }),
            r is None ==> ({
                &&& final(self).accum@ == old(self).accum@ + data@
                &&& final(self).frames_in_chunk == old(self).frames_in_chunk + 1
                &&& final(self).start_ts_unix_nanos == old(self).start_ts_unix_nanos
            }),
    {
        append_bytes(&mut self.accum, data);
        self.frames_in_chunk = self.frames_in_chunk + 1;
        if now_ms - self.chunk_start_ms >= self.chunk_duration_ms {
            Option::Some(self.flush(meta, now_ms, wall_clock_nanos))
        } else {
            Option::None
        }
    }

    /// Cuts the current window: snapshots the accumulated bytes and the given
    /// metadata into a chunk under the next id, then resets accumulation and
    /// restarts the window at the given instants.
    fn flush(&mut self, meta: Option<VideoFrameMetadata>, now_ms: u64, wall_clock_nanos: u128) -> (r:
        CapturedChunk)
        requires
            old(self).id_counter < u64::MAX,
        ensures
            r.id == old(self).id_counter,
            r.kind is Video,
            r.start_ts_unix_nanos == old(self).start_ts_unix_nanos,
            r.duration_ms == old(self).chunk_duration_ms,
            r.data@ == old(self).accum@,
            r.data_len == r.data@.len(),
            meta matches Some(m) ==> r.metadata == ChunkMetadata::Video(m),
            r.metadata is Missing <==> meta is None,
            final(self).chunk_duration_ms == old(self).chunk_duration_ms,
            final(self).chunk_start_ms == now_ms,
            final(self).frames_in_chunk == 0,
            final(self).accum@ == Seq::<u8>::empty(),
            final(self).start_ts_unix_nanos == wall_clock_nanos,
            final(self).id_counter == old(self).id_counter + 1,
    {
        let id = self.id_counter;
        self.id_counter = self.id_counter + 1;
        let mut data: Vec<u8> = Vec::new();
        core::mem::swap(&mut data, &mut self.accum);
        let data_len = data.len();
        let metadata = match meta {
            Option::Some(m) => ChunkMetadata::Video(m),
            Option::None => ChunkMetadata::Missing,
        };
        let chunk = CapturedChunk {
            id,
            kind: StreamKind::Video,
            start_ts_unix_nanos: self.start_ts_unix_nanos,
            duration_ms: self.chunk_duration_ms,
            metadata,
            data_len,
            data,
        };
        self.frames_in_chunk = 0;
        self.chunk_start_ms = now_ms;
        self.start_ts_unix_nanos = wall_clock_nanos;
        chunk
    }
}

/// Accumulates raw audio sample deliveries for one audio stream (system
/// audio or mic) and cuts them into fixed-duration chunks. The most recent
/// decoded format description is remembered so a chunk can be stamped with
/// it even when the closing delivery decoded none.
#[derive(Debug)]
pub struct AudioChunkBuffer {
    pub kind: StreamKind,
    pub chunk_duration_ms: u64,
    pub chunk_start_ms: u64,
    pub frames_accumulated: u64,
    pub last_metadata: Option<AudioFrameMetadata>,
    pub accum: Vec<u8>,
    pub start_ts_unix_nanos: u128,
    pub id_counter: u64,
}

/// The timing window an audio buffer is currently running.
pub open spec fn audio_window(b: AudioChunkBuffer) -> ChunkWindow {
    ChunkWindow {
        duration_ms: b.chunk_duration_ms,
        start_ms: b.chunk_start_ms,
        next_id: b.id_counter,
    }
}

/// The frame count a delivery contributes: what its metadata decoded, or
/// nothing when the delivery carried none.
pub open spec fn spec_delivery_frames(meta: Option<AudioFrameMetadata>) -> int {
    match meta {
        Option::Some(m) => m.frames as int,
        Option::None => 0,
    }
}

/// The metadata remembered after a delivery: what the delivery decoded, or
/// what was remembered before when it decoded none.
pub open spec fn spec_remembered_meta(
    meta: Option<AudioFrameMetadata>,
    last: Option<AudioFrameMetadata>,
) -> Option<AudioFrameMetadata> {
    if meta is Some {
        meta
    } else {
        last
    }
}

impl AudioChunkBuffer {
    /// A fresh buffer for the given audio stream, whose first window begins
    /// at the given monotonic instant.
    pub fn new(
        kind: StreamKind,
        chunk_duration_ms: u64,
        now_ms: u64,
        wall_clock_nanos: u128,
    ) -> (r: Self)
        ensures
            r.kind == kind,
            r.chunk_duration_ms == chunk_duration_ms,
            r.chunk_start_ms == now_ms,
            r.frames_accumulated == 0,
            r.last_metadata is None,
            r.accum@ == Seq::<u8>::empty(),
            r.start_ts_unix_nanos == wall_clock_nanos,
            r.id_counter == 0,
    {
        AudioChunkBuffer {
            kind,
            chunk_duration_ms,
            chunk_start_ms: now_ms,
            frames_accumulated: 0,
            last_metadata: Option::None,
            accum: Vec::new(),
            start_ts_unix_nanos: wall_clock_nanos,
            id_counter: 0,
        }
    }

    /// Takes one sample delivery: appends the raw bytes, accumulates the
    /// decoded frame count and remembers the decoded format, and, if the
    /// running window has elapsed at the delivery instant, cuts and returns
    /// the completed chunk. The chunk is stamped with the most recent
    /// decoded metadata, which is then forgotten for the next window.
    pub fn handle_sample(
        &mut self,
        data: &[u8],
        meta: Option<AudioFrameMetadata>,
        now_ms: u64,
        wall_clock_nanos: u128,
    ) -> (r: Option<CapturedChunk>)
        requires
            old(self).chunk_start_ms <= now_ms,
            old(self).id_counter < u64::MAX,
            old(self).frames_accumulated + spec_delivery_frames(meta) <= u64::MAX,
            old(self).accum@.len() + data@.len() <= usize::MAX,
        ensures
            r is Some <==> window_emits(audio_window(*old(self)), now_ms),
            audio_window(*final(self)) == window_step(audio_window(*old(self)), now_ms),
            final(self).kind == old(self).kind,
            final(self).chunk_duration_ms == old(self).chunk_duration_ms,
            r matches Some(chunk) ==> ({
                &&& chunk.id == old(self).id_counter
                &&& chunk.kind == old(self).kind
                &&& chunk.start_ts_unix_nanos == old(self).start_ts_unix_nanos
                &&& chunk.duration_ms == old(self).chunk_duration_ms
                &&& chunk.data@ == old(self).accum@ + data@
                &&& chunk.data_len == chunk.data@.len()
                &&& spec_remembered_meta(meta, old(self).last_metadata) matches Some(m)
                    ==> chunk.metadata == ChunkMetadata::Audio(m)
                &&& chunk.metadata is Missing <==> spec_remembered_meta(
                    meta,
                    old(self).last_metadata,
                ) is None
                &&& final(self).accum@ == Seq::<u8>::empty()
                &&& final(self).frames_accumulated == 0
                &&& final(self).last_metadata is None
                &&& final(self).start_ts_unix_nanos == wall_clock_nanos
            }),
            r is None ==> ({
                &&& final(self).accum@ == old(self).accum@ + data@
                &&& final(self).frames_accumulated == old(self).frames_accumulated
                    + spec_delivery_frames(meta)
                &&& final(self).start_ts_unix_nanos == old(self).start_ts_unix_nanos
                &&& final(self).last_metadata == spec_remembered_meta(meta, old(self).last_metadata)
            }),
    {
        append_bytes(&mut self.accum, data);
        match meta {
            Option::Some(m) => {
                self.frames_accumulated = self.frames_accumulated + (m.frames as u64);
                self.last_metadata = Option::Some(m);
            },
            Option::None => {},
        }
        if now_ms - self.chunk_start_ms >= self.chunk_duration_ms {
            Option::Some(self.flush(now_ms, wall_clock_nanos))
        } else {
            Option::None
        }
    }

    /// Cuts the current window: snapshots the accumulated bytes and the most
    /// recently remembered metadata into a chunk under the next id, then
    /// resets accumulation, forgets the metadata, and restarts the window.
    fn flush(&mut self, now_ms: u64, wall_clock_nanos: u128) -> (r: CapturedChunk)
        requires
            old(self).id_counter < u64::MAX,
        ensures
            r.id == old(self).id_counter,
            r.kind == old(self).kind,
            r.start_ts_unix_nanos == old(self).start_ts_unix_nanos,
            r.duration_ms == old(self).chunk_duration_ms,
            r.data@ == old(self).accum@,
            r.data_len == r.data@.len(),
            old(self).last_metadata matches Some(m) ==> r.metadata == ChunkMetadata::Audio(m),
            r.metadata is Missing <==> old(self).last_metadata is None,
            final(self).kind == old(self).kind,
            final(self).chunk_duration_ms == old(self).chunk_duration_ms,
            final(self).chunk_start_ms == now_ms,
            final(self).frames_accumulated == 0,
            final(self).last_metadata is None,
            final(self).accum@ == Seq::<u8>::empty(),
            final(self).start_ts_unix_nanos == wall_clock_nanos,
            final(self).id_counter == old(self).id_counter + 1,
    {
        let id = self.id_counter;
        self.id_counter = self.id_counter + 1;
        let mut data: Vec<u8> = Vec::new();
        core::mem::swap(&mut data, &mut self.accum);
        let data_len = data.len();
        let mut taken: Option<AudioFrameMetadata> = Option::None;
        core::mem::swap(&mut taken, &mut self.last_metadata);
        let metadata = match taken {
            Option::Some(m) => ChunkMetadata::Audio(m),
            Option::None => ChunkMetadata::Missing,
        };
        let chunk = CapturedChunk {
            id,
            kind: self.kind,
            start_ts_unix_nanos: self.start_ts_unix_nanos,
            duration_ms: self.chunk_duration_ms,
            metadata,
            data_len,
            data,
        };
        self.frames_accumulated = 0;
        self.chunk_start_ms = now_ms;
        self.start_ts_unix_nanos = wall_clock_nanos;
        chunk
    }
}

} // verus!
