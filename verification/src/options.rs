//! Capture configuration: the options snapshot taken at session start and
//! the wire-shaped payload it is decoded from.

use vstd::prelude::*;

verus! {

/// Default chunk length in milliseconds when the caller gives none.
pub const DEFAULT_CHUNK_MS: u64 = 5000;

/// Shortest chunk length the capture core accepts; shorter requests are clamped.
pub const MIN_CHUNK_MS: u64 = 1000;

/// What the video pipeline should capture: the whole display, or one window
/// named by an identifier string.
#[derive(Debug, Clone)]
pub enum CaptureTarget {
    FullDisplay,
    Window { id: String },
}

impl Default for CaptureTarget {
    fn default() -> (r: Self)
        ensures
            r is FullDisplay,
    {
        CaptureTarget::FullDisplay
    }
}

/// Configuration snapshot for one capture session. Copied into the session
/// at start time and immutable while the session lives.
#[derive(Debug, Clone)]
pub struct CaptureOptions {
    pub chunk_duration_ms: u64,
    pub capture_mic: bool,
    pub debug_save: bool,
    pub target: CaptureTarget,
}

impl Default for CaptureOptions {
    fn default() -> (r: Self)
        ensures
            r.chunk_duration_ms == DEFAULT_CHUNK_MS,
            r.capture_mic == false,
            r.debug_save == false,
            r.target is FullDisplay,
    {
        CaptureOptions {
            chunk_duration_ms: DEFAULT_CHUNK_MS,
            capture_mic: false,
            debug_save: false,
            target: CaptureTarget::FullDisplay,
        }
    }
}

/// The chunk duration an options value asks for, after clamping to the floor.
pub open spec fn spec_chunk_duration_ms(options: CaptureOptions) -> u64 {
    if options.chunk_duration_ms < MIN_CHUNK_MS {
        MIN_CHUNK_MS
    } else {
        options.chunk_duration_ms
    }
}

impl CaptureOptions {
    /// Effective chunk duration in milliseconds: the configured value,
    /// clamped so no chunk is shorter than the documented floor.
    pub fn chunk_duration(&self) -> (r: u64)
        ensures
            r == spec_chunk_duration_ms(*self),
            r >= MIN_CHUNK_MS,
    {
        if self.chunk_duration_ms < MIN_CHUNK_MS {
            MIN_CHUNK_MS
        } else {
            self.chunk_duration_ms
        }
    }

    /// Chunk duration used when the wire payload names none.
    pub fn default_chunk_ms() -> (r: u64)
        ensures
            r == DEFAULT_CHUNK_MS,
    {
        DEFAULT_CHUNK_MS
    }
}

/// Wire shape of the capture target as the command layer decodes it.
#[derive(Debug, Clone)]
pub enum CaptureTargetPayload {
    FullDisplay,
    Window { id: String },
}

impl CaptureTargetPayload {
    /// Target assumed when the wire payload names none.
    pub fn default_full_display() -> (r: Self)
        ensures
            r is FullDisplay,
    {
        CaptureTargetPayload::FullDisplay
    }

    /// The capture target a payload stands for.
    pub fn into_target(self) -> (r: CaptureTarget)
        ensures
            self is FullDisplay ==> r is FullDisplay,
            self matches CaptureTargetPayload::Window { id } ==> r matches CaptureTarget::Window {
                id: rid,
            } && rid == id,
    {
        match self {
            CaptureTargetPayload::FullDisplay => CaptureTarget::FullDisplay,
            CaptureTargetPayload::Window { id } => CaptureTarget::Window { id },
        }
    }
}

/// Wire shape of a start request: every field of the options, each optional
/// on the wire with a documented default filled in by the command layer.
#[derive(Debug, Clone)]
pub struct StartCapturePayload {
    pub chunk_duration_ms: u64,
    pub capture_mic: bool,
    pub debug_save: bool,
    pub target: CaptureTargetPayload,
}

/// The options a start payload stands for, field by field.
pub open spec fn spec_options_of_payload(payload: StartCapturePayload) -> CaptureOptions {
    CaptureOptions {
        chunk_duration_ms: payload.chunk_duration_ms,
        capture_mic: payload.capture_mic,
        debug_save: payload.debug_save,
        target: match payload.target {
            CaptureTargetPayload::FullDisplay => CaptureTarget::FullDisplay,
            CaptureTargetPayload::Window { id } => CaptureTarget::Window { id },
        },
    }
}

impl From<StartCapturePayload> for CaptureOptions {
    fn from(payload: StartCapturePayload) -> (r: Self)
        ensures
            r == spec_options_of_payload(payload),
    {
        CaptureOptions {
            chunk_duration_ms: payload.chunk_duration_ms,
            capture_mic: payload.capture_mic,
            debug_save: payload.debug_save,
            target: payload.target.into_target(),
        }
    }
}

impl vstd::std_specs::convert::FromSpecImpl<StartCapturePayload> for CaptureOptions {
    open spec fn obeys_from_spec() -> bool {
        true
    }

    open spec fn from_spec(payload: StartCapturePayload) -> Self {
        spec_options_of_payload(payload)
    }
}

} // verus!
