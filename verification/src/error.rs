//! Errors the capture core surfaces to its callers.
//!
//! Session-conflict errors are recoverable and never alter existing session
//! state; capability and activation errors are fatal for the attempted start
//! and always fully rolled back. Teardown and per-chunk delivery failures are
//! absorbed by design and never appear here.

use vstd::prelude::*;

use crate::chunk::StreamKind;
use vstd::string::StringExecFns;

verus! {

/// A failure reported by the capture manager's command surface.
#[derive(Debug, Clone)]
pub enum CaptureError {
    /// A start was requested while a session is live.
    AlreadyActive,
    /// A configuration change was requested while a session is live.
    CaptureActive,
    /// The media framework cannot supply a required processing stage; the
    /// named element is the missing capability.
    MissingCapability { element: String },
    /// A constructed pipeline refused to reach its actively-producing state.
    PipelineStartFailed { stream: StreamKind, detail: String },
}

/// The error reported when a required media-framework element is absent on
/// the host platform: fatal for the attempted start, not retryable.
pub fn missing_element(name: &str) -> (r: CaptureError)
    ensures
        r matches CaptureError::MissingCapability { element } && element@ == name@,
{
    CaptureError::MissingCapability { element: name.to_owned() }
}

impl CaptureError {
    /// A human-readable description of the failure.
    pub fn message(&self) -> (r: String)
        ensures
            self is AlreadyActive ==> r@ == "capture already running"@,
            self is CaptureActive ==> r@ == "stop capture before updating options"@,
            self matches CaptureError::MissingCapability { element } ==> r@
                == "missing media framework element '"@ + element@
                + "': ensure required plugins are installed"@,
            self matches CaptureError::PipelineStartFailed { stream, detail } ==> r@
                == "failed to start "@ + stream.label_seq() + " pipeline: "@ + detail@,
    {
        match self {
            CaptureError::AlreadyActive => "capture already running".to_owned(),
            CaptureError::CaptureActive => "stop capture before updating options".to_owned(),
            CaptureError::MissingCapability { element } => {
                let mut s = "missing media framework element '".to_owned();
                s.append(element.as_str());
                s.append("': ensure required plugins are installed");
                s
            },
            CaptureError::PipelineStartFailed { stream, detail } => {
                let mut s = "failed to start ".to_owned();
                s.append(stream.label());
                s.append(" pipeline: ");
                s.append(detail.as_str());
                s
            },
        }
    }
}

} // verus!
