//! The recording task's decisions: when the audio loop stops and when a frame is
//! sent on as a preview.
use vstd::prelude::*;

verus! {

/// The least time between two previews, in milliseconds.
pub const PREVIEW_INTERVAL_MS: u64 = 250;

/// A recording to make: an optional length limit in seconds, the output file and
/// the title.
pub struct RecordingTask {
    pub duration_limit: Option<u64>,
    pub output_path: String,
    pub title: String,
}

impl RecordingTask {
    /// The audio loop stops once a stop was requested or the length limit, if
    /// any, has been reached.
    pub fn should_stop(&self, stop_requested: bool, elapsed_secs: u64) -> (stop: bool)
        ensures
            stop == (stop_requested || (self.duration_limit matches Some(l) && elapsed_secs >= l)),
    {
        if stop_requested {
            return true;
        }
        match self.duration_limit {
            Some(l) => elapsed_secs >= l,
            None => false,
        }
    }
}

/// Sends a frame on as a preview at most every quarter second of capture time.
pub struct PreviewThrottle {
    /// Capture time of the last preview, in milliseconds.
    pub last_preview_ms: u64,
}

impl PreviewThrottle {
    /// No preview sent yet.
    pub fn new() -> (t: Self)
        ensures
            t.last_preview_ms == 0,
    {
        PreviewThrottle { last_preview_ms: 0 }
    }

    /// Whether the frame captured at `timestamp_ms` becomes a preview: when at
    /// least the interval has passed since the last one (an earlier timestamp
    /// counts as no time passed). A preview becomes the new last one.
    pub fn offer(&mut self, timestamp_ms: u64) -> (due: bool)
        ensures
            due == (timestamp_ms >= old(self).last_preview_ms
                && timestamp_ms - old(self).last_preview_ms >= PREVIEW_INTERVAL_MS),
            final(self).last_preview_ms == if due { timestamp_ms } else { old(self).last_preview_ms },
    {
        let due = timestamp_ms.saturating_sub(self.last_preview_ms) >= PREVIEW_INTERVAL_MS;
        if due {
            self.last_preview_ms = timestamp_ms;
        }
        due
    }
}

} // verus!
