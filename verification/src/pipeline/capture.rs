//! Capture configuration and frames: screen, audio source, input tracking, webcam.
use vstd::prelude::*;
use std::sync::Arc;

verus! {

/// A captured frame of raw pixels.
pub struct VideoFrame {
    /// Frame width in pixels.
    pub width: u32,
    /// Frame height in pixels.
    pub height: u32,
    /// Raw pixel data (width * height * 4 bytes).
    pub data: Arc<Vec<u8>>,
    /// Milliseconds since recording start.
    pub timestamp_ms: u64,
    /// Frame index (0-based) within the session.
    pub index: u64,
}

/// Configuration for screen capture.
pub struct CaptureConfig {
    /// Target frames per second (1 – 60).
    pub fps: u32,
    /// Optional window title to capture (None = full primary display).
    pub window_title: Option<String>,
    /// Capture region (x, y, w, h) in logical pixels. None = full display.
    pub region: Option<(i32, i32, u32, u32)>,
    /// Include the cursor in the capture.
    pub include_cursor: bool,
    /// Gaming mode: forces 60 fps.
    pub gaming_mode: bool,
}

impl Default for CaptureConfig {
    /// 30 fps of the whole primary display with the cursor, gaming mode off.
    fn default() -> (c: Self)
        ensures
            c.fps == 30,
            c.window_title is None,
            c.region is None,
            c.include_cursor,
            !c.gaming_mode,
    {
        CaptureConfig { fps: 30, window_title: None, region: None, include_cursor: true, gaming_mode: false }
    }
}

/// Screen capture could not start.
#[derive(Debug, Clone, Copy, PartialEq, Eq, Structural)]
pub enum CaptureError {
    /// No monitor to capture.
    NoMonitors,
}

/// The platform capture backend's settings.
pub struct PlatformCapture {
    pub config: CaptureConfig,
}

impl PlatformCapture {
    /// Prepares capture for `config` given the number of monitors found: refused
    /// without monitors; in gaming mode the frame rate is forced to 60.
    pub fn new(config: &CaptureConfig, monitor_count: usize) -> (r: Result<PlatformCapture, CaptureError>)
        ensures
            monitor_count == 0 ==> r == Err::<PlatformCapture, CaptureError>(CaptureError::NoMonitors),
            monitor_count > 0 ==> (r matches Ok(p) && {
                &&& p.config.fps == if config.gaming_mode { 60 } else { config.fps }
                &&& p.config.window_title == config.window_title
                &&& p.config.region == config.region
                &&& p.config.include_cursor == config.include_cursor
                &&& p.config.gaming_mode == config.gaming_mode
            }),
    {
        if monitor_count == 0 {
            return Err(CaptureError::NoMonitors);
        }
        let window_title = match &config.window_title {
            Some(t) => Some(t.clone()),
            None => None,
        };
        let fps = if config.gaming_mode { 60 } else { config.fps };
        Ok(PlatformCapture {
            config: CaptureConfig {
                fps,
                window_title,
                region: config.region,
                include_cursor: config.include_cursor,
                gaming_mode: config.gaming_mode,
            },
        })
    }
}

/// Where audio originated.
#[derive(Debug, Clone, Copy, PartialEq, Eq, Structural)]
pub enum AudioSource {
    /// System loopback (what the speakers are playing).
    SystemLoopback,
    /// Microphone input.
    Microphone,
    /// Mixed output (system + mic).
    Mixed,
}

/// Mouse buttons recorded by the input tracker.
#[derive(Debug, Clone, Copy, PartialEq, Eq, Structural)]
pub enum MouseButton {
    Left,
    Right,
    Middle,
}

/// Configuration for input tracking.
pub struct InputTrackerConfig {
    pub enabled: bool,
    /// Store absolute mouse coordinates.
    pub capture_mouse_position: bool,
}

impl Default for InputTrackerConfig {
    /// Tracking on, mouse positions recorded.
    fn default() -> (c: Self)
        ensures
            c.enabled,
            c.capture_mouse_position,
    {
        InputTrackerConfig { enabled: true, capture_mouse_position: true }
    }
}

/// Where the webcam overlay is drawn.
#[derive(Debug, Clone, Copy, PartialEq, Eq, Structural)]
pub enum PipPosition {
    BottomRight,
    BottomLeft,
    TopRight,
    TopLeft,
    /// Fullscreen webcam (no screen content).
    Fullscreen,
}

impl Default for PipPosition {
    /// Bottom right.
    fn default() -> (p: Self)
        ensures
            p == PipPosition::BottomRight,
    {
        PipPosition::BottomRight
    }
}

/// Background treatment for the webcam feed.
pub enum BackgroundMode {
    /// The raw webcam feed.
    Off,
    /// Blur behind the subject.
    Blur { radius: u8 },
    /// Replace the background with a solid colour.
    SolidColour { r: u8, g: u8, b: u8 },
    /// Replace the background with an image file.
    Image { path: String },
}

impl Default for BackgroundMode {
    /// The raw feed.
    fn default() -> (m: Self)
        ensures
            m is Off,
    {
        BackgroundMode::Off
    }
}

/// A single webcam frame.
pub struct WebcamFrame {
    pub width: u32,
    pub height: u32,
    pub data: Vec<u8>,
    pub timestamp_ms: u64,
}

} // verus!
