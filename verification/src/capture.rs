//! Screen capture capability interface and its per-platform backends. The
//! backends here carry configuration state only; the platform capture calls
//! themselves belong to the process around the library, which selects one
//! backend for the host platform at start.

use vstd::prelude::*;

verus! {

use crate::Error;
use vstd::string::StringExecFns;

/// A captured frame of raw RGBA pixel data.
#[derive(Debug, Clone)]
pub struct CapturedFrame {
    /// Raw pixel data (RGBA).
    pub data: Vec<u8>,
    /// Frame width in pixels.
    pub width: u32,
    /// Frame height in pixels.
    pub height: u32,
    /// Timestamp in microseconds.
    pub timestamp: u64,
}

/// Screen capture configuration.
#[derive(Debug, Clone, Copy, PartialEq, Eq, Structural)]
pub struct CaptureConfig {
    /// Target monitor index (0 = primary).
    pub monitor_index: usize,
    /// Capture frame rate.
    pub fps: u32,
    /// Whether to capture the cursor.
    pub capture_cursor: bool,
}

impl Default for CaptureConfig {
    /// Primary monitor, 30 frames per second, cursor captured.
    fn default() -> (r: Self)
        ensures
            r.monitor_index == 0,
            r.fps == 30,
            r.capture_cursor,
    {
        CaptureConfig { monitor_index: 0, fps: 30, capture_cursor: true }
    }
}

/// Capability interface for screen capture implementations.
pub trait ScreenCapture: Send + Sync {
    /// Initialize the capture system.
    fn init(&mut self, config: CaptureConfig) -> Result<(), Error>;

    /// Capture the next frame.
    fn capture_frame(&mut self) -> Result<CapturedFrame, Error>;

    /// List the available monitors.
    fn list_monitors(&self) -> Result<Vec<MonitorInfo>, Error>;

    /// Release resources.
    fn cleanup(&mut self) -> Result<(), Error>;
}

/// Information about one monitor.
#[derive(Debug, Clone)]
pub struct MonitorInfo {
    pub index: usize,
    pub name: String,
    pub width: u32,
    pub height: u32,
    pub is_primary: bool,
}

/// Create the screen capture backend. Platform selection belongs to the
/// embedding process; the X11 backend stands in as the portable default.
pub fn create_capturer() -> (r: Result<Box<dyn ScreenCapture>, Error>)
    ensures
        r is Ok,
{
    match X11Capturer::new() {
        Ok(c) => Ok(Box::new(c)),
        Err(e) => Err(e),
    }
}

/// Capture backend for X11 displays.
pub struct X11Capturer {
    pub config: Option<CaptureConfig>,
}

impl X11Capturer {
    /// A fresh, uninitialized backend.
    pub fn new() -> (r: Result<X11Capturer, Error>)
        ensures
            r matches Ok(c) && c.config is None,
    {
        Ok(X11Capturer { config: None })
    }
}

impl ScreenCapture for X11Capturer {
    fn init(&mut self, config: CaptureConfig) -> Result<(), Error> {
        self.config = Some(config);
        Ok(())
    }

    fn capture_frame(&mut self) -> Result<CapturedFrame, Error> {
        Err(Error::Session(String::from_str("X11 capture requires a platform backend")))
    }

    fn list_monitors(&self) -> Result<Vec<MonitorInfo>, Error> {
        let mut monitors: Vec<MonitorInfo> = Vec::new();
        monitors.push(
            MonitorInfo {
                index: 0,
                name: String::from_str("Primary Display"),
                width: 1920,
                height: 1080,
                is_primary: true,
            },
        );
        Ok(monitors)
    }

    fn cleanup(&mut self) -> Result<(), Error> {
        Ok(())
    }
}

/// Capture backend for the DXGI desktop duplication interface.
pub struct DxgiCapturer {
    pub config: Option<CaptureConfig>,
}

impl DxgiCapturer {
    /// A fresh, uninitialized backend.
    pub fn new() -> (r: Result<DxgiCapturer, Error>)
        ensures
            r matches Ok(c) && c.config is None,
    {
        Ok(DxgiCapturer { config: None })
    }
}

impl ScreenCapture for DxgiCapturer {
    fn init(&mut self, config: CaptureConfig) -> Result<(), Error> {
        self.config = Some(config);
        Ok(())
    }

    fn capture_frame(&mut self) -> Result<CapturedFrame, Error> {
        Err(Error::Session(String::from_str("DXGI capture requires a platform backend")))
    }

    fn list_monitors(&self) -> Result<Vec<MonitorInfo>, Error> {
        let mut monitors: Vec<MonitorInfo> = Vec::new();
        monitors.push(
            MonitorInfo {
                index: 0,
                name: String::from_str("Primary Display"),
                width: 1920,
                height: 1080,
                is_primary: true,
            },
        );
        Ok(monitors)
    }

    fn cleanup(&mut self) -> Result<(), Error> {
        Ok(())
    }
}

/// Capture backend for the CoreGraphics display stream.
pub struct CoreGraphicsCapturer {
    pub config: Option<CaptureConfig>,
}

impl CoreGraphicsCapturer {
    /// A fresh, uninitialized backend.
    pub fn new() -> (r: Result<CoreGraphicsCapturer, Error>)
        ensures
            r matches Ok(c) && c.config is None,
    {
        Ok(CoreGraphicsCapturer { config: None })
    }
}

impl ScreenCapture for CoreGraphicsCapturer {
    fn init(&mut self, config: CaptureConfig) -> Result<(), Error> {
        self.config = Some(config);
        Ok(())
    }

    fn capture_frame(&mut self) -> Result<CapturedFrame, Error> {
        Err(Error::Session(String::from_str("CoreGraphics capture requires a platform backend")))
    }

    fn list_monitors(&self) -> Result<Vec<MonitorInfo>, Error> {
        let mut monitors: Vec<MonitorInfo> = Vec::new();
        monitors.push(
            MonitorInfo {
                index: 0,
                name: String::from_str("Primary Display"),
                width: 1920,
                height: 1080,
                is_primary: true,
            },
        );
        Ok(monitors)
    }

    fn cleanup(&mut self) -> Result<(), Error> {
        Ok(())
    }
}

} // verus!
