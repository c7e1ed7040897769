//! The widget window's state: the created window's handle as a plain
//! value, and the positioning and z-order commands the driver executes.

use vstd::prelude::*;
use vstd::string::StringExecFns;

verus! {

/// A positioning command for the driver: where to put which window.
#[derive(Debug, Clone, Copy, PartialEq, Eq, Structural)]
pub struct PositionCommand {
    pub hwnd: u64,
    pub x: i32,
    pub y: i32,
    pub width: u32,
    pub height: u32,
}

/// The window manager: the created widget window's handle, when one
/// exists.
#[derive(Debug)]
pub struct WindowManager {
    pub window: Option<u64>,
}

impl WindowManager {
    /// No window yet.
    pub fn new() -> (r: Self)
        ensures
            r.window is None,
    {
        WindowManager { window: None }
    }

    /// Takes over what the driver's window creation produced: a handle is
    /// stored; a failed creation changes nothing.
    pub fn create_window(&mut self, created: Option<u64>) -> (r: Result<(), String>)
        ensures
            created matches Some(h) ==> (final(self).window == Some(h) && r is Ok),
            created is None ==> (*final(self) == *old(self) && r is Err),
    {
        match created {
            Some(h) => {
                self.window = Some(h);
                Ok(())
            },
            None => Err(String::from_str("window creation failed")),
        }
    }

    /// The stored window handle, when one exists.
    pub fn get_window(&self) -> (r: Option<u64>)
        ensures
            r == self.window,
    {
        self.window
    }

    /// The positioning command for the stored window; without one the
    /// request fails.
    pub fn set_position(&self, x: i32, y: i32, width: u32, height: u32) -> (r: Result<PositionCommand, String>)
        ensures
            self.window matches Some(h) ==> r == Ok::<PositionCommand, String>(
                PositionCommand { hwnd: h, x, y, width, height },
            ),
            self.window is None ==> r is Err,
    {
        match self.window {
            Some(hwnd) => Ok(PositionCommand { hwnd, x, y, width, height }),
            None => Err(String::from_str("window not created")),
        }
    }

    /// The window the driver must raise to the top, when one exists.
    pub fn ensure_topmost(&self) -> (r: Option<u64>)
        ensures
            r == self.window,
    {
        self.window
    }

    /// The stored window's native handle, when one exists.
    pub fn get_hwnd(&self) -> (r: Option<u64>)
        ensures
            r == self.window,
    {
        self.window
    }
}

impl Default for WindowManager {
    /// The manager before any window exists.
    fn default() -> (r: Self)
        ensures
            r.window is None,
    {
        WindowManager::new()
    }
}

} // verus!
