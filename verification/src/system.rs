//! The taskbar-side system state: window handles and rectangles as plain
//! values, and the decisions made over them. The shell queries themselves
//! are the driver's; it hands their results in and this state is verified
//! over every possible answer.

use vstd::prelude::*;
use vstd::string::StringExecFns;

use crate::strutil::{find_from, find_sub, str_chars};

verus! {

/// A screen-space rectangle, as the shell reports window bounds.
#[derive(Debug, Clone, Copy, PartialEq, Eq, Structural)]
pub struct Rect {
    pub left: i32,
    pub top: i32,
    pub right: i32,
    pub bottom: i32,
}

impl Default for Rect {
    /// The empty rectangle at the origin.
    fn default() -> (r: Self)
        ensures
            r.left == 0 && r.top == 0 && r.right == 0 && r.bottom == 0,
    {
        Rect { left: 0, top: 0, right: 0, bottom: 0 }
    }
}

/// Whether `pat` occurs somewhere in `s`.
pub open spec fn contains_sub(s: Seq<char>, pat: Seq<char>) -> bool {
    find_from(s, pat, 0) is Some
}

/// A window class name that belongs to the taskbar or its notify area.
pub open spec fn is_taskbar_class(s: Seq<char>) -> bool {
    ||| contains_sub(s, "Shell_TrayWnd"@)
    ||| contains_sub(s, "TrayNotifyWnd"@)
    ||| contains_sub(s, "TrayClockWClass"@)
    ||| contains_sub(s, "SysPager"@)
    ||| contains_sub(s, "ToolbarWindow32"@)
    ||| contains_sub(s, "NotifyIconOverflowWindow"@)
    ||| contains_sub(s, "TopLevelWindowForOverflowXamlIsland"@)
}

/// The system manager: the taskbar's handle and bounds and the installed
/// event hook, each a plain value; zero stands for no handle.
#[derive(Debug)]
pub struct SystemManager {
    pub taskbar_hwnd: u64,
    pub taskbar_rect: Rect,
    pub event_hook: u64,
}

impl SystemManager {
    /// No taskbar found yet, no hook installed.
    pub fn new() -> (r: Self)
        ensures
            r.taskbar_hwnd == 0,
            r.taskbar_rect == Rect::spec_zero(),
            r.event_hook == 0,
    {
        SystemManager { taskbar_hwnd: 0, taskbar_rect: Rect::default(), event_hook: 0 }
    }

    /// Takes over what the driver's taskbar lookup found: a handle and
    /// bounds are stored and handed back; a failed lookup changes nothing.
    pub fn find_taskbar_handle(&mut self, found: Option<(u64, Rect)>) -> (r: Result<u64, String>)
        ensures
            found matches Some(f) ==> {
                &&& final(self).taskbar_hwnd == f.0
                &&& final(self).taskbar_rect == f.1
                &&& final(self).event_hook == old(self).event_hook
                &&& r == Ok::<u64, String>(f.0)
            },
            found is None ==> (*final(self) == *old(self) && r is Err),
    {
        match found {
            Some((hwnd, rect)) => {
                self.taskbar_hwnd = hwnd;
                self.taskbar_rect = rect;
                Ok(hwnd)
            },
            None => Err(String::from_str("taskbar window not found")),
        }
    }

    /// The stored taskbar's height; zero when the bounds are inverted.
    pub fn get_taskbar_height(&self) -> (r: u32)
        ensures
            r == if self.taskbar_rect.bottom >= self.taskbar_rect.top {
                self.taskbar_rect.bottom - self.taskbar_rect.top
            } else {
                0
            },
    {
        let bottom = self.taskbar_rect.bottom as i64;
        let top = self.taskbar_rect.top as i64;
        if bottom >= top {
            (bottom - top) as u32
        } else {
            0
        }
    }

    /// The stored taskbar bounds.
    pub fn get_taskbar_rect(&self) -> (r: Rect)
        ensures
            r == self.taskbar_rect,
    {
        self.taskbar_rect
    }

    /// The notify area's bounds as the driver queried them; the empty
    /// rectangle when the query found nothing.
    pub fn get_notify_area_rect(&self, queried: Option<Rect>) -> (r: Rect)
        ensures
            r == match queried {
                Some(q) => q,
                None => Rect::spec_zero(),
            },
    {
        match queried {
            Some(q) => q,
            None => Rect::default(),
        }
    }

    /// Takes over the event hook the driver installed; a zero handle means
    /// installation failed and changes nothing.
    pub fn setup_event_hook(&mut self, hook: u64) -> (r: Result<(), String>)
        ensures
            hook != 0 ==> (final(self).event_hook == hook
                && final(self).taskbar_hwnd == old(self).taskbar_hwnd
                && final(self).taskbar_rect == old(self).taskbar_rect
                && r is Ok),
            hook == 0 ==> (*final(self) == *old(self) && r is Err),
    {
        if hook != 0 {
            self.event_hook = hook;
            Ok(())
        } else {
            Err(String::from_str("failed to install event hook"))
        }
    }

    /// Whether a window with this class name belongs to the taskbar: its
    /// class contains one of the shell's taskbar class names. A window
    /// whose class could not be read has the empty name and never matches.
    pub fn is_taskbar_related_window(&self, class_name: &str) -> (r: bool)
        ensures
            r == is_taskbar_class(class_name@),
    {
        let chars = str_chars(class_name);
        contains_pattern(&chars, "Shell_TrayWnd")
            || contains_pattern(&chars, "TrayNotifyWnd")
            || contains_pattern(&chars, "TrayClockWClass")
            || contains_pattern(&chars, "SysPager")
            || contains_pattern(&chars, "ToolbarWindow32")
            || contains_pattern(&chars, "NotifyIconOverflowWindow")
            || contains_pattern(&chars, "TopLevelWindowForOverflowXamlIsland")
    }

    /// Forgets the event hook; the driver uninstalls it.
    pub fn cleanup(&mut self)
        ensures
            final(self).event_hook == 0,
            final(self).taskbar_hwnd == old(self).taskbar_hwnd,
            final(self).taskbar_rect == old(self).taskbar_rect,
    {
        self.event_hook = 0;
    }
}

impl Rect {
    /// The empty rectangle at the origin.
    pub open spec fn spec_zero() -> Rect {
        Rect { left: 0, top: 0, right: 0, bottom: 0 }
    }
}

impl Default for SystemManager {
    /// The manager before any lookup.
    fn default() -> (r: Self)
        ensures
            r.taskbar_hwnd == 0,
            r.event_hook == 0,
    {
        SystemManager::new()
    }
}

/// Whether the pattern occurs in the characters.
fn contains_pattern(s: &Vec<char>, pat: &str) -> (r: bool)
    ensures
        r == contains_sub(s@, pat@),
{
    let pc = str_chars(pat);
    match find_sub(s, &pc, 0) {
        Some(_) => true,
        None => false,
    }
}

} // verus!
