use vstd::prelude::*;
use crate::text::{decimal, decimal_u64, encode_utf16, utf16};

verus! {

pub const WM_DESTROY: u32 = 0x0002;
pub const WM_CLOSE: u32 = 0x0010;
pub const WM_CONTEXTMENU: u32 = 0x007B;
pub const WM_NCHITTEST: u32 = 0x0084;
pub const WM_RBUTTONUP: u32 = 0x0205;
pub const WM_HOTKEY: u32 = 0x0312;
pub const WM_APP: u32 = 0x8000;
/// The message the tray icon sends to its window.
pub const WM_TRAY: u32 = 0x8001;
/// The message that asks the tray window to show its menu.
pub const WM_SHOW_MENU: u32 = 0x8002;
/// The identifier of the global hotkey (Ctrl+Alt+W) that opens the video picker.
pub const HOTKEY_ID: usize = 1;
/// The hit-test answer that lets clicks through to the window below.
pub const HTTRANSPARENT: isize = -1;

/// Room for text, in UTF-16 units without the terminating NUL, in the tray tip, in
/// a balloon's title and in a balloon's text.
pub const TIP_UNITS: usize = 127;
pub const INFO_TITLE_UNITS: usize = 63;
pub const INFO_UNITS: usize = 255;

/// What the tray's message loop does with a message.
#[derive(PartialEq, Eq, Structural, Clone, Copy, Debug)]
pub enum TrayMessage {
    /// Show the tray menu.
    ShowMenu,
    /// Open the video picker.
    PickVideo,
    /// Drop the message.
    Ignore,
    /// Translate and dispatch the message as usual.
    Dispatch,
}

/// The tray loop's rule: the hotkey opens the video picker; the show-menu request
/// opens the menu; a
/// message from the tray icon opens it on a right click or a context-menu request and
/// is otherwise dropped; every other message is dispatched.
pub open spec fn tray_message_spec(message: u32, wparam: usize, lparam_low: u32, for_tray_window: bool) -> TrayMessage {
    if message == WM_HOTKEY && wparam == HOTKEY_ID {
        TrayMessage::PickVideo
    } else if message == WM_SHOW_MENU && for_tray_window {
        TrayMessage::ShowMenu
    } else if message == WM_TRAY && for_tray_window {
        if lparam_low == WM_RBUTTONUP || lparam_low == WM_CONTEXTMENU {
            TrayMessage::ShowMenu
        } else {
            TrayMessage::Ignore
        }
    } else {
        TrayMessage::Dispatch
    }
}

/// What the tray's message loop does with a message (`lparam_low` is the low 32 bits
/// of its second parameter, which for the tray icon names the mouse event).
pub fn classify_tray_message(message: u32, wparam: usize, lparam_low: u32, for_tray_window: bool) -> (r: TrayMessage)
    ensures
        r == tray_message_spec(message, wparam, lparam_low, for_tray_window),
{
    if message == WM_HOTKEY && wparam == HOTKEY_ID {
        TrayMessage::PickVideo
    } else if message == WM_SHOW_MENU && for_tray_window {
        TrayMessage::ShowMenu
    } else if message == WM_TRAY && for_tray_window {
        if lparam_low == WM_RBUTTONUP || lparam_low == WM_CONTEXTMENU {
            TrayMessage::ShowMenu
        } else {
            TrayMessage::Ignore
        }
    } else {
        TrayMessage::Dispatch
    }
}

/// What the tray window's procedure does with a message.
#[derive(PartialEq, Eq, Structural, Clone, Copy, Debug)]
pub enum TrayWindowAction {
    /// End the message loop (the window was destroyed).
    EndLoop,
    /// Destroy the window (it was asked to close).
    Destroy,
    /// Leave the message to the default procedure.
    Default,
}

/// What the tray window's procedure does with a message.
pub fn tray_window_action(message: u32) -> (r: TrayWindowAction)
    ensures
        message == WM_DESTROY ==> r == TrayWindowAction::EndLoop,
        message == WM_CLOSE ==> r == TrayWindowAction::Destroy,
        message != WM_DESTROY && message != WM_CLOSE ==> r == TrayWindowAction::Default,
{
    if message == WM_DESTROY {
        TrayWindowAction::EndLoop
    } else if message == WM_CLOSE {
        TrayWindowAction::Destroy
    } else {
        TrayWindowAction::Default
    }
}

/// What a wallpaper surface's procedure does with a message.
#[derive(PartialEq, Eq, Structural, Clone, Copy, Debug)]
pub enum SurfaceAction {
    /// Record that the surface is gone, then leave the message to the default procedure.
    MarkDestroyed,
    /// Answer the hit test with "transparent", so clicks reach the desktop.
    Transparent,
    /// Leave the message to the default procedure.
    Default,
}

/// What a wallpaper surface's procedure does with a message: clicks pass through
/// only while click-through is on.
pub fn surface_window_action(message: u32, click_through: bool) -> (r: SurfaceAction)
    ensures
        message == WM_DESTROY ==> r == SurfaceAction::MarkDestroyed,
        message == WM_NCHITTEST && click_through ==> r == SurfaceAction::Transparent,
        message != WM_DESTROY && !(message == WM_NCHITTEST && click_through) ==> r == SurfaceAction::Default,
{
    if message == WM_DESTROY {
        SurfaceAction::MarkDestroyed
    } else if message == WM_NCHITTEST && click_through {
        SurfaceAction::Transparent
    } else {
        SurfaceAction::Default
    }
}

/// Whether a low-level mouse event is a right-button release that the hook should
/// look at (the hook code is not negative).
pub fn right_button_released(code: i32, message: u32) -> (r: bool)
    ensures
        r == (code >= 0 && message == WM_RBUTTONUP),
{
    code >= 0 && message == WM_RBUTTONUP
}

/// The first `max` units of an encoding (all of it where it is shorter), then a NUL.
pub open spec fn truncated_units(units: Seq<u16>, max: nat) -> Seq<u16> {
    units.take(if units.len() < max { units.len() as int } else { max as int }).push(0u16)
}

/// A text for a fixed-size UTF-16 field: its first `max` units, then a NUL.
pub fn truncated_utf16(s: &str, max: usize) -> (r: Vec<u16>)
    ensures
        r@ == truncated_units(utf16(s@), max as nat),
{
    let units = encode_utf16(s);
    let n = if units.len() < max { units.len() } else { max };
    let mut out: Vec<u16> = Vec::new();
    let mut i: usize = 0;
    while i < n
        invariant
            i <= n,
            n <= units@.len(),
            out@ == units@.take(i as int),
        decreases n - i,
    {
        out.push(units[i]);
        proof {
            assert(units@.take(i + 1) =~= units@.take(i as int).push(units@[i as int]));
        }
        i += 1;
    }
    out.push(0);
    assert(out@ =~= truncated_units(utf16(s@), max as nat));
    out
}

/// A text as a NUL-terminated UTF-16 string.
pub fn wide(s: &str) -> (r: Vec<u16>)
    ensures
        r@ == utf16(s@).push(0u16),
{
    let mut units = encode_utf16(s);
    units.push(0);
    units
}

/// A line of the log file: the time in seconds since the Unix epoch in brackets,
/// the message, and a Windows line ending.
pub open spec fn log_line_spec(now: nat, msg: Seq<char>) -> Seq<char> {
    "["@ + decimal(now) + "] "@ + msg + "\r\n"@
}

/// A line of the log file.
pub fn log_line(now: u64, msg: &str) -> (r: String)
    ensures
        r@ == log_line_spec(now as nat, msg@),
{
    let digits = decimal_u64(now);
    String::from_str("[").concat(digits.as_str()).concat("] ").concat(msg).concat("\r\n")
}

} // verus!
