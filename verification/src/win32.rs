//! Decisions of the Windows front end: what the low-level keyboard hook does
//! with a key event, what the tray window does with a message, which key
//! strokes are injected, the tooltip buffer and context menu of the tray
//! icon, and the start-at-login value in the registry.
//!
//! The numeric codes are those of the Win32 API.

use vstd::prelude::*;
use vstd::string::StringExecFns;
use crate::thread_modes::{korean_in, after_escape, escape_sends, NO_THREAD};

verus! {

/// Virtual-key code of the Hangul (Korean/English) key.
pub const VK_HANGUL: u16 = 0x15;
/// Virtual-key code of the Escape key.
pub const VK_ESCAPE: u16 = 0x1B;
/// Message posted for a key press without Alt.
pub const WM_KEYDOWN: u32 = 0x0100;
/// Message posted for a key press with Alt held, or of F10.
pub const WM_SYSKEYDOWN: u32 = 0x0104;
/// First message number free for application use.
pub const WM_USER: u32 = 0x0400;
/// Message sent when a menu item is chosen.
pub const WM_COMMAND: u32 = 0x0111;
/// Message sent when a window is being destroyed.
pub const WM_DESTROY: u32 = 0x0002;
/// Mouse event: left button released.
pub const WM_LBUTTONUP: u32 = 0x0202;
/// Mouse event: right button released.
pub const WM_RBUTTONUP: u32 = 0x0205;
/// Flag of a low-level keyboard event that was injected rather than typed.
pub const LLKHF_INJECTED: u32 = 0x10;
/// Callback message through which the tray icon reports mouse events.
pub const WM_TRAYICON: u32 = WM_USER + 1;
/// Command id of the "exit" menu item.
pub const IDM_EXIT: u32 = 1001;
/// Command id of the "start at login" menu item.
pub const IDM_AUTOSTART: u32 = 1002;
/// Id of the tray icon within its window.
pub const TRAY_UID: u32 = 1;
/// Number of UTF-16 units in the tooltip buffer of a tray icon.
pub const TIP_CAPACITY: usize = 128;

/// What the keyboard hook does with one event, besides passing it on.
#[derive(PartialEq, Eq, Structural, Clone, Copy, Debug)]
pub enum HookEffect {
    /// Nothing.
    Nothing,
    /// The user pressed the Hangul key: flip the mode of the foreground thread.
    ToggleForeground,
    /// Escape went down: wake the worker that switches back to English.
    SignalEscape,
}

/// Whether a hook call reports a key going down: a non-negative hook code and
/// a key-down message (with or without Alt).
pub open spec fn is_key_down(code: i32, msg: u32) -> bool {
    code >= 0 && (msg == WM_KEYDOWN || msg == WM_SYSKEYDOWN)
}

/// Whether the event flags mark an injected event.
pub open spec fn is_injected(flags: u32) -> bool {
    flags & LLKHF_INJECTED != 0
}

/// The effect of a low-level keyboard hook call with hook code `code`,
/// message `wparam` (read as a 32-bit message number), virtual-key code `vk`
/// and event flags `flags`. Hangul presses injected by this program itself are
/// not counted as user presses.
pub open spec fn hook_effect(code: i32, wparam: usize, vk: u32, flags: u32) -> HookEffect {
    if !is_key_down(code, wparam as u32) {
        HookEffect::Nothing
    } else if vk == VK_HANGUL as u32 && !is_injected(flags) {
        HookEffect::ToggleForeground
    } else if vk == VK_ESCAPE as u32 {
        HookEffect::SignalEscape
    } else {
        HookEffect::Nothing
    }
}

/// Decides what the low-level keyboard hook does with one event. The event is
/// passed on to the next hook in every case.
pub fn classify_key_event(code: i32, wparam: usize, vk: u32, flags: u32) -> (r: HookEffect)
    ensures
        r == hook_effect(code, wparam, vk, flags),
{
    #[verifier::truncate]
    let msg: u32 = wparam as u32;
    if code >= 0 && (msg == WM_KEYDOWN || msg == WM_SYSKEYDOWN) {
        let injected = (flags & LLKHF_INJECTED) != 0;
        if !injected && vk == VK_HANGUL as u32 {
            return HookEffect::ToggleForeground;
        }
        if vk == VK_ESCAPE as u32 {
            return HookEffect::SignalEscape;
        }
    }
    HookEffect::Nothing
}

/// What the tray window does with a message.
#[derive(PartialEq, Eq, Structural, Clone, Copy, Debug)]
pub enum WindowAction {
    /// Show the context menu at the cursor, then return 0.
    ShowMenu,
    /// Return 0 without doing anything.
    Handled,
    /// Remove the tray icon, post the quit message, then return 0.
    Quit,
    /// Flip start at login (see `autostart_change`), then return 0.
    ToggleAutostart,
    /// Hand the message to the default window procedure.
    Default,
}

/// The low 16 bits of a 32-bit value.
pub open spec fn low_word(x: u32) -> u32 {
    x % 0x10000
}

/// What the tray window does with message `msg` and parameters
/// `wparam`, `lparam` (each read as 32 bits).
pub open spec fn window_action(msg: u32, wparam: usize, lparam: isize) -> WindowAction {
    if msg == WM_TRAYICON {
        let event: u32 = low_word(lparam as u32);
        if event == WM_RBUTTONUP || event == WM_LBUTTONUP {
            WindowAction::ShowMenu
        } else {
            WindowAction::Handled
        }
    } else if msg == WM_COMMAND {
        if low_word(wparam as u32) == IDM_EXIT {
            WindowAction::Quit
        } else if low_word(wparam as u32) == IDM_AUTOSTART {
            WindowAction::ToggleAutostart
        } else {
            WindowAction::Handled
        }
    } else if msg == WM_DESTROY {
        WindowAction::Quit
    } else {
        WindowAction::Default
    }
}

/// Decides what the tray window procedure does with a message: a click on
/// the tray icon (either button, on release) opens the menu, the exit command
/// or the destruction of the window quits, the start-at-login command flips
/// start at login, anything else goes to the default procedure.
pub fn window_message_action(msg: u32, wparam: usize, lparam: isize) -> (r: WindowAction)
    ensures
        r == window_action(msg, wparam, lparam),
{
    if msg == WM_TRAYICON {
        #[verifier::truncate]
        let lp: u32 = lparam as u32;
        let event: u32 = lp & 0xFFFF;
        assert(lp & 0xFFFF == lp % 0x10000) by (bit_vector);
        if event == WM_RBUTTONUP || event == WM_LBUTTONUP {
            return WindowAction::ShowMenu;
        }
        return WindowAction::Handled;
    }
    if msg == WM_COMMAND {
        #[verifier::truncate]
        let wp: u32 = wparam as u32;
        let id: u32 = wp & 0xFFFF;
        assert(wp & 0xFFFF == wp % 0x10000) by (bit_vector);
        if id == IDM_EXIT {
            return WindowAction::Quit;
        }
        if id == IDM_AUTOSTART {
            return WindowAction::ToggleAutostart;
        }
        return WindowAction::Handled;
    }
    if msg == WM_DESTROY {
        return WindowAction::Quit;
    }
    WindowAction::Default
}

/// Registry key, under the current user's hive, whose values are programs
/// started at login.
pub const RUN_KEY: &'static str = "Software\\Microsoft\\Windows\\CurrentVersion\\Run";
/// Name of this program's value under `RUN_KEY`; start at login is enabled
/// exactly while the value exists.
pub const RUN_VALUE_NAME: &'static str = "eng-on-esc";

/// The data of the `RUN_VALUE_NAME` value for the program at `exe`: the path
/// in double quotes, so that a path with spaces is read as one.
pub open spec fn run_value_of(exe: Seq<char>) -> Seq<char> {
    seq!['"'] + exe + seq!['"']
}

/// Builds the data of the start-at-login registry value for the program at `exe`.
pub fn run_value_data(exe: &str) -> (data: String)
    ensures
        data@ == run_value_of(exe@),
{
    proof {
        reveal_strlit("\"");
    }
    let mut data = String::from_str("\"");
    data.append(exe);
    data.append("\"");
    assert(data@ =~= run_value_of(exe@));
    data
}

/// How the start-at-login command changes the registry.
#[derive(PartialEq, Eq, Structural, Clone, Copy, Debug)]
pub enum AutostartChange {
    /// Write the `RUN_VALUE_NAME` value with `run_value_data` of this program.
    Register,
    /// Delete the `RUN_VALUE_NAME` value.
    Unregister,
}

/// The change for the start-at-login command, given whether the value is
/// registered at that moment: it flips the setting.
pub open spec fn change_for(registered: bool) -> AutostartChange {
    if registered {
        AutostartChange::Unregister
    } else {
        AutostartChange::Register
    }
}

/// Decides how the start-at-login command changes the registry.
pub fn autostart_change(registered: bool) -> (r: AutostartChange)
    ensures
        r == change_for(registered),
{
    if registered {
        AutostartChange::Unregister
    } else {
        AutostartChange::Register
    }
}

/// Whether the value is registered after `change` has been carried out.
pub open spec fn registered_after(change: AutostartChange) -> bool {
    change == AutostartChange::Register
}

/// One item of the tray icon's context menu: the command it sends and
/// whether it shows a check mark.
#[derive(PartialEq, Eq, Structural, Clone, Copy, Debug)]
pub struct TrayMenuItem {
    pub command: u32,
    pub checked: bool,
}

/// The tray icon's context menu, top to bottom, given whether start at login
/// is registered: the start-at-login item, checked exactly when registered,
/// then the exit item.
pub open spec fn tray_menu_of(registered: bool) -> Seq<TrayMenuItem> {
    seq![
        TrayMenuItem { command: IDM_AUTOSTART, checked: registered },
        TrayMenuItem { command: IDM_EXIT, checked: false },
    ]
}

/// Builds the tray icon's context menu.
pub fn tray_menu(registered: bool) -> (items: Vec<TrayMenuItem>)
    ensures
        items@ == tray_menu_of(registered),
{
    let mut items: Vec<TrayMenuItem> = Vec::new();
    items.push(TrayMenuItem { command: IDM_AUTOSTART, checked: registered });
    items.push(TrayMenuItem { command: IDM_EXIT, checked: false });
    assert(items@ =~= tray_menu_of(registered));
    items
}

/// Choosing start at login flips the registration, and the menu then shows
/// the check mark on it exactly when it is registered; choosing it twice gives
/// back the registration it started from.
pub proof fn law_autostart_command_flips(registered: bool)
    ensures
        registered_after(change_for(registered)) == !registered,
        registered_after(change_for(registered_after(change_for(registered)))) == registered,
        tray_menu_of(registered_after(change_for(registered)))[0] == (TrayMenuItem {
            command: IDM_AUTOSTART,
            checked: !registered,
        }),
{
}

/// One injected keyboard event: a virtual key going down or coming up.
#[derive(PartialEq, Eq, Structural, Clone, Copy, Debug)]
pub struct KeyStroke {
    pub vk: u16,
    pub key_up: bool,
}

/// The two keyboard events that make one press of `vk`, in the order they are
/// injected: the key goes down, then comes up.
pub fn key_tap(vk: u16) -> (r: [KeyStroke; 2])
    ensures
        r@ == seq![KeyStroke { vk, key_up: false }, KeyStroke { vk, key_up: true }],
{
    let down = KeyStroke { vk, key_up: false };
    let up = KeyStroke { vk, key_up: true };
    let r = [down, up];
    assert(r@ =~= seq![down, up]);
    r
}

/// The tooltip buffer of the tray icon for the UTF-16 text `tip`: the text,
/// cut to `TIP_CAPACITY - 1` units, followed by zeros up to `TIP_CAPACITY`
/// units, so that it always ends with a terminating zero.
pub open spec fn tip_buffer(tip: Seq<u16>) -> Seq<u16> {
    Seq::new(
        TIP_CAPACITY as nat,
        |i: int|
            if i < tip.len() && i < TIP_CAPACITY - 1 {
                tip[i]
            } else {
                0u16
            },
    )
}

/// Fills the tooltip buffer of the tray icon from the UTF-16 text `tip`.
pub fn tray_tip_buffer(tip: &[u16]) -> (r: Vec<u16>)
    ensures
        r@ == tip_buffer(tip@),
{
    let mut r: Vec<u16> = Vec::new();
    let mut i: usize = 0;
    while i < TIP_CAPACITY
        invariant
            i <= TIP_CAPACITY,
            r@.len() == i,
            forall|j: int| 0 <= j < i ==> r@[j] == tip_buffer(tip@)[j],
        decreases TIP_CAPACITY - i,
    {
        if i < tip.len() && i < TIP_CAPACITY - 1 {
            r.push(tip[i]);
        } else {
            r.push(0u16);
        }
        i = i + 1;
    }
    assert(r@ =~= tip_buffer(tip@));
    r
}

/// Hangul presses injected by this program (to switch a thread to English)
/// are never taken for user presses, so they do not disturb the tracked mode;
/// Escape going down always wakes the worker, typed or injected; and events
/// that are not a key going down do nothing.
pub proof fn law_hook_counts_user_presses_only(code: i32, wparam: usize, vk: u32, flags: u32)
    ensures
        is_injected(flags) ==> hook_effect(code, wparam, VK_HANGUL as u32, flags)
            == HookEffect::Nothing,
        is_key_down(code, wparam as u32) ==> hook_effect(code, wparam, VK_ESCAPE as u32, flags)
            == HookEffect::SignalEscape,
        !is_key_down(code, wparam as u32) ==> hook_effect(code, wparam, vk, flags)
            == HookEffect::Nothing,
{
}

/// The tray window quits exactly on the exit command and on its destruction,
/// flips start at login exactly on its command, and opens the menu exactly on
/// a button release over the tray icon.
pub proof fn law_window_quits_on_exit_or_destroy(msg: u32, wparam: usize, lparam: isize)
    ensures
        (window_action(msg, wparam, lparam) == WindowAction::Quit) == ((msg == WM_COMMAND
            && low_word(wparam as u32) == IDM_EXIT) || msg == WM_DESTROY),
        (window_action(msg, wparam, lparam) == WindowAction::ShowMenu) == (msg == WM_TRAYICON
            && (low_word(lparam as u32) == WM_LBUTTONUP || low_word(lparam as u32)
            == WM_RBUTTONUP)),
        (window_action(msg, wparam, lparam) == WindowAction::ToggleAutostart) == (msg
            == WM_COMMAND && low_word(wparam as u32) == IDM_AUTOSTART),
{
}

/// The tooltip buffer always holds `TIP_CAPACITY` units and ends with a zero;
/// a text shorter than that is kept whole, followed by zeros.
pub proof fn law_tip_is_terminated(tip: Seq<u16>)
    ensures
        tip_buffer(tip).len() == TIP_CAPACITY,
        tip_buffer(tip)[TIP_CAPACITY - 1] == 0,
        tip.len() < TIP_CAPACITY ==> tip_buffer(tip).take(tip.len() as int) == tip,
        forall|i: int| tip.len() <= i < TIP_CAPACITY ==> #[trigger] tip_buffer(tip)[i] == 0,
{
    if tip.len() < TIP_CAPACITY {
        assert(tip_buffer(tip).take(tip.len() as int) =~= tip);
    }
}

/// Escape on a thread in Korean mode injects one Hangul press and leaves the
/// thread recorded in English mode; the injected press comes back through the
/// hook as an injected event and leaves the record alone, so it stays in
/// English mode, matching the input method.
pub proof fn law_escape_round_trip(m: Map<u32, bool>, tid: u32, code: i32, wparam: usize, flags: u32)
    requires
        tid != NO_THREAD,
        korean_in(m, tid),
        is_injected(flags),
    ensures
        escape_sends(m, tid),
        hook_effect(code, wparam, VK_HANGUL as u32, flags) != HookEffect::ToggleForeground,
        !korean_in(after_escape(m, tid), tid),
{
}

/// Every Hangul key press the user types is counted, whatever other flag
/// bits the event carries (extended key, Alt held, ...): only the injected bit
/// (0x10) keeps a key-down Hangul event from flipping the foreground thread.
pub proof fn law_typed_hangul_always_toggles(code: i32, wparam: usize, flags: u32)
    requires
        code >= 0,
        wparam as u32 == 0x0100u32 || wparam as u32 == 0x0104u32,
        flags & 0x10u32 == 0,
    ensures
        hook_effect(code, wparam, 0x15, flags) == HookEffect::ToggleForeground,
        hook_effect(code, wparam, 0x1B, flags) == HookEffect::SignalEscape,
{
    assert(flags & 0x10u32 == 0 ==> flags & LLKHF_INJECTED == 0) by (bit_vector);
}

/// The tray window handles only its own three kinds of message: every message
/// other than the tray callback (0x0401), `WM_COMMAND` (0x0111) and
/// `WM_DESTROY` (0x0002) goes to the default window procedure, so window
/// creation and all other system messages keep their standard handling; and
/// a message is answered with a bare 0 only when it is a tray event that is
/// not a button release, or a command that is neither exit nor start at login.
pub proof fn law_other_messages_go_to_default(msg: u32, wparam: usize, lparam: isize)
    ensures
        msg != 0x0401u32 && msg != 0x0111u32 && msg != 0x0002u32 ==> window_action(
            msg,
            wparam,
            lparam,
        ) == WindowAction::Default,
        window_action(msg, wparam, lparam) == WindowAction::Handled ==> (msg == 0x0401u32 && (
        lparam as u32) % 0x10000 != 0x0202u32 && (lparam as u32) % 0x10000 != 0x0205u32) || (msg
            == 0x0111u32 && (wparam as u32) % 0x10000 != 1001u32 && (wparam as u32) % 0x10000
            != 1002u32),
        msg == 0x0002u32 ==> window_action(msg, wparam, lparam) == WindowAction::Quit,
{
}

/// The start-at-login registry data holds the whole executable path, between
/// double quotes, whatever its length.
pub proof fn law_run_value_holds_whole_path(exe: Seq<char>)
    ensures
        run_value_of(exe).len() == exe.len() + 2,
        run_value_of(exe)[0] == '"',
        run_value_of(exe)[exe.len() + 1int] == '"',
        run_value_of(exe).subrange(1, exe.len() + 1int) == exe,
{
    assert(run_value_of(exe).subrange(1, exe.len() + 1int) =~= exe);
}

} // verus!
