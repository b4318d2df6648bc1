//! Decisions of the macOS front end.
//!
//! On macOS the input mode is global. Caps Lock toggles between Korean and
//! English, and the system offers no reliable way to read the current mode,
//! so the mode is tracked from the Caps Lock presses the user makes. Caps Lock
//! presses that this program injects itself are told apart by a guard flag
//! that is raised while they are being sent.

use vstd::prelude::*;

verus! {

/// The tracked global input mode.
pub struct KoreanMode {
    korean: bool,
}

impl View for KoreanMode {
    type V = bool;

    /// `true` while the input method is taken to be in Korean mode.
    closed spec fn view(&self) -> bool {
        self.korean
    }
}

/// The mode every tracker starts from: English.
pub fn korean_mode() -> (m: KoreanMode)
    ensures
        !m@,
{
    KoreanMode { korean: false }
}

impl KoreanMode {
    /// Whether the input method is taken to be in Korean mode.
    pub fn is_korean(&self) -> (r: bool)
        ensures
            r == self@,
    {
        self.korean
    }

    /// Caps Lock went down. A press typed by the user flips the mode; one that
    /// this program injected itself (`sending_caps`) leaves it alone.
    pub fn on_caps_lock(&mut self, sending_caps: bool)
        ensures
            final(self)@ == (if sending_caps { old(self)@ } else { !old(self)@ }),
    {
        if !sending_caps {
            self.korean = !self.korean;
        }
    }

    /// Escape was handled: returns whether Caps Lock must be sent to switch to
    /// English (exactly when the mode was Korean); afterwards the mode is English.
    pub fn take_korean(&mut self) -> (send: bool)
        ensures
            send == old(self)@,
            !final(self)@,
    {
        let send = self.korean;
        self.korean = false;
        send
    }
}

/// The keys the macOS front end tells apart.
#[derive(PartialEq, Eq, Structural, Clone, Copy, Debug)]
pub enum MacKey {
    CapsLock,
    Escape,
    Other,
}

/// A global keyboard event as far as the front end cares: a key going down,
/// or anything else (key releases, mouse events).
#[derive(PartialEq, Eq, Structural, Clone, Copy, Debug)]
pub enum MacEvent {
    KeyPress(MacKey),
    Other,
}

/// The mode after event `e`, given whether injected Caps Lock presses are
/// being sent.
pub open spec fn mode_after_event(korean: bool, e: MacEvent, sending_caps: bool) -> bool {
    if e == MacEvent::KeyPress(MacKey::CapsLock) && !sending_caps {
        !korean
    } else {
        korean
    }
}

/// The global keyboard callback. `event` is the event as the system delivered
/// it and `kind` what it is. The event is always handed back, so that it goes
/// on to the applications unchanged (Escape keeps cancelling and closing). The
/// second result says whether Escape went down, so that the worker must be woken.
pub fn keyboard_callback<E>(mode: &mut KoreanMode, kind: MacEvent, sending_caps: bool, event: E) -> (r:
    (Option<E>, bool))
    ensures
        r.0 == Some(event),
        r.1 == (kind == MacEvent::KeyPress(MacKey::Escape)),
        final(mode)@ == mode_after_event(old(mode)@, kind, sending_caps),
{
    match kind {
        MacEvent::KeyPress(MacKey::CapsLock) => {
            mode.on_caps_lock(sending_caps);
            (Some(event), false)
        },
        MacEvent::KeyPress(MacKey::Escape) => (Some(event), true),
        _ => (Some(event), false),
    }
}

/// Milliseconds to wait around each injected Caps Lock event.
pub const CAPS_PAUSE_MS: u64 = 10;

/// One step of switching to English by injecting Caps Lock.
#[derive(PartialEq, Eq, Structural, Clone, Copy, Debug)]
pub enum CapsStep {
    /// Raise the guard that marks Caps Lock events as injected.
    GuardOn,
    /// Sleep for the given number of milliseconds.
    Pause(u64),
    /// Inject Caps Lock going down.
    Press,
    /// Inject Caps Lock coming up.
    Release,
    /// Lower the guard.
    GuardOff,
}

/// The steps that inject one Caps Lock press: the guard is raised before the
/// first injected event and lowered only after the last one, with a pause
/// around each.
pub open spec fn caps_tap_steps() -> Seq<CapsStep> {
    seq![
        CapsStep::GuardOn,
        CapsStep::Pause(CAPS_PAUSE_MS),
        CapsStep::Press,
        CapsStep::Pause(CAPS_PAUSE_MS),
        CapsStep::Release,
        CapsStep::Pause(CAPS_PAUSE_MS),
        CapsStep::GuardOff,
    ]
}

/// Handles Escape once the worker has been woken: when the mode is Korean, the
/// mode becomes English and the returned steps inject one Caps Lock press;
/// otherwise there is nothing to do.
pub fn escape_steps(mode: &mut KoreanMode) -> (steps: Vec<CapsStep>)
    ensures
        !final(mode)@,
        steps@ == (if old(mode)@ { caps_tap_steps() } else { Seq::<CapsStep>::empty() }),
{
    let mut steps: Vec<CapsStep> = Vec::new();
    if mode.take_korean() {
        steps.push(CapsStep::GuardOn);
        steps.push(CapsStep::Pause(CAPS_PAUSE_MS));
        steps.push(CapsStep::Press);
        steps.push(CapsStep::Pause(CAPS_PAUSE_MS));
        steps.push(CapsStep::Release);
        steps.push(CapsStep::Pause(CAPS_PAUSE_MS));
        steps.push(CapsStep::GuardOff);
        assert(steps@ =~= caps_tap_steps());
    } else {
        assert(steps@ =~= Seq::<CapsStep>::empty());
    }
    steps
}

/// Whether the guard is up just before step `i` of `steps`, given that it
/// was down at the start.
pub open spec fn guard_up_before(steps: Seq<CapsStep>, i: int) -> bool
    decreases i,
{
    if i <= 0 {
        false
    } else {
        match steps[i - 1] {
            CapsStep::GuardOn => true,
            CapsStep::GuardOff => false,
            _ => guard_up_before(steps, i - 1),
        }
    }
}

/// Every Caps Lock event this program injects is sent while the guard is up,
/// and the guard is down again once the steps are done; so the keyboard
/// callback never counts an injected press as a user press, and user presses
/// after the steps are counted again.
pub proof fn law_injected_caps_are_guarded()
    ensures
        forall|i: int|
            0 <= i < caps_tap_steps().len() && (caps_tap_steps()[i] == CapsStep::Press
                || caps_tap_steps()[i] == CapsStep::Release) ==> guard_up_before(caps_tap_steps(), i),
        !guard_up_before(caps_tap_steps(), caps_tap_steps().len() as int),
{
    reveal_with_fuel(guard_up_before, 8);
}

/// A Caps Lock press typed by the user flips the mode and two of them give
/// back the mode; injected presses, Escape and other events leave it alone.
pub proof fn law_caps_lock_toggles(korean: bool, e: MacEvent, sending_caps: bool)
    ensures
        mode_after_event(mode_after_event(korean, MacEvent::KeyPress(MacKey::CapsLock), false),
            MacEvent::KeyPress(MacKey::CapsLock), false) == korean,
        mode_after_event(korean, MacEvent::KeyPress(MacKey::CapsLock), false) == !korean,
        mode_after_event(korean, MacEvent::KeyPress(MacKey::CapsLock), true) == korean,
        e != MacEvent::KeyPress(MacKey::CapsLock) ==> mode_after_event(korean, e, sending_caps)
            == korean,
{
}

/// The items of the menu-bar menu.
#[derive(PartialEq, Eq, Structural, Clone, Copy, Debug)]
pub enum MenuItem {
    /// "Start at login", shown with a check mark while enabled.
    Autostart,
    /// "Quit".
    Quit,
    /// An event of no item of this menu.
    Other,
}

/// What the event loop does with a menu event.
#[derive(PartialEq, Eq, Structural, Clone, Copy, Debug)]
pub enum MenuAction {
    /// Leave the event loop.
    Exit,
    /// Remove the login agent and clear the check mark.
    DisableAutostart,
    /// Install the login agent and set the check mark.
    EnableAutostart,
    /// Nothing.
    Nothing,
}

/// The action for a choice of menu item `item`, given whether start at login
/// is enabled at that moment: quitting exits, and the start-at-login item
/// flips the setting.
pub open spec fn menu_action_for(item: MenuItem, autostart_enabled: bool) -> MenuAction {
    match item {
        MenuItem::Quit => MenuAction::Exit,
        MenuItem::Autostart => if autostart_enabled {
            MenuAction::DisableAutostart
        } else {
            MenuAction::EnableAutostart
        },
        MenuItem::Other => MenuAction::Nothing,
    }
}

/// Decides what the event loop does with a menu event.
pub fn menu_action(item: MenuItem, autostart_enabled: bool) -> (r: MenuAction)
    ensures
        r == menu_action_for(item, autostart_enabled),
{
    match item {
        MenuItem::Quit => MenuAction::Exit,
        MenuItem::Autostart => {
            if autostart_enabled {
                MenuAction::DisableAutostart
            } else {
                MenuAction::EnableAutostart
            }
        },
        MenuItem::Other => MenuAction::Nothing,
    }
}

/// Whether start at login is enabled after `action` has been carried out,
/// given whether it was enabled before.
pub open spec fn enabled_after(action: MenuAction, enabled: bool) -> bool {
    match action {
        MenuAction::DisableAutostart => false,
        MenuAction::EnableAutostart => true,
        _ => enabled,
    }
}

/// Choosing the start-at-login item flips the setting (and with it the check
/// mark, which the actions set to the new setting); choosing it twice gives
/// back the setting it started from; choosing "Quit" leaves the loop.
pub proof fn law_autostart_item_flips(enabled: bool)
    ensures
        enabled_after(menu_action_for(MenuItem::Autostart, enabled), enabled) == !enabled,
        enabled_after(
            menu_action_for(
                MenuItem::Autostart,
                enabled_after(menu_action_for(MenuItem::Autostart, enabled), enabled),
            ),
            enabled_after(menu_action_for(MenuItem::Autostart, enabled), enabled),
        ) == enabled,
        menu_action_for(MenuItem::Quit, enabled) == MenuAction::Exit,
{
}

} // verus!
