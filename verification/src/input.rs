use vstd::prelude::*;
use vstd::string::StringExecFns;

verus! {

/// Whether the overlay should let mouse events through to the game.
///
/// While inactive (hidden or locked) the overlay never takes the mouse. While a
/// button is held, whichever window received the mouse-down keeps it until
/// release, so the current setting stays. Otherwise the overlay takes the mouse
/// exactly when the cursor is over a calibration control.
pub open spec fn ignores(active: bool, button_down: bool, ignoring: bool, hit: bool) -> bool {
    if !active {
        true
    } else if button_down {
        ignoring
    } else {
        !hit
    }
}

/// Computes [`ignores`].
pub fn should_ignore(active: bool, button_down: bool, ignoring: bool, hit: bool) -> (r: bool)
    ensures
        r == ignores(active, button_down, ignoring, hit),
{
    !active || if button_down {
        ignoring
    } else {
        !hit
    }
}


/// Whether the overlay window currently lets the mouse through, and whether a
/// failure of the pointer polling has already been reported to the user.
pub struct Pointer {
    ignoring: bool,
    reported_error: bool,
}

pub open spec fn passthrough_failure_text(error: Seq<char>) -> Seq<char> {
    "校准鼠标穿透不可用："@ + error + " 可先锁定辅助线操作游戏。"@
}

/// The switch a poll asks of the overlay window, if its setting has to change
/// (see [`Pointer::pending`]).
pub open spec fn switch_for(ignoring: bool, active: bool, button_down: bool, hit: bool) -> Option<
    bool,
> {
    if ignores(active, button_down, ignoring, hit) != ignoring {
        Some(ignores(active, button_down, ignoring, hit))
    } else {
        None
    }
}

/// The pointer state after a failed poll (see [`Pointer::first_failure`]).
pub open spec fn after_failure(p: (bool, bool)) -> (bool, bool) {
    (p.0, true)
}

impl View for Pointer {
    type V = (bool, bool);

    closed spec fn view(&self) -> (bool, bool) {
        (self.ignoring, self.reported_error)
    }
}

impl Pointer {
    /// The overlay starts out letting the mouse through; nothing reported yet.
    pub fn new() -> (p: Pointer)
        ensures
            p@ == (true, false),
    {
        Pointer { ignoring: true, reported_error: false }
    }

    /// Whether the overlay window currently lets the mouse through.
    pub fn ignoring(&self) -> (b: bool)
        ensures
            b == self@.0,
    {
        self.ignoring
    }

    /// The setting the overlay window has to be switched to after one poll,
    /// if it has to change: `active` says whether the controls may take the
    /// mouse, `button_down` whether a button is held, `hit` whether the cursor
    /// is over a control.
    pub fn pending(&self, active: bool, button_down: bool, hit: bool) -> (r: Option<bool>)
        ensures
            r == switch_for(self@.0, active, button_down, hit),
    {
        let next = should_ignore(active, button_down, self.ignoring, hit);
        if next != self.ignoring {
            Some(next)
        } else {
            None
        }
    }

    /// Records the setting the overlay window was switched to.
    pub fn set_ignoring(&mut self, ignoring: bool)
        ensures
            final(self)@ == (ignoring, old(self)@.1),
    {
        self.ignoring = ignoring;
    }

    /// Called when a poll failed: whether this failure is the first one, the
    /// only one the user is told about.
    pub fn first_failure(&mut self) -> (first: bool)
        ensures
            first == !old(self)@.1,
            final(self)@ == after_failure(old(self)@),
    {
        let first = !self.reported_error;
        self.reported_error = true;
        first
    }
}

/// A poll asks for a switch exactly when the setting it wants differs from
/// the current one, and then for that setting; applying what it asks always
/// leaves the window at the wanted setting.
pub proof fn switch_only_on_change(ignoring: bool, active: bool, button_down: bool, hit: bool)
    ensures
        (switch_for(ignoring, active, button_down, hit) is Some) == (ignores(
            active,
            button_down,
            ignoring,
            hit,
        ) != ignoring),
        switch_for(ignoring, active, button_down, hit) is Some ==> switch_for(
            ignoring,
            active,
            button_down,
            hit,
        ) == Some(!ignoring),
        match switch_for(ignoring, active, button_down, hit) {
            Some(next) => next,
            None => ignoring,
        } == ignores(active, button_down, ignoring, hit),
{
}

/// A held button keeps the mouse with the window that received the press: a
/// drag that started on a control stays with the overlay, one that started
/// in the game stays with the game, whatever the cursor crosses.
pub proof fn held_button_keeps_receiver(ignoring: bool, hit: bool)
    ensures
        ignores(true, true, ignoring, hit) == ignoring,
        switch_for(ignoring, true, true, hit) is None,
{
}

/// Once the button is up, the overlay takes the mouse exactly over a control:
/// over blank space it lets the mouse through, and a window already doing so
/// is not switched.
pub proof fn released_button_follows_controls(ignoring: bool, hit: bool)
    ensures
        ignores(true, false, ignoring, hit) == !hit,
        switch_for(true, true, false, false) is None,
        switch_for(false, true, false, false) == Some(true),
        switch_for(true, true, false, true) == Some(false),
{
}

/// Hiding or locking the overlay hands the mouse to the game at the next
/// poll, even in the middle of a drag, and keeps it there.
pub proof fn inactive_overlay_lets_mouse_through(ignoring: bool, button_down: bool, hit: bool)
    ensures
        ignores(false, button_down, ignoring, hit),
        switch_for(ignoring, false, button_down, hit) == (if ignoring {
            None::<bool>
        } else {
            Some(true)
        }),
{
}

/// The user is told about a failing pointer poll once: every later failure
/// finds it already reported.
pub proof fn failure_reported_once(p: (bool, bool))
    ensures
        after_failure(p).1,
        after_failure(after_failure(p)) == after_failure(p),
{
}

/// The notice shown when the pointer polling failed with `error`.
pub fn passthrough_notice(error: &str) -> (r: String)
    ensures
        r@ == passthrough_failure_text(error@),
{
    String::from_str("校准鼠标穿透不可用：").concat(error).concat(" 可先锁定辅助线操作游戏。")
}

} // verus!
