use vstd::prelude::*;
use vstd::string::StringExecFns;

verus! {

/// How the overlay is shown: whether the reference lines are visible, and
/// whether the overlay is being calibrated (movable, taking the mouse over its
/// controls) or locked (the mouse passes through to the game).
#[derive(Clone, Copy, Debug, PartialEq, Eq, Structural)]
pub struct Mode {
    pub visible: bool,
    pub calibrating: bool,
}

/// The two global shortcuts.
#[derive(Clone, Copy, Debug, PartialEq, Eq, Structural)]
pub enum Hotkey {
    /// Ctrl+Shift+G: show or hide the lines.
    ToggleLines,
    /// Ctrl+Shift+L: switch between calibrating and locked, showing the lines.
    ToggleCalibration,
}

/// The mode after a request that may leave either flag as it is.
pub open spec fn resolved(current: Mode, visible: Option<bool>, calibrating: Option<bool>) -> Mode {
    Mode {
        visible: match visible {
            Some(v) => v,
            None => current.visible,
        },
        calibrating: match calibrating {
            Some(c) => c,
            None => current.calibrating,
        },
    }
}

/// The request a shortcut makes of the current mode (see [`Mode::hotkey_request`]).
pub open spec fn hotkey_asks(current: Mode, key: Hotkey) -> (Option<bool>, Option<bool>) {
    match key {
        Hotkey::ToggleLines => (Some(!current.visible), None),
        Hotkey::ToggleCalibration => (Some(true), Some(!current.calibrating)),
    }
}

/// The mode a shortcut leads to.
pub open spec fn after_hotkey(current: Mode, key: Hotkey) -> Mode {
    resolved(current, hotkey_asks(current, key).0, hotkey_asks(current, key).1)
}

impl Mode {
    /// Every launch starts visible and calibrating.
    pub fn initial() -> (m: Mode)
        ensures
            m.visible && m.calibrating,
    {
        Mode { visible: true, calibrating: true }
    }

    /// Applies a request: each flag that is given replaces the current one.
    pub fn resolve(self, visible: Option<bool>, calibrating: Option<bool>) -> (m: Mode)
        ensures
            m == resolved(self, visible, calibrating),
    {
        Mode {
            visible: match visible {
                Some(v) => v,
                None => self.visible,
            },
            calibrating: match calibrating {
                Some(c) => c,
                None => self.calibrating,
            },
        }
    }

    /// The request a shortcut makes of the current mode.
    pub fn hotkey_request(self, key: Hotkey) -> (r: (Option<bool>, Option<bool>))
        ensures
            r == hotkey_asks(self, key),
    {
        match key {
            Hotkey::ToggleLines => (Some(!self.visible), None),
            Hotkey::ToggleCalibration => (Some(true), Some(!self.calibrating)),
        }
    }

    /// Whether the overlay window lets all mouse events through: exactly when
    /// it is locked.
    pub fn ignores_cursor(self) -> (b: bool)
        ensures
            b == !self.calibrating,
    {
        !self.calibrating
    }

    /// Whether the overlay window may take keyboard focus: only while calibrating.
    pub fn focusable(self) -> (b: bool)
        ensures
            b == self.calibrating,
    {
        self.calibrating
    }

    /// Whether the calibration controls may take the mouse: the overlay is
    /// shown and being calibrated.
    pub fn controls_active(self) -> (b: bool)
        ensures
            b == (self.visible && self.calibrating),
    {
        self.visible && self.calibrating
    }
}

/// Each flag of a request is independent: a flag given replaces the current
/// one, and a flag not given keeps its current value whatever the other flag
/// asks (locking does not hide the lines, showing does not unlock).
pub proof fn flags_are_independent(m: Mode, visible: Option<bool>, calibrating: Option<bool>, x: bool)
    ensures
        resolved(m, None, calibrating).visible == m.visible,
        resolved(m, visible, None).calibrating == m.calibrating,
        resolved(m, Some(x), calibrating).visible == x,
        resolved(m, visible, Some(x)).calibrating == x,
{
}

/// A request that gives neither flag leaves the mode as it is.
pub proof fn empty_request_keeps_mode(m: Mode)
    ensures
        resolved(m, None, None) == m,
{
}

/// Ctrl+Shift+G shows or hides the lines and leaves calibration alone; pressed
/// twice it restores the mode.
pub proof fn toggle_lines_is_an_involution(m: Mode)
    ensures
        after_hotkey(m, Hotkey::ToggleLines).visible == !m.visible,
        after_hotkey(m, Hotkey::ToggleLines).calibrating == m.calibrating,
        after_hotkey(after_hotkey(m, Hotkey::ToggleLines), Hotkey::ToggleLines) == m,
{
}

/// Ctrl+Shift+L switches between calibrating and locked and always shows the
/// lines; pressed twice it restores calibration, with the lines shown.
pub proof fn toggle_calibration_shows_lines(m: Mode)
    ensures
        after_hotkey(m, Hotkey::ToggleCalibration).visible,
        after_hotkey(m, Hotkey::ToggleCalibration).calibrating == !m.calibrating,
        after_hotkey(after_hotkey(m, Hotkey::ToggleCalibration), Hotkey::ToggleCalibration)
            == (Mode { visible: true, calibrating: m.calibrating }),
{
}

/// Once locked, the overlay lets every mouse event through to the game: the
/// pointer polling finds the controls inactive and keeps the mouse with the
/// game whatever it reports (and [`Mode::ignores_cursor`] holds).
pub proof fn locked_overlay_lets_mouse_through(m: Mode, button_down: bool, ignoring: bool, hit: bool)
    requires
        !m.calibrating,
    ensures
        crate::input::ignores(m.visible && m.calibrating, button_down, ignoring, hit),
{
}

/// The revision of the next published state. Every publication gets a new one,
/// so work started on an older state can be recognised and dropped.
pub fn next_revision(revision: u64) -> (r: u64)
    requires
        revision < u64::MAX,
    ensures
        r == revision + 1,
{
    revision + 1
}

/// Adds `message` to the notice shown in the panel, on a line of its own.
pub fn append_notice(previous: Option<String>, message: &str) -> (r: String)
    ensures
        previous is None ==> r@ == message@,
        previous is Some ==> r@ == previous->0@ + "\n"@ + message@,
{
    match previous {
        Some(p) => p.concat("\n").concat(message),
        None => String::from_str(message),
    }
}

pub open spec fn hotkey_failure_text(label: Seq<char>) -> Seq<char> {
    "快捷键 "@ + label + " 注册失败，可使用面板按钮。请关闭占用快捷键的应用后重启。"@
}

/// The notice for a shortcut that could not be registered.
pub fn hotkey_failure_notice(label: &str) -> (r: String)
    ensures
        r@ == hotkey_failure_text(label@),
{
    String::from_str("快捷键 ").concat(label).concat(" 注册失败，可使用面板按钮。请关闭占用快捷键的应用后重启。")
}

/// The notice for a mode switch by shortcut that failed with `error`.
pub fn mode_failure_notice(error: &str) -> (r: String)
    ensures
        r@ == "切换辅助窗口失败："@ + error@,
{
    String::from_str("切换辅助窗口失败：").concat(error)
}

/// The work area of a monitor: its top-left corner in physical desktop pixels
/// (possibly negative) and its size.
#[derive(Clone, Copy, Debug, PartialEq, Eq, Structural)]
pub struct Area {
    pub x: i32,
    pub y: i32,
    pub width: u32,
    pub height: u32,
}

/// Whether the point lies in the area (its right and bottom edges excluded).
pub open spec fn area_holds(a: Area, x: i32, y: i32) -> bool {
    &&& a.x <= x
    &&& a.y <= y
    &&& x < a.x + a.width
    &&& y < a.y + a.height
}

impl Area {
    /// Whether the point lies in the area.
    pub fn contains(&self, x: i32, y: i32) -> (b: bool)
        ensures
            b == area_holds(*self, x, y),
    {
        x >= self.x && y >= self.y && (x as i64) < self.x as i64 + self.width as i64 && (y as i64)
            < self.y as i64 + self.height as i64
    }
}

/// A point is in an area exactly when it is at or right of its left edge,
/// at or below its top edge, and strictly left of its right edge and above
/// its bottom edge: a point at or past the right or bottom edge belongs to the
/// next monitor, not this one.
pub proof fn area_is_half_open(a: Area, x: i32, y: i32)
    ensures
        x < a.x ==> !area_holds(a, x, y),
        y < a.y ==> !area_holds(a, x, y),
        x >= a.x + a.width ==> !area_holds(a, x, y),
        y >= a.y + a.height ==> !area_holds(a, x, y),
        a.x <= x < a.x + a.width && a.y <= y < a.y + a.height ==> area_holds(a, x, y),
{
}

/// The first work area that holds the saved window position, where the
/// overlay is restored.
pub fn area_for(areas: &Vec<Area>, x: i32, y: i32) -> (r: Option<usize>)
    ensures
        match r {
            Some(i) => i < areas@.len() && area_holds(areas@[i as int], x, y) && forall|j: int|
                0 <= j < i ==> !area_holds(#[trigger] areas@[j], x, y),
            None => forall|j: int| 0 <= j < areas@.len() ==> !area_holds(#[trigger] areas@[j], x, y),
        },
{
    let mut i: usize = 0;
    while i < areas.len()
        invariant
            i <= areas@.len(),
            forall|j: int| 0 <= j < i ==> !area_holds(#[trigger] areas@[j], x, y),
        decreases areas@.len() - i,
    {
        if areas[i].contains(x, y) {
            return Some(i);
        }
        i += 1;
    }
    None
}

} // verus!
