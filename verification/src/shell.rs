//! Message routing and tray-menu layout of the Win32 overlay shell.

use vstd::prelude::*;
use crate::actions::{plan_spec, CoreStep};
use crate::input::{
    menu_command_spec, AppAction, ShellCommand, PlayMode, ToySize, MENU_CLEAR_MARBLES, MENU_NUDGE, MENU_QUIT, MENU_RESET,
    MENU_SCATTER_MARBLES, MENU_SIZE_LARGE, MENU_SIZE_MEDIUM, MENU_SIZE_SMALL, MENU_SPAWN_MARBLE,
    MENU_TOGGLE_BOTTOM_BOUNCE, MENU_TOGGLE_GRAVITY, MENU_TOGGLE_HUD, MENU_TOGGLE_MODE,
    MENU_TOGGLE_RUBBER_BAND, MENU_TOGGLE_SINGLE_MONITOR, MENU_TOGGLE_SPRING,
};

verus! {

pub const WM_DESTROY: u32 = 0x0002;
pub const WM_SIZE: u32 = 0x0005;
pub const WM_CLOSE: u32 = 0x0010;
pub const WM_CONTEXTMENU: u32 = 0x007B;
pub const WM_NCHITTEST: u32 = 0x0084;
pub const WM_KEYDOWN: u32 = 0x0100;
pub const WM_KEYUP: u32 = 0x0101;
pub const WM_CHAR: u32 = 0x0102;
pub const WM_COMMAND: u32 = 0x0111;
pub const WM_TIMER: u32 = 0x0113;
pub const WM_MOUSEMOVE: u32 = 0x0200;
pub const WM_LBUTTONDOWN: u32 = 0x0201;
pub const WM_LBUTTONUP: u32 = 0x0202;
pub const WM_LBUTTONDBLCLK: u32 = 0x0203;
pub const WM_RBUTTONDOWN: u32 = 0x0204;
pub const WM_RBUTTONUP: u32 = 0x0205;
pub const WM_HOTKEY: u32 = 0x0312;
pub const WM_APP: u32 = 0x8000;
/// Callback message of the notification-area icon.
pub const WM_TRAY: u32 = WM_APP + 1;
/// Id of the redraw timer.
pub const TIMER_ID_REDRAW: usize = 1;

/// What the window procedure does with a message once the shell is attached
/// to its window.
#[derive(Debug, Clone, Copy, PartialEq, Eq, Structural)]
pub enum WindowRoute {
    /// Leave the message to `DefWindowProcW`.
    Default,
    /// Advance and draw one frame.
    Redraw,
    /// The client area now has this width and height.
    Resize(i32, i32),
    MouseMove,
    /// Left button pressed (`true`) or released (`false`).
    LeftButton(bool),
    RightButtonDown,
    RightButtonUp,
    /// Virtual-key code pressed (`true`) or released (`false`).
    Key(u32, bool),
    /// Character code typed.
    Char(u32),
    HitTest,
    Hotkey(i32),
    /// Menu command id.
    Command(usize),
    /// The tray icon was clicked: spawn a new toy.
    TrayReset,
    /// The tray icon asked for its context menu.
    TrayMenu,
    /// A tray notification the shell ignores.
    TrayIgnore,
    Close,
    Destroy,
}

/// Routing table of the overlay window procedure.
pub open spec fn route_spec(msg: u32, wparam: usize, lparam: isize) -> WindowRoute {
    if msg == WM_TIMER {
        if wparam == TIMER_ID_REDRAW {
            WindowRoute::Redraw
        } else {
            WindowRoute::Default
        }
    } else if msg == WM_SIZE {
        let packed = lparam as usize as u32;
        WindowRoute::Resize((packed as int % 0x10000) as i32, (packed as int / 0x10000) as i32)
    } else if msg == WM_MOUSEMOVE {
        WindowRoute::MouseMove
    } else if msg == WM_LBUTTONDOWN {
        WindowRoute::LeftButton(true)
    } else if msg == WM_LBUTTONUP {
        WindowRoute::LeftButton(false)
    } else if msg == WM_RBUTTONDOWN {
        WindowRoute::RightButtonDown
    } else if msg == WM_RBUTTONUP {
        WindowRoute::RightButtonUp
    } else if msg == WM_KEYDOWN {
        WindowRoute::Key(wparam as u32, true)
    } else if msg == WM_KEYUP {
        WindowRoute::Key(wparam as u32, false)
    } else if msg == WM_CHAR {
        WindowRoute::Char(wparam as u32)
    } else if msg == WM_NCHITTEST {
        WindowRoute::HitTest
    } else if msg == WM_HOTKEY {
        WindowRoute::Hotkey(wparam as i32)
    } else if msg == WM_COMMAND {
        WindowRoute::Command(((wparam as u32) as int % 0x10000) as usize)
    } else if msg == WM_TRAY {
        tray_route_spec(lparam as u32)
    } else if msg == WM_CLOSE {
        WindowRoute::Close
    } else if msg == WM_DESTROY {
        WindowRoute::Destroy
    } else {
        WindowRoute::Default
    }
}

/// Response to a notification-area callback: a left click (or double click)
/// spawns a toy, a right click or context-menu request opens the menu.
pub open spec fn tray_route_spec(tray_msg: u32) -> WindowRoute {
    if tray_msg == WM_LBUTTONUP || tray_msg == WM_LBUTTONDBLCLK {
        WindowRoute::TrayReset
    } else if tray_msg == WM_RBUTTONUP || tray_msg == WM_CONTEXTMENU {
        WindowRoute::TrayMenu
    } else {
        WindowRoute::TrayIgnore
    }
}

/// Button and key messages are routed by direction: a button-down message
/// as a press and the matching button-up message as a release (never the
/// same way), whatever the message parameters, and a key's down and up
/// messages carry the same key with opposite states.
pub proof fn lemma_presses_and_releases_route_apart(wparam: usize, lparam: isize)
    ensures
        route_spec(WM_LBUTTONDOWN, wparam, lparam) == WindowRoute::LeftButton(true),
        route_spec(WM_LBUTTONUP, wparam, lparam) == WindowRoute::LeftButton(false),
        route_spec(WM_RBUTTONDOWN, wparam, lparam) == WindowRoute::RightButtonDown,
        route_spec(WM_RBUTTONUP, wparam, lparam) == WindowRoute::RightButtonUp,
        route_spec(WM_LBUTTONDOWN, wparam, lparam) != route_spec(WM_LBUTTONUP, wparam, lparam),
        route_spec(WM_RBUTTONDOWN, wparam, lparam) != route_spec(WM_RBUTTONUP, wparam, lparam),
        route_spec(WM_KEYDOWN, wparam, lparam) == WindowRoute::Key(wparam as u32, true),
        route_spec(WM_KEYUP, wparam, lparam) == WindowRoute::Key(wparam as u32, false),
{
}

/// Clicks on the notification-area icon: a left click or double click
/// brings a toy back, a right click or a context-menu request opens the
/// menu, and the two kinds never lead to the same response.
pub proof fn lemma_tray_clicks(wparam: usize)
    ensures
        route_spec(WM_TRAY, wparam, WM_LBUTTONUP as isize) == WindowRoute::TrayReset,
        route_spec(WM_TRAY, wparam, WM_LBUTTONDBLCLK as isize) == WindowRoute::TrayReset,
        route_spec(WM_TRAY, wparam, WM_RBUTTONUP as isize) == WindowRoute::TrayMenu,
        route_spec(WM_TRAY, wparam, WM_CONTEXTMENU as isize) == WindowRoute::TrayMenu,
        route_spec(WM_TRAY, wparam, WM_MOUSEMOVE as isize) == WindowRoute::TrayIgnore,
{
}

/// Decide how the overlay window procedure handles a message.
pub fn route_message(msg: u32, wparam: usize, lparam: isize) -> (r: WindowRoute)
    ensures
        r == route_spec(msg, wparam, lparam),
        msg == WM_LBUTTONDOWN ==> r == WindowRoute::LeftButton(true),
        msg == WM_LBUTTONUP ==> r == WindowRoute::LeftButton(false),
{
    match msg {
        WM_TIMER => {
            if wparam == TIMER_ID_REDRAW {
                WindowRoute::Redraw
            } else {
                WindowRoute::Default
            }
        },
        WM_SIZE => {
            let (width, height) = crate::words::size_from_packed(lparam as usize as u32);
            WindowRoute::Resize(width, height)
        },
        WM_MOUSEMOVE => WindowRoute::MouseMove,
        WM_LBUTTONDOWN => WindowRoute::LeftButton(true),
        WM_LBUTTONUP => WindowRoute::LeftButton(false),
        WM_RBUTTONDOWN => WindowRoute::RightButtonDown,
        WM_RBUTTONUP => WindowRoute::RightButtonUp,
        WM_KEYDOWN => WindowRoute::Key(wparam as u32, true),
        WM_KEYUP => WindowRoute::Key(wparam as u32, false),
        WM_CHAR => WindowRoute::Char(wparam as u32),
        WM_NCHITTEST => WindowRoute::HitTest,
        WM_HOTKEY => WindowRoute::Hotkey(wparam as i32),
        WM_COMMAND => WindowRoute::Command(crate::words::low_word(wparam as u32) as usize),
        WM_TRAY => tray_route(lparam as u32),
        WM_CLOSE => WindowRoute::Close,
        WM_DESTROY => WindowRoute::Destroy,
        _ => WindowRoute::Default,
    }
}

/// Decide how a notification-area callback is handled.
pub fn tray_route(tray_msg: u32) -> (r: WindowRoute)
    ensures
        r == tray_route_spec(tray_msg),
{
    if tray_msg == WM_LBUTTONUP || tray_msg == WM_LBUTTONDBLCLK {
        WindowRoute::TrayReset
    } else if tray_msg == WM_RBUTTONUP || tray_msg == WM_CONTEXTMENU {
        WindowRoute::TrayMenu
    } else {
        WindowRoute::TrayIgnore
    }
}

/// `c` is a Unicode scalar value (not above U+10FFFF, not a surrogate).
pub open spec fn is_scalar_value(c: u32) -> bool {
    c <= 0x10FFFF && !(0xD800 <= c <= 0xDFFF)
}

/// `c` is a control character (general category Cc): C0 controls, DEL and
/// C1 controls.
pub open spec fn is_control_code(c: u32) -> bool {
    c <= 0x1F || 0x7F <= c <= 0x9F
}

/// `char::from_u32` yields the character with code point `i` exactly when
/// `i` is a Unicode scalar value, and `None` otherwise.
pub assume_specification[ char::from_u32 ](i: u32) -> (r: Option<char>)
    ensures
        r is Some <==> is_scalar_value(i),
        r matches Some(c) ==> c as u32 == i,
;

/// The character a `WM_CHAR` message types into the HUD: its code as a
/// character, unless it is not a valid character or is a control character.
pub fn typed_char(code: u32) -> (r: Option<char>)
    ensures
        r is Some <==> is_scalar_value(code) && !is_control_code(code),
        r matches Some(c) ==> c as u32 == code,
{
    match char::from_u32(code) {
        Some(c) => {
            if code <= 0x1F || (0x7F <= code && code <= 0x9F) {
                None
            } else {
                Some(c)
            }
        },
        None => None,
    }
}

/// Edge detection on the polled right mouse button: `Some(true)` when it went
/// down since the last poll, `Some(false)` when it came up, `None` otherwise.
pub fn right_button_edge(was_down: bool, down: bool) -> (edge: Option<bool>)
    ensures
        edge == (if was_down == down { None } else { Some(down) }),
{
    match (was_down, down) {
        (false, true) => Some(true),
        (true, false) => Some(false),
        _ => None,
    }
}

/// The application state the tray menu reflects.
#[derive(Debug, Clone, Copy, PartialEq, Eq, Structural)]
pub struct TrayMenuState {
    pub hud_visible: bool,
    pub mode: PlayMode,
    pub spring_attached: bool,
    pub rubber_band_visual: bool,
    pub toy_size: ToySize,
    pub gravity_enabled: bool,
    pub bottom_bounce: bool,
    pub single_monitor_bounds: bool,
    /// How many marbles are in play.
    pub marble_count: usize,
}

/// The caption of a tray menu item.
#[derive(Debug, Clone, Copy, PartialEq, Eq, Structural)]
pub enum TrayLabel {
    ShowHud,
    MarbleMode,
    SpawnBall,
    SpawnMarble,
    ScatterMarbles,
    /// "Clear marbles", with the number of marbles in play.
    ClearMarbles(usize),
    SpringAttached,
    RubberBandVisual,
    SizeSmall,
    SizeMedium,
    SizeLarge,
    GravityEnabled,
    BounceBottomEdge,
    SingleMonitorBounds,
    FlingBall,
    Quit,
}

/// One line of the tray context menu.
#[derive(Debug, Clone, Copy, PartialEq, Eq, Structural)]
pub enum TrayEntry {
    /// A plain command item.
    Item(usize, TrayLabel),
    /// A command item with a check mark, shown checked when `true`.
    Checked(usize, TrayLabel, bool),
    Separator,
}

/// The tray context menu for a given application state, top to bottom. The
/// reset item spawns the toy of the current mode and says which.
pub open spec fn tray_menu_spec(st: TrayMenuState) -> Seq<TrayEntry> {
    seq![
        TrayEntry::Checked(MENU_TOGGLE_HUD, TrayLabel::ShowHud, st.hud_visible),
        TrayEntry::Checked(MENU_TOGGLE_MODE, TrayLabel::MarbleMode, st.mode == PlayMode::Marbles),
        TrayEntry::Item(
            MENU_RESET,
            if st.mode == PlayMode::Marbles { TrayLabel::SpawnMarble } else { TrayLabel::SpawnBall },
        ),
        TrayEntry::Item(MENU_SPAWN_MARBLE, TrayLabel::SpawnMarble),
        TrayEntry::Item(MENU_SCATTER_MARBLES, TrayLabel::ScatterMarbles),
        TrayEntry::Item(MENU_CLEAR_MARBLES, TrayLabel::ClearMarbles(st.marble_count)),
        TrayEntry::Separator,
        TrayEntry::Checked(MENU_TOGGLE_SPRING, TrayLabel::SpringAttached, st.spring_attached),
        TrayEntry::Checked(
            MENU_TOGGLE_RUBBER_BAND,
            TrayLabel::RubberBandVisual,
            st.rubber_band_visual,
        ),
        TrayEntry::Checked(MENU_SIZE_SMALL, TrayLabel::SizeSmall, st.toy_size == ToySize::Small),
        TrayEntry::Checked(
            MENU_SIZE_MEDIUM,
            TrayLabel::SizeMedium,
            st.toy_size == ToySize::Medium,
        ),
        TrayEntry::Checked(MENU_SIZE_LARGE, TrayLabel::SizeLarge, st.toy_size == ToySize::Large),
        TrayEntry::Checked(MENU_TOGGLE_GRAVITY, TrayLabel::GravityEnabled, st.gravity_enabled),
        TrayEntry::Checked(
            MENU_TOGGLE_BOTTOM_BOUNCE,
            TrayLabel::BounceBottomEdge,
            st.bottom_bounce,
        ),
        TrayEntry::Checked(
            MENU_TOGGLE_SINGLE_MONITOR,
            TrayLabel::SingleMonitorBounds,
            st.single_monitor_bounds,
        ),
        TrayEntry::Item(MENU_NUDGE, TrayLabel::FlingBall),
        TrayEntry::Separator,
        TrayEntry::Item(MENU_QUIT, TrayLabel::Quit),
    ]
}

/// The menu id of an entry, if it is a command item.
pub open spec fn entry_id(e: TrayEntry) -> Option<usize> {
    match e {
        TrayEntry::Item(id, _) => Some(id),
        TrayEntry::Checked(id, _, _) => Some(id),
        TrayEntry::Separator => None,
    }
}

/// Build the tray context menu for the current application state.
pub fn tray_menu(st: TrayMenuState) -> (menu: Vec<TrayEntry>)
    ensures
        menu@ == tray_menu_spec(st),
{
    let reset_label = match st.mode {
        PlayMode::Marbles => TrayLabel::SpawnMarble,
        PlayMode::Fidget => TrayLabel::SpawnBall,
    };
    vec![
        TrayEntry::Checked(MENU_TOGGLE_HUD, TrayLabel::ShowHud, st.hud_visible),
        TrayEntry::Checked(MENU_TOGGLE_MODE, TrayLabel::MarbleMode, st.mode == PlayMode::Marbles),
        TrayEntry::Item(MENU_RESET, reset_label),
        TrayEntry::Item(MENU_SPAWN_MARBLE, TrayLabel::SpawnMarble),
        TrayEntry::Item(MENU_SCATTER_MARBLES, TrayLabel::ScatterMarbles),
        TrayEntry::Item(MENU_CLEAR_MARBLES, TrayLabel::ClearMarbles(st.marble_count)),
        TrayEntry::Separator,
        TrayEntry::Checked(MENU_TOGGLE_SPRING, TrayLabel::SpringAttached, st.spring_attached),
        TrayEntry::Checked(
            MENU_TOGGLE_RUBBER_BAND,
            TrayLabel::RubberBandVisual,
            st.rubber_band_visual,
        ),
        TrayEntry::Checked(MENU_SIZE_SMALL, TrayLabel::SizeSmall, st.toy_size == ToySize::Small),
        TrayEntry::Checked(
            MENU_SIZE_MEDIUM,
            TrayLabel::SizeMedium,
            st.toy_size == ToySize::Medium,
        ),
        TrayEntry::Checked(MENU_SIZE_LARGE, TrayLabel::SizeLarge, st.toy_size == ToySize::Large),
        TrayEntry::Checked(MENU_TOGGLE_GRAVITY, TrayLabel::GravityEnabled, st.gravity_enabled),
        TrayEntry::Checked(
            MENU_TOGGLE_BOTTOM_BOUNCE,
            TrayLabel::BounceBottomEdge,
            st.bottom_bounce,
        ),
        TrayEntry::Checked(
            MENU_TOGGLE_SINGLE_MONITOR,
            TrayLabel::SingleMonitorBounds,
            st.single_monitor_bounds,
        ),
        TrayEntry::Item(MENU_NUDGE, TrayLabel::FlingBall),
        TrayEntry::Separator,
        TrayEntry::Item(MENU_QUIT, TrayLabel::Quit),
    ]
}

/// The decimal digit character for `d` (below ten).
pub open spec fn digit_char(d: nat) -> char {
    (48 + d) as char
}

/// The decimal representation of `n`, without leading zeros.
pub open spec fn decimal(n: nat) -> Seq<char>
    decreases n,
{
    if n < 10 {
        seq![digit_char(n)]
    } else {
        decimal(n / 10).push(digit_char(n % 10))
    }
}

/// The caption text of a tray menu item.
pub open spec fn tray_label_text(label: TrayLabel) -> Seq<char> {
    match label {
        TrayLabel::ShowHud => "Show HUD"@,
        TrayLabel::MarbleMode => "Marble mode"@,
        TrayLabel::SpawnBall => "Spawn ball"@,
        TrayLabel::SpawnMarble => "Spawn marble"@,
        TrayLabel::ScatterMarbles => "Scatter marbles"@,
        TrayLabel::ClearMarbles(n) => "Clear marbles ("@ + decimal(n as nat) + ")"@,
        TrayLabel::SpringAttached => "Spring attached"@,
        TrayLabel::RubberBandVisual => "Rubber band visual"@,
        TrayLabel::SizeSmall => "Ball + string: S"@,
        TrayLabel::SizeMedium => "Ball + string: M"@,
        TrayLabel::SizeLarge => "Ball + string: L"@,
        TrayLabel::GravityEnabled => "Gravity enabled"@,
        TrayLabel::BounceBottomEdge => "Bounce bottom edge"@,
        TrayLabel::SingleMonitorBounds => "Single monitor bounds"@,
        TrayLabel::FlingBall => "Fling ball"@,
        TrayLabel::Quit => "Quit"@,
    }
}

fn push_str(out: &mut Vec<char>, text: &str)
    ensures
        final(out)@ == old(out)@ + text@,
{
    broadcast use vstd::string::axiom_spec_iter;

    let ghost start = out@;
    for c in it: text.chars()
        invariant
            it.seq() == text@,
            out@ == start + text@.take(it.index()),
    {
        proof {
            assert(text@.take(it.index() + 1) == text@.take(it.index()).push(c));
        }
        out.push(c);
    }
    assert(text@.take(text@.len() as int) == text@);
}

fn push_digit(out: &mut Vec<char>, d: usize)
    requires
        d < 10,
    ensures
        final(out)@ == old(out)@.push(digit_char(d as nat)),
{
    let c = match d {
        0 => '0',
        1 => '1',
        2 => '2',
        3 => '3',
        4 => '4',
        5 => '5',
        6 => '6',
        7 => '7',
        8 => '8',
        _ => '9',
    };
    out.push(c);
}

fn push_decimal(out: &mut Vec<char>, n: usize)
    ensures
        final(out)@ == old(out)@ + decimal(n as nat),
    decreases n,
{
    if n >= 10 {
        push_decimal(out, n / 10);
    }
    push_digit(out, n % 10);
}

/// The caption of a tray menu item, as characters.
pub fn tray_label(label: TrayLabel) -> (text: Vec<char>)
    ensures
        text@ == tray_label_text(label),
{
    let mut out: Vec<char> = Vec::new();
    match label {
        TrayLabel::ShowHud => push_str(&mut out, "Show HUD"),
        TrayLabel::MarbleMode => push_str(&mut out, "Marble mode"),
        TrayLabel::SpawnBall => push_str(&mut out, "Spawn ball"),
        TrayLabel::SpawnMarble => push_str(&mut out, "Spawn marble"),
        TrayLabel::ScatterMarbles => push_str(&mut out, "Scatter marbles"),
        TrayLabel::ClearMarbles(n) => {
            push_str(&mut out, "Clear marbles (");
            push_decimal(&mut out, n);
            push_str(&mut out, ")");
        },
        TrayLabel::SpringAttached => push_str(&mut out, "Spring attached"),
        TrayLabel::RubberBandVisual => push_str(&mut out, "Rubber band visual"),
        TrayLabel::SizeSmall => push_str(&mut out, "Ball + string: S"),
        TrayLabel::SizeMedium => push_str(&mut out, "Ball + string: M"),
        TrayLabel::SizeLarge => push_str(&mut out, "Ball + string: L"),
        TrayLabel::GravityEnabled => push_str(&mut out, "Gravity enabled"),
        TrayLabel::BounceBottomEdge => push_str(&mut out, "Bounce bottom edge"),
        TrayLabel::SingleMonitorBounds => push_str(&mut out, "Single monitor bounds"),
        TrayLabel::FlingBall => push_str(&mut out, "Fling ball"),
        TrayLabel::Quit => push_str(&mut out, "Quit"),
    }
    assert(out@ =~= tray_label_text(label));
    out
}

/// Every item of the tray menu is bound to a command, no two items share an
/// id, and exactly one size preset is shown checked.
pub proof fn lemma_tray_menu_well_formed(st: TrayMenuState)
    ensures
        forall|i: int|
            0 <= i < tray_menu_spec(st).len() && (#[trigger] entry_id(tray_menu_spec(st)[i])) is Some
                ==> menu_command_spec(entry_id(tray_menu_spec(st)[i])->0) is Some,
        forall|i: int, j: int|
            0 <= i < tray_menu_spec(st).len() && 0 <= j < tray_menu_spec(st).len() && i != j
                && (#[trigger] entry_id(tray_menu_spec(st)[i])) is Some ==> entry_id(
                tray_menu_spec(st)[i],
            ) != #[trigger] entry_id(tray_menu_spec(st)[j]),
        (st.toy_size == ToySize::Small) as int + (st.toy_size == ToySize::Medium) as int + (
        st.toy_size == ToySize::Large) as int == 1,
{
    let m = tray_menu_spec(st);
    assert forall|i: int|
        0 <= i < m.len() && (#[trigger] entry_id(m[i])) is Some implies menu_command_spec(
        entry_id(m[i])->0,
    ) is Some by {
        assert(0 <= i < 18);
    }
}

/// Whether running `cmd` in play mode `mode` does what the caption `label`
/// says: a spawn caption spawns the toy it names (whether or not the ball is
/// on screen), every other caption names its command.
pub open spec fn caption_names(label: TrayLabel, cmd: ShellCommand, mode: PlayMode) -> bool {
    match label {
        TrayLabel::ShowHud => cmd == ShellCommand::Apply(AppAction::ToggleHud),
        TrayLabel::MarbleMode => cmd == ShellCommand::Apply(AppAction::ToggleMode),
        TrayLabel::SpawnBall => cmd matches ShellCommand::Apply(a) && plan_spec(
            a,
            mode,
            true,
        ).contains(CoreStep::SpawnBallRandom) && plan_spec(a, mode, false).contains(
            CoreStep::SpawnBallRandom,
        ),
        TrayLabel::SpawnMarble => cmd matches ShellCommand::Apply(a) && plan_spec(
            a,
            mode,
            true,
        ).contains(CoreStep::SpawnMarbleRandom) && plan_spec(a, mode, false).contains(
            CoreStep::SpawnMarbleRandom,
        ),
        TrayLabel::ScatterMarbles => cmd == ShellCommand::Apply(AppAction::ScatterMarbles),
        TrayLabel::ClearMarbles(_) => cmd == ShellCommand::Apply(AppAction::ClearMarbles),
        TrayLabel::SpringAttached => cmd == ShellCommand::Apply(AppAction::ToggleSpring),
        TrayLabel::RubberBandVisual => cmd == ShellCommand::Apply(AppAction::ToggleSpringVisual),
        TrayLabel::SizeSmall => cmd == ShellCommand::Apply(AppAction::SetToySize(ToySize::Small)),
        TrayLabel::SizeMedium => cmd == ShellCommand::Apply(
            AppAction::SetToySize(ToySize::Medium),
        ),
        TrayLabel::SizeLarge => cmd == ShellCommand::Apply(AppAction::SetToySize(ToySize::Large)),
        TrayLabel::GravityEnabled => cmd == ShellCommand::Apply(AppAction::ToggleGravity),
        TrayLabel::BounceBottomEdge => cmd == ShellCommand::Apply(AppAction::ToggleBottomBounce),
        TrayLabel::SingleMonitorBounds => cmd == ShellCommand::Apply(
            AppAction::ToggleSingleMonitorBounds,
        ),
        TrayLabel::FlingBall => cmd == ShellCommand::Apply(AppAction::Nudge),
        TrayLabel::Quit => cmd == ShellCommand::Quit,
    }
}

/// Every tray menu item does what its caption says: the command its id is
/// bound to is the one the caption names, in the current play mode.
pub proof fn lemma_tray_items_do_what_they_say(st: TrayMenuState)
    ensures
        forall|i: int|
            0 <= i < tray_menu_spec(st).len() ==> match #[trigger] tray_menu_spec(st)[i] {
                TrayEntry::Item(id, label) => menu_command_spec(id) matches Some(cmd)
                    && caption_names(label, cmd, st.mode),
                TrayEntry::Checked(id, label, _) => menu_command_spec(id) matches Some(cmd)
                    && caption_names(label, cmd, st.mode),
                TrayEntry::Separator => true,
            },
{
    let m = tray_menu_spec(st);
    assert(plan_spec(AppAction::Reset, PlayMode::Fidget, true)[1] == CoreStep::SpawnBallRandom);
    assert(plan_spec(AppAction::Reset, PlayMode::Fidget, false)[1] == CoreStep::SpawnBallRandom);
    assert(plan_spec(AppAction::Reset, PlayMode::Marbles, true)[1]
        == CoreStep::SpawnMarbleRandom);
    assert(plan_spec(AppAction::Reset, PlayMode::Marbles, false)[1]
        == CoreStep::SpawnMarbleRandom);
    assert(plan_spec(AppAction::SpawnMarble, st.mode, true)[1] == CoreStep::SpawnMarbleRandom);
    assert(plan_spec(AppAction::SpawnMarble, st.mode, false)[1] == CoreStep::SpawnMarbleRandom);
    assert forall|i: int| 0 <= i < m.len() implies match #[trigger] m[i] {
        TrayEntry::Item(id, label) => menu_command_spec(id) matches Some(cmd) && caption_names(
            label,
            cmd,
            st.mode,
        ),
        TrayEntry::Checked(id, label, _) => menu_command_spec(id) matches Some(cmd)
            && caption_names(label, cmd, st.mode),
        TrayEntry::Separator => true,
    } by {
        assert(0 <= i < 18);
    }
}

} // verus!
