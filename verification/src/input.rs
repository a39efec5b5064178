//! Keyboard, hotkey, tray and menu input of the overlay shells, mapped to the
//! shell commands they trigger.

use vstd::prelude::*;

verus! {

/// Size preset of the ball and its string.
#[derive(Debug, Clone, Copy, PartialEq, Eq, Structural)]
pub enum ToySize {
    Small,
    Medium,
    Large,
}

/// Which toy the overlay shows.
#[derive(Debug, Clone, Copy, PartialEq, Eq, Structural)]
pub enum PlayMode {
    Fidget,
    Marbles,
}

/// The other play mode.
pub open spec fn mode_toggled(m: PlayMode) -> PlayMode {
    match m {
        PlayMode::Fidget => PlayMode::Marbles,
        PlayMode::Marbles => PlayMode::Fidget,
    }
}

impl PlayMode {
    /// The other play mode.
    pub fn toggled(self) -> (m: PlayMode)
        ensures
            m == mode_toggled(self),
    {
        match self {
            PlayMode::Fidget => PlayMode::Marbles,
            PlayMode::Marbles => PlayMode::Fidget,
        }
    }
}

/// Something the user asked the application to do.
#[derive(Debug, Clone, Copy, PartialEq, Eq, Structural)]
pub enum AppAction {
    Reset,
    ToggleSpring,
    ToggleSpringVisual,
    ToggleGravity,
    ToggleBottomBounce,
    ToggleSingleMonitorBounds,
    ToggleHud,
    Nudge,
    ToggleMode,
    SpawnMarble,
    ClearMarbles,
    ScatterMarbles,
    SetToySize(ToySize),
}

/// What a shell does in response to an input: quit, or hand an action to
/// the application core.
#[derive(Debug, Clone, Copy, PartialEq, Eq, Structural)]
pub enum ShellCommand {
    Quit,
    Apply(AppAction),
}

/// Keys the Win32 shell forwards to the HUD.
#[derive(Debug, Clone, Copy, PartialEq, Eq, Structural)]
pub enum HudKey {
    Escape,
    Space,
    R,
    C,
    G,
    H,
    N,
    P,
    ArrowLeft,
    ArrowUp,
    ArrowRight,
    ArrowDown,
    Tab,
    Enter,
    Backspace,
    Delete,
}

pub const VK_C: u32 = 0x43;
pub const VK_G: u32 = 0x47;
pub const VK_H: u32 = 0x48;
pub const VK_N: u32 = 0x4E;
pub const VK_P: u32 = 0x50;
pub const VK_R: u32 = 0x52;
pub const VK_SPACE: u32 = 0x20;
pub const VK_ESCAPE: u32 = 0x1B;

pub const HOTKEY_RESET: i32 = 101;
pub const HOTKEY_TOGGLE_SPRING: i32 = 102;
pub const HOTKEY_TOGGLE_GRAVITY: i32 = 103;
pub const HOTKEY_TOGGLE_HUD: i32 = 104;
pub const HOTKEY_NUDGE: i32 = 105;
pub const HOTKEY_QUIT: i32 = 106;
pub const HOTKEY_TOGGLE_MODE: i32 = 107;

pub const MENU_TOGGLE_HUD: usize = 201;
pub const MENU_RESET: usize = 202;
pub const MENU_TOGGLE_SPRING: usize = 203;
pub const MENU_TOGGLE_GRAVITY: usize = 204;
pub const MENU_NUDGE: usize = 205;
pub const MENU_QUIT: usize = 206;
pub const MENU_TOGGLE_RUBBER_BAND: usize = 207;
pub const MENU_TOGGLE_BOTTOM_BOUNCE: usize = 208;
pub const MENU_TOGGLE_SINGLE_MONITOR: usize = 209;
pub const MENU_SIZE_SMALL: usize = 210;
pub const MENU_SIZE_MEDIUM: usize = 211;
pub const MENU_SIZE_LARGE: usize = 212;
pub const MENU_TOGGLE_MODE: usize = 213;
pub const MENU_SPAWN_MARBLE: usize = 214;
pub const MENU_CLEAR_MARBLES: usize = 215;
pub const MENU_SCATTER_MARBLES: usize = 216;

/// The HUD key for a Win32 virtual-key code, if it is one the HUD handles.
pub open spec fn hud_key_spec(vk: u32) -> Option<HudKey> {
    if vk == VK_ESCAPE {
        Some(HudKey::Escape)
    } else if vk == VK_SPACE {
        Some(HudKey::Space)
    } else if vk == VK_R {
        Some(HudKey::R)
    } else if vk == VK_C {
        Some(HudKey::C)
    } else if vk == VK_G {
        Some(HudKey::G)
    } else if vk == VK_H {
        Some(HudKey::H)
    } else if vk == VK_N {
        Some(HudKey::N)
    } else if vk == VK_P {
        Some(HudKey::P)
    } else if vk == 0x25 {
        Some(HudKey::ArrowLeft)
    } else if vk == 0x26 {
        Some(HudKey::ArrowUp)
    } else if vk == 0x27 {
        Some(HudKey::ArrowRight)
    } else if vk == 0x28 {
        Some(HudKey::ArrowDown)
    } else if vk == 0x09 {
        Some(HudKey::Tab)
    } else if vk == 0x0D {
        Some(HudKey::Enter)
    } else if vk == 0x08 {
        Some(HudKey::Backspace)
    } else if vk == 0x2E {
        Some(HudKey::Delete)
    } else {
        None
    }
}

/// Shell command bound to a plain key press in the overlay window.
pub open spec fn key_command_spec(vk: u32) -> Option<ShellCommand> {
    if vk == VK_ESCAPE {
        Some(ShellCommand::Quit)
    } else if vk == VK_R || vk == VK_SPACE {
        Some(ShellCommand::Apply(AppAction::Reset))
    } else if vk == VK_C {
        Some(ShellCommand::Apply(AppAction::ToggleSpring))
    } else if vk == VK_G {
        Some(ShellCommand::Apply(AppAction::ToggleGravity))
    } else if vk == VK_H {
        Some(ShellCommand::Apply(AppAction::ToggleHud))
    } else if vk == VK_N {
        Some(ShellCommand::Apply(AppAction::Nudge))
    } else if vk == VK_P {
        Some(ShellCommand::Apply(AppAction::ToggleMode))
    } else {
        None
    }
}

/// Shell command bound to a global (Ctrl+Alt) hotkey id.
pub open spec fn hotkey_command_spec(id: i32) -> Option<ShellCommand> {
    if id == HOTKEY_RESET {
        Some(ShellCommand::Apply(AppAction::Reset))
    } else if id == HOTKEY_TOGGLE_SPRING {
        Some(ShellCommand::Apply(AppAction::ToggleSpring))
    } else if id == HOTKEY_TOGGLE_GRAVITY {
        Some(ShellCommand::Apply(AppAction::ToggleGravity))
    } else if id == HOTKEY_TOGGLE_HUD {
        Some(ShellCommand::Apply(AppAction::ToggleHud))
    } else if id == HOTKEY_NUDGE {
        Some(ShellCommand::Apply(AppAction::Nudge))
    } else if id == HOTKEY_TOGGLE_MODE {
        Some(ShellCommand::Apply(AppAction::ToggleMode))
    } else if id == HOTKEY_QUIT {
        Some(ShellCommand::Quit)
    } else {
        None
    }
}

/// Shell command bound to a tray-menu item id.
pub open spec fn menu_command_spec(id: usize) -> Option<ShellCommand> {
    if id == MENU_TOGGLE_HUD {
        Some(ShellCommand::Apply(AppAction::ToggleHud))
    } else if id == MENU_TOGGLE_MODE {
        Some(ShellCommand::Apply(AppAction::ToggleMode))
    } else if id == MENU_RESET {
        Some(ShellCommand::Apply(AppAction::Reset))
    } else if id == MENU_SPAWN_MARBLE {
        Some(ShellCommand::Apply(AppAction::SpawnMarble))
    } else if id == MENU_CLEAR_MARBLES {
        Some(ShellCommand::Apply(AppAction::ClearMarbles))
    } else if id == MENU_SCATTER_MARBLES {
        Some(ShellCommand::Apply(AppAction::ScatterMarbles))
    } else if id == MENU_TOGGLE_SPRING {
        Some(ShellCommand::Apply(AppAction::ToggleSpring))
    } else if id == MENU_TOGGLE_RUBBER_BAND {
        Some(ShellCommand::Apply(AppAction::ToggleSpringVisual))
    } else if id == MENU_TOGGLE_GRAVITY {
        Some(ShellCommand::Apply(AppAction::ToggleGravity))
    } else if id == MENU_TOGGLE_BOTTOM_BOUNCE {
        Some(ShellCommand::Apply(AppAction::ToggleBottomBounce))
    } else if id == MENU_TOGGLE_SINGLE_MONITOR {
        Some(ShellCommand::Apply(AppAction::ToggleSingleMonitorBounds))
    } else if id == MENU_SIZE_SMALL {
        Some(ShellCommand::Apply(AppAction::SetToySize(ToySize::Small)))
    } else if id == MENU_SIZE_MEDIUM {
        Some(ShellCommand::Apply(AppAction::SetToySize(ToySize::Medium)))
    } else if id == MENU_SIZE_LARGE {
        Some(ShellCommand::Apply(AppAction::SetToySize(ToySize::Large)))
    } else if id == MENU_NUDGE {
        Some(ShellCommand::Apply(AppAction::Nudge))
    } else if id == MENU_QUIT {
        Some(ShellCommand::Quit)
    } else {
        None
    }
}

/// Physical keys the winit preview shell reacts to.
#[derive(Debug, Clone, Copy, PartialEq, Eq, Structural)]
pub enum PreviewKey {
    Escape,
    R,
    Space,
    C,
    G,
    H,
    N,
    V,
    B,
    M,
    Digit1,
    Digit2,
    Digit3,
    /// Any other key.
    Other,
}

/// Shell command a key press triggers in the winit preview shell once the
/// HUD has not consumed it. `H` is absent: it toggles the HUD before the HUD
/// sees the event (see [`preview_key_toggles_hud`]).
pub open spec fn preview_key_command_spec(key: PreviewKey) -> Option<ShellCommand> {
    match key {
        PreviewKey::Escape => Some(ShellCommand::Quit),
        PreviewKey::R | PreviewKey::Space => Some(ShellCommand::Apply(AppAction::Reset)),
        PreviewKey::C => Some(ShellCommand::Apply(AppAction::ToggleSpring)),
        PreviewKey::G => Some(ShellCommand::Apply(AppAction::ToggleGravity)),
        PreviewKey::N => Some(ShellCommand::Apply(AppAction::Nudge)),
        PreviewKey::V => Some(ShellCommand::Apply(AppAction::ToggleSpringVisual)),
        PreviewKey::B => Some(ShellCommand::Apply(AppAction::ToggleBottomBounce)),
        PreviewKey::M => Some(ShellCommand::Apply(AppAction::ToggleSingleMonitorBounds)),
        PreviewKey::Digit1 => Some(ShellCommand::Apply(AppAction::SetToySize(ToySize::Small))),
        PreviewKey::Digit2 => Some(ShellCommand::Apply(AppAction::SetToySize(ToySize::Medium))),
        PreviewKey::Digit3 => Some(ShellCommand::Apply(AppAction::SetToySize(ToySize::Large))),
        PreviewKey::H | PreviewKey::Other => None,
    }
}

/// The command a key press triggers in the winit preview shell.
pub fn preview_key_command(key: PreviewKey) -> (cmd: Option<ShellCommand>)
    ensures
        cmd == preview_key_command_spec(key),
{
    match key {
        PreviewKey::Escape => Some(ShellCommand::Quit),
        PreviewKey::R | PreviewKey::Space => Some(ShellCommand::Apply(AppAction::Reset)),
        PreviewKey::C => Some(ShellCommand::Apply(AppAction::ToggleSpring)),
        PreviewKey::G => Some(ShellCommand::Apply(AppAction::ToggleGravity)),
        PreviewKey::N => Some(ShellCommand::Apply(AppAction::Nudge)),
        PreviewKey::V => Some(ShellCommand::Apply(AppAction::ToggleSpringVisual)),
        PreviewKey::B => Some(ShellCommand::Apply(AppAction::ToggleBottomBounce)),
        PreviewKey::M => Some(ShellCommand::Apply(AppAction::ToggleSingleMonitorBounds)),
        PreviewKey::Digit1 => Some(ShellCommand::Apply(AppAction::SetToySize(ToySize::Small))),
        PreviewKey::Digit2 => Some(ShellCommand::Apply(AppAction::SetToySize(ToySize::Medium))),
        PreviewKey::Digit3 => Some(ShellCommand::Apply(AppAction::SetToySize(ToySize::Large))),
        PreviewKey::H | PreviewKey::Other => None,
    }
}

/// Whether a key press toggles the HUD in the winit preview shell; this
/// happens before (and regardless of) the HUD consuming the event.
pub fn preview_key_toggles_hud(key: PreviewKey) -> (b: bool)
    ensures
        b == (key == PreviewKey::H),
{
    match key {
        PreviewKey::H => true,
        _ => false,
    }
}

/// The Win32 virtual-key code of a preview-shell key both shells bind.
pub open spec fn shared_key_vk(key: PreviewKey) -> Option<u32> {
    match key {
        PreviewKey::Escape => Some(VK_ESCAPE),
        PreviewKey::R => Some(VK_R),
        PreviewKey::Space => Some(VK_SPACE),
        PreviewKey::C => Some(VK_C),
        PreviewKey::G => Some(VK_G),
        PreviewKey::N => Some(VK_N),
        _ => None,
    }
}

/// The two shells agree on the keys they both bind: quit, reset, cutting or
/// recalling the spring, gravity and the fling.
pub proof fn lemma_shells_agree_on_shared_keys(key: PreviewKey)
    ensures
        shared_key_vk(key) matches Some(vk) ==> key_command_spec(vk) == preview_key_command_spec(
            key,
        ),
{
}

/// The HUD key for a Win32 virtual-key code.
pub fn hud_key_from_vk(vk: u32) -> (key: Option<HudKey>)
    ensures
        key == hud_key_spec(vk),
{
    match vk {
        VK_ESCAPE => Some(HudKey::Escape),
        VK_SPACE => Some(HudKey::Space),
        VK_R => Some(HudKey::R),
        VK_C => Some(HudKey::C),
        VK_G => Some(HudKey::G),
        VK_H => Some(HudKey::H),
        VK_N => Some(HudKey::N),
        VK_P => Some(HudKey::P),
        0x25 => Some(HudKey::ArrowLeft),
        0x26 => Some(HudKey::ArrowUp),
        0x27 => Some(HudKey::ArrowRight),
        0x28 => Some(HudKey::ArrowDown),
        0x09 => Some(HudKey::Tab),
        0x0D => Some(HudKey::Enter),
        0x08 => Some(HudKey::Backspace),
        0x2E => Some(HudKey::Delete),
        _ => None,
    }
}

/// The command a plain key press in the overlay window triggers.
pub fn key_command(vk: u32) -> (cmd: Option<ShellCommand>)
    ensures
        cmd == key_command_spec(vk),
{
    match vk {
        VK_ESCAPE => Some(ShellCommand::Quit),
        VK_R | VK_SPACE => Some(ShellCommand::Apply(AppAction::Reset)),
        VK_C => Some(ShellCommand::Apply(AppAction::ToggleSpring)),
        VK_G => Some(ShellCommand::Apply(AppAction::ToggleGravity)),
        VK_H => Some(ShellCommand::Apply(AppAction::ToggleHud)),
        VK_N => Some(ShellCommand::Apply(AppAction::Nudge)),
        VK_P => Some(ShellCommand::Apply(AppAction::ToggleMode)),
        _ => None,
    }
}

/// The command a global hotkey triggers.
pub fn hotkey_command(id: i32) -> (cmd: Option<ShellCommand>)
    ensures
        cmd == hotkey_command_spec(id),
{
    match id {
        HOTKEY_RESET => Some(ShellCommand::Apply(AppAction::Reset)),
        HOTKEY_TOGGLE_SPRING => Some(ShellCommand::Apply(AppAction::ToggleSpring)),
        HOTKEY_TOGGLE_GRAVITY => Some(ShellCommand::Apply(AppAction::ToggleGravity)),
        HOTKEY_TOGGLE_HUD => Some(ShellCommand::Apply(AppAction::ToggleHud)),
        HOTKEY_NUDGE => Some(ShellCommand::Apply(AppAction::Nudge)),
        HOTKEY_TOGGLE_MODE => Some(ShellCommand::Apply(AppAction::ToggleMode)),
        HOTKEY_QUIT => Some(ShellCommand::Quit),
        _ => None,
    }
}

/// The command a tray-menu item triggers.
pub fn menu_command(id: usize) -> (cmd: Option<ShellCommand>)
    ensures
        cmd == menu_command_spec(id),
{
    match id {
        MENU_TOGGLE_HUD => Some(ShellCommand::Apply(AppAction::ToggleHud)),
        MENU_TOGGLE_MODE => Some(ShellCommand::Apply(AppAction::ToggleMode)),
        MENU_RESET => Some(ShellCommand::Apply(AppAction::Reset)),
        MENU_SPAWN_MARBLE => Some(ShellCommand::Apply(AppAction::SpawnMarble)),
        MENU_CLEAR_MARBLES => Some(ShellCommand::Apply(AppAction::ClearMarbles)),
        MENU_SCATTER_MARBLES => Some(ShellCommand::Apply(AppAction::ScatterMarbles)),
        MENU_TOGGLE_SPRING => Some(ShellCommand::Apply(AppAction::ToggleSpring)),
        MENU_TOGGLE_RUBBER_BAND => Some(ShellCommand::Apply(AppAction::ToggleSpringVisual)),
        MENU_TOGGLE_GRAVITY => Some(ShellCommand::Apply(AppAction::ToggleGravity)),
        MENU_TOGGLE_BOTTOM_BOUNCE => Some(ShellCommand::Apply(AppAction::ToggleBottomBounce)),
        MENU_TOGGLE_SINGLE_MONITOR => Some(
            ShellCommand::Apply(AppAction::ToggleSingleMonitorBounds),
        ),
        MENU_SIZE_SMALL => Some(ShellCommand::Apply(AppAction::SetToySize(ToySize::Small))),
        MENU_SIZE_MEDIUM => Some(ShellCommand::Apply(AppAction::SetToySize(ToySize::Medium))),
        MENU_SIZE_LARGE => Some(ShellCommand::Apply(AppAction::SetToySize(ToySize::Large))),
        MENU_NUDGE => Some(ShellCommand::Apply(AppAction::Nudge)),
        MENU_QUIT => Some(ShellCommand::Quit),
        _ => None,
    }
}

/// The (hotkey id, virtual key) pairs registered as Ctrl+Alt global hotkeys,
/// in registration order.
pub fn hotkey_bindings() -> (b: Vec<(i32, u32)>)
    ensures
        b@ == seq![
            (HOTKEY_RESET, VK_R),
            (HOTKEY_TOGGLE_SPRING, VK_C),
            (HOTKEY_TOGGLE_GRAVITY, VK_G),
            (HOTKEY_TOGGLE_HUD, VK_H),
            (HOTKEY_NUDGE, VK_N),
            (HOTKEY_TOGGLE_MODE, VK_P),
            (HOTKEY_QUIT, VK_ESCAPE),
        ],
{
    vec![
        (HOTKEY_RESET, VK_R),
        (HOTKEY_TOGGLE_SPRING, VK_C),
        (HOTKEY_TOGGLE_GRAVITY, VK_G),
        (HOTKEY_TOGGLE_HUD, VK_H),
        (HOTKEY_NUDGE, VK_N),
        (HOTKEY_TOGGLE_MODE, VK_P),
        (HOTKEY_QUIT, VK_ESCAPE),
    ]
}

/// Each registered Ctrl+Alt hotkey does exactly what its plain key does in
/// the focused overlay, and distinct hotkeys use distinct ids.
pub proof fn lemma_hotkeys_match_plain_keys()
    ensures
        forall|i: int|
            0 <= i < 7 ==> {
                let pair = #[trigger] hotkey_pairs()[i];
                &&& hotkey_command_spec(pair.0) == key_command_spec(pair.1)
                &&& hotkey_command_spec(pair.0) is Some
            },
        forall|i: int, j: int|
            0 <= i < 7 && 0 <= j < 7 && i != j ==> #[trigger] hotkey_pairs()[i].0
                != #[trigger] hotkey_pairs()[j].0,
{
}

/// The registered hotkey table, as a sequence.
pub open spec fn hotkey_pairs() -> Seq<(i32, u32)> {
    seq![
        (HOTKEY_RESET, VK_R),
        (HOTKEY_TOGGLE_SPRING, VK_C),
        (HOTKEY_TOGGLE_GRAVITY, VK_G),
        (HOTKEY_TOGGLE_HUD, VK_H),
        (HOTKEY_NUDGE, VK_N),
        (HOTKEY_TOGGLE_MODE, VK_P),
        (HOTKEY_QUIT, VK_ESCAPE),
    ]
}

/// Toggling the play mode always changes it, and toggling twice gives the
/// original mode back.
pub proof fn lemma_mode_toggle_involution(m: PlayMode)
    ensures
        mode_toggled(m) != m,
        mode_toggled(mode_toggled(m)) == m,
{
}

/// A key and a tray item bound to the same operation do the same thing:
/// each overlay key gives the command of the tray item for that operation,
/// and so does each key of the preview shell.
pub proof fn lemma_keys_and_tray_items_agree()
    ensures
        key_command_spec(VK_ESCAPE) == menu_command_spec(MENU_QUIT),
        key_command_spec(VK_R) == menu_command_spec(MENU_RESET),
        key_command_spec(VK_SPACE) == menu_command_spec(MENU_RESET),
        key_command_spec(VK_C) == menu_command_spec(MENU_TOGGLE_SPRING),
        key_command_spec(VK_G) == menu_command_spec(MENU_TOGGLE_GRAVITY),
        key_command_spec(VK_H) == menu_command_spec(MENU_TOGGLE_HUD),
        key_command_spec(VK_N) == menu_command_spec(MENU_NUDGE),
        key_command_spec(VK_P) == menu_command_spec(MENU_TOGGLE_MODE),
        preview_key_command_spec(PreviewKey::Escape) == menu_command_spec(MENU_QUIT),
        preview_key_command_spec(PreviewKey::R) == menu_command_spec(MENU_RESET),
        preview_key_command_spec(PreviewKey::Space) == menu_command_spec(MENU_RESET),
        preview_key_command_spec(PreviewKey::C) == menu_command_spec(MENU_TOGGLE_SPRING),
        preview_key_command_spec(PreviewKey::G) == menu_command_spec(MENU_TOGGLE_GRAVITY),
        preview_key_command_spec(PreviewKey::N) == menu_command_spec(MENU_NUDGE),
        preview_key_command_spec(PreviewKey::V) == menu_command_spec(MENU_TOGGLE_RUBBER_BAND),
        preview_key_command_spec(PreviewKey::B) == menu_command_spec(MENU_TOGGLE_BOTTOM_BOUNCE),
        preview_key_command_spec(PreviewKey::M) == menu_command_spec(MENU_TOGGLE_SINGLE_MONITOR),
        preview_key_command_spec(PreviewKey::Digit1) == menu_command_spec(MENU_SIZE_SMALL),
        preview_key_command_spec(PreviewKey::Digit2) == menu_command_spec(MENU_SIZE_MEDIUM),
        preview_key_command_spec(PreviewKey::Digit3) == menu_command_spec(MENU_SIZE_LARGE),
{
}

} // verus!
