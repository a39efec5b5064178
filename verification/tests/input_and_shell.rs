use fidget_vk::input::{
    hotkey_bindings, hotkey_command, hud_key_from_vk, key_command, menu_command,
    preview_key_command, preview_key_toggles_hud, AppAction, HudKey, PlayMode, PreviewKey,
    ShellCommand, ToySize, HOTKEY_QUIT, HOTKEY_RESET, MENU_CLEAR_MARBLES, MENU_QUIT, MENU_RESET, MENU_SPAWN_MARBLE, MENU_SIZE_LARGE, VK_ESCAPE,
    VK_H, VK_P, VK_R, VK_SPACE,
};
use fidget_vk::platform::{run, ShellKind};
use fidget_vk::shell::{
    right_button_edge, route_message, tray_label, tray_menu, tray_route, TrayEntry, TrayLabel, TrayMenuState,
    WindowRoute, WM_CLOSE, WM_COMMAND, WM_CONTEXTMENU, WM_HOTKEY, WM_KEYDOWN, WM_KEYUP,
    WM_LBUTTONDBLCLK, WM_LBUTTONUP, WM_RBUTTONUP, WM_SIZE, WM_TIMER, WM_TRAY,
};

#[test]
fn plain_keys_map_to_actions() {
    assert_eq!(key_command(VK_ESCAPE), Some(ShellCommand::Quit));
    assert_eq!(key_command(VK_R), Some(ShellCommand::Apply(AppAction::Reset)));
    assert_eq!(key_command(VK_SPACE), Some(ShellCommand::Apply(AppAction::Reset)));
    assert_eq!(key_command(VK_H), Some(ShellCommand::Apply(AppAction::ToggleHud)));
    assert_eq!(key_command(VK_P), Some(ShellCommand::Apply(AppAction::ToggleMode)));
    assert_eq!(key_command(0x41), None);
}

#[test]
fn hud_keys_cover_navigation() {
    assert_eq!(hud_key_from_vk(0x25), Some(HudKey::ArrowLeft));
    assert_eq!(hud_key_from_vk(0x0D), Some(HudKey::Enter));
    assert_eq!(hud_key_from_vk(0x2E), Some(HudKey::Delete));
    assert_eq!(hud_key_from_vk(VK_SPACE), Some(HudKey::Space));
    assert_eq!(hud_key_from_vk(0x5A), None);
}

#[test]
fn every_registered_hotkey_matches_its_plain_key() {
    let bindings = hotkey_bindings();
    assert_eq!(bindings.len(), 7);
    for (id, vk) in bindings {
        assert!(hotkey_command(id).is_some());
        assert_eq!(hotkey_command(id), key_command(vk));
    }
    assert_eq!(hotkey_command(HOTKEY_QUIT), Some(ShellCommand::Quit));
    assert_eq!(hotkey_command(HOTKEY_RESET), Some(ShellCommand::Apply(AppAction::Reset)));
    assert_eq!(hotkey_command(999), None);
}

#[test]
fn menu_ids_map_to_commands() {
    assert_eq!(
        menu_command(MENU_SIZE_LARGE),
        Some(ShellCommand::Apply(AppAction::SetToySize(ToySize::Large)))
    );
    assert_eq!(menu_command(MENU_QUIT), Some(ShellCommand::Quit));
    assert_eq!(menu_command(200), None);
    assert_eq!(menu_command(217), None);
}

#[test]
fn preview_shell_keys() {
    assert_eq!(preview_key_command(PreviewKey::Escape), Some(ShellCommand::Quit));
    assert_eq!(
        preview_key_command(PreviewKey::Digit2),
        Some(ShellCommand::Apply(AppAction::SetToySize(ToySize::Medium)))
    );
    assert_eq!(
        preview_key_command(PreviewKey::M),
        Some(ShellCommand::Apply(AppAction::ToggleSingleMonitorBounds))
    );
    assert_eq!(preview_key_command(PreviewKey::H), None);
    assert_eq!(preview_key_command(PreviewKey::Other), None);
    assert!(preview_key_toggles_hud(PreviewKey::H));
    assert!(!preview_key_toggles_hud(PreviewKey::V));
    // Keys both shells bind do the same thing.
    assert_eq!(preview_key_command(PreviewKey::R), key_command(VK_R));
    assert_eq!(preview_key_command(PreviewKey::Escape), key_command(VK_ESCAPE));
}

#[test]
fn play_mode_toggles_back_and_forth() {
    assert_eq!(PlayMode::Fidget.toggled(), PlayMode::Marbles);
    assert_eq!(PlayMode::Marbles.toggled(), PlayMode::Fidget);
    assert_eq!(PlayMode::Fidget.toggled().toggled(), PlayMode::Fidget);
}

#[test]
fn platform_shell_choice() {
    assert_eq!(run(true), ShellKind::Win32Overlay);
    assert_eq!(run(false), ShellKind::WinitPreview);
}

#[test]
fn messages_route_to_handlers() {
    assert_eq!(route_message(WM_TIMER, 1, 0), WindowRoute::Redraw);
    assert_eq!(route_message(WM_TIMER, 2, 0), WindowRoute::Default);
    assert_eq!(
        route_message(WM_SIZE, 0, ((768 << 16) | 1024) as isize),
        WindowRoute::Resize(1024, 768)
    );
    assert_eq!(route_message(WM_KEYDOWN, 0x52, 0), WindowRoute::Key(0x52, true));
    assert_eq!(route_message(WM_KEYUP, 0x52, 0), WindowRoute::Key(0x52, false));
    assert_eq!(route_message(WM_HOTKEY, 104, 0), WindowRoute::Hotkey(104));
    // The menu id sits in the low word of wParam.
    assert_eq!(route_message(WM_COMMAND, 0x0001_00D2, 0), WindowRoute::Command(210));
    assert_eq!(
        route_message(WM_TRAY, 0, WM_LBUTTONUP as isize),
        WindowRoute::TrayReset
    );
    assert_eq!(
        route_message(WM_TRAY, 0, WM_CONTEXTMENU as isize),
        WindowRoute::TrayMenu
    );
    assert_eq!(route_message(WM_CLOSE, 0, 0), WindowRoute::Close);
    assert_eq!(route_message(0x0400, 0, 0), WindowRoute::Default);
}

#[test]
fn tray_notifications() {
    assert_eq!(tray_route(WM_LBUTTONDBLCLK), WindowRoute::TrayReset);
    assert_eq!(tray_route(WM_RBUTTONUP), WindowRoute::TrayMenu);
    assert_eq!(tray_route(0x0200), WindowRoute::TrayIgnore);
}

#[test]
fn right_button_edges() {
    assert_eq!(right_button_edge(false, true), Some(true));
    assert_eq!(right_button_edge(true, false), Some(false));
    assert_eq!(right_button_edge(true, true), None);
    assert_eq!(right_button_edge(false, false), None);
}

#[test]
fn tray_menu_reflects_state() {
    let st = TrayMenuState {
        hud_visible: true,
        mode: PlayMode::Marbles,
        spring_attached: false,
        rubber_band_visual: true,
        toy_size: ToySize::Medium,
        gravity_enabled: true,
        bottom_bounce: false,
        single_monitor_bounds: true,
        marble_count: 7,
    };
    let menu = tray_menu(st);
    assert_eq!(menu.len(), 18);
    assert_eq!(menu[0], TrayEntry::Checked(201, TrayLabel::ShowHud, true));
    assert_eq!(menu[1], TrayEntry::Checked(213, TrayLabel::MarbleMode, true));
    assert_eq!(menu[2], TrayEntry::Item(MENU_RESET, TrayLabel::SpawnMarble));
    assert_eq!(menu[5], TrayEntry::Item(MENU_CLEAR_MARBLES, TrayLabel::ClearMarbles(7)));
    assert_eq!(menu[6], TrayEntry::Separator);
    assert_eq!(menu[7], TrayEntry::Checked(203, TrayLabel::SpringAttached, false));
    assert_eq!(menu[9], TrayEntry::Checked(210, TrayLabel::SizeSmall, false));
    assert_eq!(menu[10], TrayEntry::Checked(211, TrayLabel::SizeMedium, true));
    assert_eq!(menu[11], TrayEntry::Checked(212, TrayLabel::SizeLarge, false));
    assert_eq!(menu[17], TrayEntry::Item(MENU_QUIT, TrayLabel::Quit));
    for entry in menu {
        match entry {
            TrayEntry::Item(id, _) | TrayEntry::Checked(id, _, _) => {
                assert!(menu_command(id).is_some())
            }
            TrayEntry::Separator => {}
        }
    }
}

#[test]
fn tray_reset_item_names_the_toy_of_the_mode() {
    let st = TrayMenuState {
        hud_visible: false,
        mode: PlayMode::Fidget,
        spring_attached: true,
        rubber_band_visual: false,
        toy_size: ToySize::Small,
        gravity_enabled: false,
        bottom_bounce: true,
        single_monitor_bounds: false,
        marble_count: 0,
    };
    let menu = tray_menu(st);
    assert_eq!(menu[2], TrayEntry::Item(MENU_RESET, TrayLabel::SpawnBall));
    assert_eq!(menu[3], TrayEntry::Item(MENU_SPAWN_MARBLE, TrayLabel::SpawnMarble));
}

fn label(l: TrayLabel) -> String {
    tray_label(l).into_iter().collect()
}

#[test]
fn tray_labels_read_as_captions() {
    assert_eq!(label(TrayLabel::ShowHud), "Show HUD");
    assert_eq!(label(TrayLabel::SpawnBall), "Spawn ball");
    assert_eq!(label(TrayLabel::SpawnMarble), "Spawn marble");
    assert_eq!(label(TrayLabel::SizeMedium), "Ball + string: M");
    assert_eq!(label(TrayLabel::SingleMonitorBounds), "Single monitor bounds");
    assert_eq!(label(TrayLabel::Quit), "Quit");
    assert_eq!(label(TrayLabel::ClearMarbles(0)), "Clear marbles (0)");
    assert_eq!(label(TrayLabel::ClearMarbles(9)), "Clear marbles (9)");
    assert_eq!(label(TrayLabel::ClearMarbles(10)), "Clear marbles (10)");
    assert_eq!(label(TrayLabel::ClearMarbles(2600)), "Clear marbles (2600)");
    assert_eq!(
        label(TrayLabel::ClearMarbles(usize::MAX)),
        format!("Clear marbles ({})", usize::MAX)
    );
}
