use bt_audio_receiver::menu::{action_for, build_menu, MenuAction, MenuEntry};
use bt_audio_receiver::receiver::BTDevice;
use bt_audio_receiver::updater::{registry_action, RegistryAction, UpdateAction, Updater};
use bt_audio_receiver::worker::Command;

fn dev(name: &str) -> BTDevice {
    BTDevice { name: name.to_string(), id: Some(format!("id-{}", name)) }
}

fn footer(autostart: bool) -> Vec<MenuEntry> {
    vec![
        MenuEntry::Separator,
        MenuEntry::Refresh,
        MenuEntry::CheckUpdate,
        MenuEntry::Autostart(autostart),
        MenuEntry::Separator,
        MenuEntry::Quit,
    ]
}

#[test]
fn menu_without_devices_shows_placeholder() {
    let mut expected = vec![MenuEntry::NoDevices];
    expected.extend(footer(false));
    assert_eq!(build_menu(&Vec::new(), &None, false), expected);
}

#[test]
fn menu_lists_devices_except_connected() {
    let devs = vec![dev("Speaker-A"), dev("Speaker-B")];
    let menu = build_menu(&devs, &Some("Speaker-A".to_string()), true);
    let mut expected = vec![
        MenuEntry::Status("Speaker-A".to_string()),
        MenuEntry::Reconnect("Speaker-A".to_string()),
        MenuEntry::Separator,
        MenuEntry::Disconnect,
        MenuEntry::Separator,
        MenuEntry::Device("Speaker-B".to_string()),
    ];
    expected.extend(footer(true));
    assert_eq!(menu, expected);
}

#[test]
fn menu_entries_map_to_actions() {
    assert_eq!(action_for(&MenuEntry::Device("Speaker-A".to_string())),
        MenuAction::Submit(Command::Connect("Speaker-A".to_string())));
    assert_eq!(action_for(&MenuEntry::Reconnect("Speaker-A".to_string())),
        MenuAction::Submit(Command::Reconnect("Speaker-A".to_string())));
    assert_eq!(action_for(&MenuEntry::Disconnect), MenuAction::Submit(Command::Disconnect));
    assert_eq!(action_for(&MenuEntry::Refresh), MenuAction::Submit(Command::Scan));
    assert_eq!(action_for(&MenuEntry::CheckUpdate), MenuAction::CheckUpdate);
    assert_eq!(action_for(&MenuEntry::Autostart(true)), MenuAction::ToggleAutostart);
    assert_eq!(action_for(&MenuEntry::Quit), MenuAction::Quit);
    assert_eq!(action_for(&MenuEntry::Status("Speaker-A".to_string())), MenuAction::Ignore);
    assert_eq!(action_for(&MenuEntry::NoDevices), MenuAction::Ignore);
}

#[test]
fn update_decisions() {
    assert_eq!(Updater::decide(false, 0, None), UpdateAction::ShowNoReleases);
    assert_eq!(Updater::decide(true, 0, Some(true)), UpdateAction::Nothing);
    assert_eq!(Updater::decide(true, 3, Some(true)), UpdateAction::OfferUpdate);
    assert_eq!(Updater::decide(false, 3, Some(false)), UpdateAction::ShowUpToDate);
    assert_eq!(Updater::decide(false, 3, None), UpdateAction::ShowUpToDate);
    assert_eq!(Updater::decide(true, 3, None), UpdateAction::Nothing);
}

#[test]
fn registry_decisions() {
    assert_eq!(registry_action(Some(1), Some(1), Some(1), false), RegistryAction::Nothing);
    assert_eq!(registry_action(Some(1), Some(0), Some(1), false), RegistryAction::Elevate);
    assert_eq!(registry_action(None, None, Some(1), true), RegistryAction::ApplyFix);
    assert_eq!(registry_action(Some(1), Some(1), None, false), RegistryAction::Elevate);
}
