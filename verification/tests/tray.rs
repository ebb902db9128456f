use spout_transparent::config::FrameRate;
use spout_transparent::spout::SenderName;
use spout_transparent::tray::{
    action_from_command, checked, context_menu, decode_rate, decode_state, disabled, encode_rate,
    encode_state, resolve_command, source_menu, tray_message, MenuEntry, TrayAction, TrayChoice,
    TrayIcon, TrayMessage, TrayState, CMD_FPS_120, CMD_FPS_30, CMD_FPS_60, CMD_FPS_UNLIMITED,
    CMD_QUIT, CMD_SOURCE_BASE, CMD_TOGGLE_INTERACTION, CMD_TOGGLE_TOPMOST, CMD_TOGGLE_VISIBILITY,
    MAX_SOURCE_COMMANDS, TRAY_CALLBACK_MESSAGE, WM_CONTEXTMENU, WM_LBUTTONDBLCLK, WM_RBUTTONUP,
};

fn sender(name: &str) -> SenderName {
    SenderName::from_slot(name.as_bytes()).unwrap()
}

fn plain_state() -> TrayState {
    TrayState {
        visible: true,
        interaction: false,
        topmost: true,
        frame_rate: FrameRate::Fps60,
        has_source: true,
    }
}

#[test]
fn tray_state_round_trips() {
    let state = TrayState {
        visible: false,
        interaction: true,
        topmost: true,
        frame_rate: FrameRate::Fps30,
        has_source: true,
    };
    let decoded = decode_state(encode_state(state));
    assert!(!decoded.visible);
    assert!(decoded.interaction);
    assert!(decoded.topmost);
    assert_eq!(decoded.frame_rate, FrameRate::Fps30);
    assert!(decoded.has_source);
}

#[test]
fn frame_rate_commands_map_to_explicit_rates() {
    assert_eq!(
        action_from_command(CMD_FPS_60),
        Some(TrayAction::SetFrameRate(FrameRate::Fps60))
    );
    assert_eq!(action_from_command(0), None);
    assert_eq!(
        action_from_command(CMD_SOURCE_BASE + 3),
        Some(TrayAction::SelectSource(3))
    );
}

#[test]
fn state_has_its_bits() {
    let state = TrayState {
        visible: true,
        interaction: false,
        topmost: true,
        frame_rate: FrameRate::Fps60,
        has_source: true,
    };
    assert_eq!(encode_state(state), 1 + 4 + 16 + 32);
    assert_eq!(decode_state(0).frame_rate, FrameRate::Unlimited);
    assert!(!decode_state(0).visible);
    assert_eq!(decode_state(u32::MAX).frame_rate, FrameRate::Fps30);
}

#[test]
fn rates_have_their_numbers() {
    let rates = [
        FrameRate::Unlimited,
        FrameRate::Fps120,
        FrameRate::Fps60,
        FrameRate::Fps30,
    ];
    for (number, rate) in rates.into_iter().enumerate() {
        assert_eq!(encode_rate(rate), number as u32);
        assert_eq!(decode_rate(number as u32), rate);
    }
    assert_eq!(decode_rate(4), FrameRate::Unlimited);
}

#[test]
fn every_command_has_its_action() {
    assert_eq!(
        action_from_command(CMD_TOGGLE_VISIBILITY),
        Some(TrayAction::ToggleVisibility)
    );
    assert_eq!(
        action_from_command(CMD_TOGGLE_INTERACTION),
        Some(TrayAction::ToggleInteraction)
    );
    assert_eq!(
        action_from_command(CMD_TOGGLE_TOPMOST),
        Some(TrayAction::ToggleTopmost)
    );
    assert_eq!(
        action_from_command(CMD_FPS_UNLIMITED),
        Some(TrayAction::SetFrameRate(FrameRate::Unlimited))
    );
    assert_eq!(
        action_from_command(CMD_FPS_120),
        Some(TrayAction::SetFrameRate(FrameRate::Fps120))
    );
    assert_eq!(
        action_from_command(CMD_FPS_30),
        Some(TrayAction::SetFrameRate(FrameRate::Fps30))
    );
    assert_eq!(action_from_command(CMD_QUIT), Some(TrayAction::Quit));
    assert_eq!(
        action_from_command(CMD_SOURCE_BASE),
        Some(TrayAction::SelectSource(0))
    );
    assert_eq!(
        action_from_command(CMD_SOURCE_BASE + 511),
        Some(TrayAction::SelectSource(511))
    );
    assert_eq!(action_from_command(CMD_SOURCE_BASE + 512), None);
    assert_eq!(action_from_command(1004), None);
}

#[test]
fn menu_flags_follow_their_conditions() {
    assert_eq!(checked(true), 8);
    assert_eq!(checked(false), 0);
    assert_eq!(disabled(true), 1);
    assert_eq!(disabled(false), 0);
}

#[test]
fn menu_without_sources_offers_none() {
    let state = TrayState {
        has_source: false,
        visible: false,
        ..plain_state()
    };
    let menu = context_menu(state, &Vec::new(), &None);
    assert_eq!(menu.len(), 7);
    match &menu[0] {
        MenuEntry::Item(item) => {
            assert_eq!(item.label, "无可用来源");
            assert!(item.grayed);
        }
        _ => panic!("the first entry is a line"),
    }
    match &menu[1] {
        MenuEntry::Submenu(title, items) => {
            assert_eq!(title, "来源");
            assert_eq!(items.len(), 1);
            assert_eq!(items[0].command, 0);
            assert_eq!(items[0].label, "无可用来源");
            assert!(items[0].grayed);
        }
        _ => panic!("the second entry is a menu"),
    }
}

#[test]
fn menu_shows_the_state() {
    let labels = vec!["Alpha".to_string(), "Beta & Co".to_string()];
    let menu = context_menu(plain_state(), &labels, &Some("Beta & Co".to_string()));
    match &menu[0] {
        MenuEntry::Item(item) => {
            assert_eq!(item.command, CMD_TOGGLE_VISIBILITY);
            assert_eq!(item.label, "隐藏窗口");
            assert!(!item.grayed);
        }
        _ => panic!("the first entry is a line"),
    }
    match &menu[1] {
        MenuEntry::Submenu(_, items) => {
            assert_eq!(items.len(), 2);
            assert_eq!(items[0].label, "Alpha");
            assert!(!items[0].checked);
            assert_eq!(items[1].label, "Beta && Co");
            assert!(items[1].checked);
            assert_eq!(items[1].command, CMD_SOURCE_BASE + 1);
        }
        _ => panic!("the second entry is a menu"),
    }
    match (&menu[2], &menu[3]) {
        (MenuEntry::Item(interaction), MenuEntry::Item(topmost)) => {
            assert_eq!(interaction.label, "交互模式");
            assert!(!interaction.checked);
            assert_eq!(topmost.label, "窗口置顶");
            assert!(topmost.checked);
        }
        _ => panic!("two switches follow"),
    }
    match &menu[4] {
        MenuEntry::Submenu(title, items) => {
            assert_eq!(title, "帧率");
            let labels: Vec<&str> = items.iter().map(|item| item.label.as_str()).collect();
            assert_eq!(labels, ["不限制", "120 FPS", "60 FPS", "30 FPS"]);
            let marks: Vec<bool> = items.iter().map(|item| item.checked).collect();
            assert_eq!(marks, [false, false, true, false]);
        }
        _ => panic!("the rates follow"),
    }
    assert!(matches!(menu[5], MenuEntry::Separator));
    match &menu[6] {
        MenuEntry::Item(item) => {
            assert_eq!(item.command, CMD_QUIT);
            assert_eq!(item.label, "退出");
        }
        _ => panic!("the last entry is a line"),
    }
}

#[test]
fn hidden_window_can_be_shown() {
    let state = TrayState {
        visible: false,
        ..plain_state()
    };
    match &context_menu(state, &Vec::new(), &None)[0] {
        MenuEntry::Item(item) => assert_eq!(item.label, "显示窗口"),
        _ => panic!("the first entry is a line"),
    }
}

#[test]
fn only_so_many_sources_get_a_line() {
    let labels: Vec<String> = (0..600).map(|i| format!("sender {i}")).collect();
    let items = source_menu(&labels, &None);
    assert_eq!(items.len(), MAX_SOURCE_COMMANDS);
    assert_eq!(items[511].label, "sender 511");
    assert_eq!(items[511].command, CMD_SOURCE_BASE + 511);
}

#[test]
fn commands_resolve_to_names() {
    let names = vec![sender("Alpha"), sender("Beta")];
    match resolve_command(CMD_SOURCE_BASE + 1, &names) {
        Some(TrayChoice::Source(name)) => assert_eq!(name.display_name(), "Beta"),
        _ => panic!("unexpected choice"),
    }
    assert!(resolve_command(CMD_SOURCE_BASE + 2, &names).is_none());
    assert!(resolve_command(0, &names).is_none());
    match resolve_command(CMD_QUIT, &names) {
        Some(TrayChoice::Action(action)) => assert_eq!(action, TrayAction::Quit),
        _ => panic!("unexpected choice"),
    }
}

#[test]
fn later_refresh_does_not_redirect_a_choice() {
    let mut icon = TrayIcon::install();
    icon.update_sources(vec![sender("Alpha"), sender("Beta")], Some(sender("Alpha")));
    icon.update_state(plain_state());
    let snapshot = icon.open_menu().unwrap();
    assert!(icon.open_menu().is_none());
    icon.update_sources(vec![sender("Beta"), sender("Gamma")], None);
    icon.take_command(&snapshot, CMD_SOURCE_BASE + 1);
    icon.close_menu();
    match icon.take_action() {
        Some(TrayChoice::Source(name)) => assert_eq!(name.display_name(), "Beta"),
        _ => panic!("unexpected choice"),
    }
    assert!(icon.take_action().is_none());
    match &snapshot.entries[1] {
        MenuEntry::Submenu(_, items) => {
            assert_eq!(items[0].label, "Alpha");
            assert!(items[0].checked);
        }
        _ => panic!("the second entry is a menu"),
    }
    assert!(icon.open_menu().is_some());
}

#[test]
fn dismissed_menu_keeps_an_earlier_choice() {
    let mut icon = TrayIcon::install();
    icon.toggle_visibility();
    let snapshot = icon.open_menu().unwrap();
    icon.take_command(&snapshot, 0);
    match icon.take_action() {
        Some(TrayChoice::Action(action)) => assert_eq!(action, TrayAction::ToggleVisibility),
        _ => panic!("unexpected choice"),
    }
}

#[test]
fn removed_icon_forgets_its_choice() {
    let mut icon = TrayIcon::install();
    icon.toggle_visibility();
    icon.remove();
    assert!(icon.take_action().is_none());
}

#[test]
fn names_that_are_no_utf8_are_still_shown() {
    let mut icon = TrayIcon::install();
    let odd = SenderName::from_slot(&[0x41, 0xff, 0x42]).unwrap();
    icon.update_sources(vec![odd], None);
    let snapshot = icon.open_menu().unwrap();
    match &snapshot.entries[1] {
        MenuEntry::Submenu(_, items) => assert_eq!(items[0].label, "A\u{fffd}B"),
        _ => panic!("the second entry is a menu"),
    }
}

#[test]
fn messages_of_the_icon_are_told_apart() {
    let taskbar = 0xC123;
    assert_eq!(
        tray_message(TRAY_CALLBACK_MESSAGE, WM_RBUTTONUP, taskbar),
        TrayMessage::OpenMenu
    );
    assert_eq!(
        tray_message(TRAY_CALLBACK_MESSAGE, WM_CONTEXTMENU, taskbar),
        TrayMessage::OpenMenu
    );
    assert_eq!(
        tray_message(TRAY_CALLBACK_MESSAGE, WM_LBUTTONDBLCLK, taskbar),
        TrayMessage::ToggleVisibility
    );
    assert_eq!(
        tray_message(TRAY_CALLBACK_MESSAGE, 0x0200, taskbar),
        TrayMessage::Unrelated
    );
    assert_eq!(
        tray_message(taskbar, WM_RBUTTONUP, taskbar),
        TrayMessage::RestoreIcon
    );
    assert_eq!(tray_message(0, 0, 0), TrayMessage::Unrelated);
}
