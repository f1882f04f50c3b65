use vnt_app::shell::{
    tray_menu_action, CloseAction, CloseBehavior, CloseDecision, DesktopShellConfig,
    DesktopShellState, HttpServerShutdown, TrayMenuAction, TRAY_QUIT_ID, TRAY_RESET_CLOSE_ID,
    TRAY_SHOW_ID,
};

#[test]
fn default_close_behavior_asks() {
    assert_eq!(CloseBehavior::default(), CloseBehavior::Ask);
    assert_eq!(DesktopShellConfig::default().close_behavior, CloseBehavior::Ask);
}

#[test]
fn close_decision_into_behavior() {
    assert_eq!(CloseBehavior::from(CloseDecision::MinimizeToTray), CloseBehavior::MinimizeToTray);
    assert_eq!(CloseBehavior::from(CloseDecision::Close), CloseBehavior::Close);
}

#[test]
fn new_state_takes_loaded_behavior() {
    let s: DesktopShellState<String> = DesktopShellState::new(None, None);
    assert_eq!(s.close_behavior(), CloseBehavior::Ask);
    assert!(!s.is_exiting());
    let s = DesktopShellState::new(
        Some("cfg.toml".to_string()),
        Some(DesktopShellConfig { close_behavior: CloseBehavior::Close }),
    );
    assert_eq!(s.close_behavior(), CloseBehavior::Close);
    assert_eq!(s.config_path(), Some(&"cfg.toml".to_string()));
}

#[test]
fn close_prompt_shown_once() {
    let mut s: DesktopShellState<String> = DesktopShellState::new(None, None);
    assert_eq!(s.handle_close_request(), CloseAction::EmitPrompt);
    assert_eq!(s.handle_close_request(), CloseAction::Nothing);
    s.clear_close_prompt();
    assert_eq!(s.handle_close_request(), CloseAction::EmitPrompt);
}

#[test]
fn begin_close_prompt_only_once() {
    let mut s: DesktopShellState<String> = DesktopShellState::new(None, None);
    assert!(s.begin_close_prompt());
    assert!(!s.begin_close_prompt());
    s.clear_close_prompt();
    assert!(s.begin_close_prompt());
}

#[test]
fn remembered_minimize_hides_later() {
    let mut s = DesktopShellState::new(Some("p".to_string()), None);
    assert_eq!(s.handle_close_request(), CloseAction::EmitPrompt);
    let save = s.resolve_close_request(CloseDecision::MinimizeToTray, true);
    assert_eq!(save, Some(DesktopShellConfig { close_behavior: CloseBehavior::MinimizeToTray }));
    assert_eq!(s.apply_close_decision(CloseDecision::MinimizeToTray), CloseAction::HideToTray);
    assert_eq!(s.handle_close_request(), CloseAction::HideToTray);
    assert_eq!(s.handle_close_request(), CloseAction::HideToTray);
}

#[test]
fn unremembered_decision_keeps_asking() {
    let mut s = DesktopShellState::new(Some("p".to_string()), None);
    assert_eq!(s.handle_close_request(), CloseAction::EmitPrompt);
    assert_eq!(s.resolve_close_request(CloseDecision::MinimizeToTray, false), None);
    assert_eq!(s.apply_close_decision(CloseDecision::MinimizeToTray), CloseAction::HideToTray);
    assert_eq!(s.close_behavior(), CloseBehavior::Ask);
    assert_eq!(s.handle_close_request(), CloseAction::EmitPrompt);
}

#[test]
fn nothing_saved_without_config_path() {
    let mut s: DesktopShellState<String> = DesktopShellState::new(None, None);
    assert_eq!(s.update_close_behavior(CloseBehavior::Close), None);
    assert_eq!(s.close_behavior(), CloseBehavior::Close);
    assert_eq!(s.resolve_close_request(CloseDecision::Close, true), None);
}

#[test]
fn close_exits_once() {
    let mut s = DesktopShellState::new(
        Some("p".to_string()),
        Some(DesktopShellConfig { close_behavior: CloseBehavior::Close }),
    );
    assert_eq!(s.handle_close_request(), CloseAction::Exit);
    assert!(s.is_exiting());
    assert_eq!(s.handle_close_request(), CloseAction::Nothing);
}

#[test]
fn exiting_ignores_close_requests() {
    let mut s: DesktopShellState<String> = DesktopShellState::new(None, None);
    assert!(s.begin_close_prompt());
    s.mark_exiting();
    assert!(s.is_exiting());
    assert!(s.begin_close_prompt());
    s.update_close_behavior(CloseBehavior::MinimizeToTray);
    assert_eq!(s.handle_close_request(), CloseAction::Nothing);
    assert!(s.is_exiting());
}

#[test]
fn decided_close_exits() {
    let mut s: DesktopShellState<String> = DesktopShellState::new(None, None);
    assert_eq!(s.handle_close_request(), CloseAction::EmitPrompt);
    s.resolve_close_request(CloseDecision::Close, false);
    assert_eq!(s.apply_close_decision(CloseDecision::Close), CloseAction::Exit);
    assert!(s.is_exiting());
}

#[test]
fn reset_from_tray_asks_again() {
    let mut s = DesktopShellState::new(
        Some("p".to_string()),
        Some(DesktopShellConfig { close_behavior: CloseBehavior::MinimizeToTray }),
    );
    assert_eq!(s.handle_close_request(), CloseAction::HideToTray);
    assert_eq!(
        s.update_close_behavior(CloseBehavior::Ask),
        Some(DesktopShellConfig { close_behavior: CloseBehavior::Ask })
    );
    assert_eq!(s.close_behavior(), CloseBehavior::Ask);
    assert_eq!(s.handle_close_request(), CloseAction::EmitPrompt);
}

#[test]
fn tray_menu_ids() {
    assert_eq!(tray_menu_action(TRAY_SHOW_ID), Some(TrayMenuAction::ShowMainWindow));
    assert_eq!(tray_menu_action("tray_show_main"), Some(TrayMenuAction::ShowMainWindow));
    assert_eq!(tray_menu_action(TRAY_RESET_CLOSE_ID), Some(TrayMenuAction::ResetCloseBehavior));
    assert_eq!(tray_menu_action(TRAY_QUIT_ID), Some(TrayMenuAction::Quit));
    assert_eq!(tray_menu_action("tray_quit2"), None);
    assert_eq!(tray_menu_action(""), None);
}

#[test]
fn http_shutdown_fires_once() {
    let mut s = HttpServerShutdown::new(7u32);
    assert_eq!(s.shutdown(), Some(7));
    assert_eq!(s.shutdown(), None);
}
