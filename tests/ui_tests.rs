use forloop::ui::{
    BrowserUi, CircuitInfo, ErrorDialog, OnboardingScreen, SecurityIndicator, SecurityLevel,
    SettingItem, SettingsPanel, StatusBar, Toolbar, ToolbarItem, TorStatus, UiMessage,
    WindowManager,
};
use tokio::sync::mpsc;

#[test]
fn test_tor_status_display() {
    let (tx, _rx) = mpsc::channel(10);
    let ui = BrowserUi::new(tx);

    assert_eq!(ui.tor_status_display(), "Connecting to Tor...");
}

#[test]
fn test_security_color() {
    let (tx, _rx) = mpsc::channel(10);
    let ui = BrowserUi::new(tx);

    assert_eq!(ui.security_color(), "#00ff00");
}

#[test]
fn ui_messages_update_the_state() {
    let (tx, mut rx) = mpsc::channel(10);
    let mut ui = BrowserUi::new(tx);
    ui.handle_message(UiMessage::TorStatusChanged(TorStatus::Failed("x".to_string())));
    ui.handle_message(UiMessage::SecurityChanged(SecurityIndicator::Onion));
    ui.handle_message(UiMessage::Quit);
    assert_eq!(ui.tor_status_display(), "Tor Failed");
    assert_eq!(ui.security_color(), "#7d4cdb");
    match ui.navigation_message("https://a.test") {
        UiMessage::Navigate(u) => assert_eq!(u, "https://a.test"),
        _ => panic!("expected a navigation"),
    }
    ui.sender().try_send(UiMessage::NewLoop).unwrap();
    assert!(matches!(rx.try_recv(), Ok(UiMessage::NewLoop)));
}

#[test]
fn test_window_title_never_shows_url() {
    let wm = WindowManager::new();
    assert_eq!(wm.title(), "forloop");
}

#[test]
fn window_dimensions() {
    assert_eq!(WindowManager::default().dimensions(), (1280, 720));
}

#[test]
fn test_settings_security_not_changeable() {
    let panel = SettingsPanel::new();
    assert_eq!(panel.settings().security_level, SecurityLevel::Maximum);
}

#[test]
fn settings_items() {
    let panel = SettingsPanel::default();
    let items = panel.available_settings();
    assert_eq!(items.len(), 3);
    match &items[1] {
        SettingItem::TextArea { value, .. } => assert_eq!(value, ""),
        _ => panic!("expected the bridge lines"),
    }
}

#[test]
fn status_bar_display() {
    let mut bar = StatusBar::new();
    bar.set_message("Ready");
    assert_eq!(bar.display(), "Ready");
    bar.set_circuit(CircuitInfo { exit_country: "CH".to_string(), hops: 3 });
    assert_eq!(bar.display(), "Ready | Circuit: 3 hops (exit: CH)");
}

#[test]
fn dialogs_never_offer_reports() {
    let d = ErrorDialog::connection_failed("timeout");
    assert_eq!(d.title, "Connection Failed");
    assert!(d.message.ends_with("Technical details: timeout"));
    assert!(d.message.contains("\u{2022} Your network blocks Tor"));
    assert!(!d.show_report);
    let c = ErrorDialog::certificate_error("bad.test");
    assert!(c.message.starts_with("The certificate for bad.test is invalid."));
    assert!(!c.show_report);
}

#[test]
fn onboarding_walks_four_pages() {
    let mut screen = OnboardingScreen::new();
    assert_eq!(screen.current_content().title, "Welcome to forloop");
    assert!(screen.next());
    assert!(screen.next());
    assert!(screen.next());
    assert!(!screen.next());
    let last = screen.current_content();
    assert_eq!(last.title, "Ready");
    assert_eq!(last.icon, "\u{2713}");
}

#[test]
fn toolbar_layout() {
    let layout = Toolbar::new().render();
    assert_eq!(layout.items.len(), 6);
    match &layout.items[0] {
        ToolbarItem::Button { id, enabled, .. } => {
            assert_eq!(*id, "new_loop");
            assert!(*enabled);
        }
        _ => panic!("expected the button"),
    }
    assert!(matches!(layout.items[1], ToolbarItem::Spacer));
    let _ = Toolbar::default();
}
