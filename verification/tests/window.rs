use dsh_desktop::local_url::local_url;
use dsh_desktop::menu::{on_menu_event, MenuAction};
use dsh_desktop::process::Platform;
use dsh_desktop::webview::{
    navigate_to, navigation_report, resolve_splash_url, NavigateOutcome,
};

#[test]
fn the_engine_address_is_loaded_on_every_port() {
    for port in 0..=u16::MAX {
        let url = local_url(port);
        let order = navigate_to(&url);
        assert_eq!(order.debug, format!("[dsh-desktop] navigating webview to {url}"));
        let page = if port == 80 {
            "http://127.0.0.1/".to_string()
        } else {
            format!("http://127.0.0.1:{port}/")
        };
        assert_eq!(order.target, Some(page));
    }
}

#[test]
fn other_texts_are_loaded_if_they_are_urls() {
    assert_eq!(navigate_to("not a url").target, None);
    assert_eq!(navigate_to("").target, None);
    assert_eq!(navigate_to("http://127.0.0.1:65536").target, None);
    assert_eq!(
        navigate_to(" HTTP://Example.com/a/../b ").target,
        Some("http://example.com/b".to_string())
    );
}

#[test]
fn navigations_are_reported() {
    assert_eq!(navigation_report(NavigateOutcome::Loaded), "[dsh-desktop] webview navigate ok");
    assert_eq!(
        navigation_report(NavigateOutcome::Refused("no".to_string())),
        "[dsh-desktop] webview navigate error: no"
    );
    assert_eq!(
        navigation_report(NavigateOutcome::NoWindow),
        "[dsh-desktop] main window not found for navigation"
    );
}

#[test]
fn the_splash_page_is_resolved_in_order() {
    let text = |s: &str| Some(s.to_string());
    let captured = text("http://localhost:1420/");
    assert_eq!(
        resolve_splash_url(captured.clone(), true, text("http://dev/"), Platform::Other),
        captured
    );
    assert_eq!(resolve_splash_url(captured.clone(), false, None, Platform::Windows), captured);
    assert_eq!(
        resolve_splash_url(text("about:blank"), true, text("http://dev/"), Platform::Other),
        text("http://dev/")
    );
    assert_eq!(resolve_splash_url(None, true, None, Platform::Other), None);
    assert_eq!(
        resolve_splash_url(text("about:blank"), false, text("http://dev/"), Platform::Windows),
        text("http://tauri.localhost/")
    );
    assert_eq!(resolve_splash_url(None, false, None, Platform::MacOs), text("tauri://localhost"));
    assert_eq!(resolve_splash_url(None, false, None, Platform::Other), text("tauri://localhost"));
}

#[test]
fn menu_entries_ask_for_their_action() {
    let url = || Some("http://127.0.0.1:1".to_string());
    assert!(matches!(
        on_menu_event("open-browser", url()),
        MenuAction::OpenExternal(u) if u == "http://127.0.0.1:1"
    ));
    assert!(matches!(on_menu_event("open-browser", None), MenuAction::Nothing));
    assert!(matches!(on_menu_event("restart-engine", url()), MenuAction::Restart));
    assert!(matches!(on_menu_event("stop-engine", None), MenuAction::Stop));
    assert!(matches!(on_menu_event("quit", url()), MenuAction::Nothing));
}
