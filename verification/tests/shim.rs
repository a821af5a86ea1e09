use nebulabun::session::{
    effective_title, initialize_webview2, needs_fallback, InitState, WebViewInstance, WindowAction,
    WM_DESTROY, WM_SIZE,
};
use nebulabun::style::{
    extended_style_for, with_click_through, WS_EX_APPWINDOW, WS_EX_LAYERED, WS_EX_TRANSPARENT,
};

fn ready_instance(handle: i32, transparent: bool) -> WebViewInstance {
    let mut inst = WebViewInstance::new();
    let init = initialize_webview2(true, true, true);
    let r = inst.create_webview_window(handle, transparent, init);
    assert_eq!(r, handle);
    inst
}

#[test]
fn layered_style_iff_transparent() {
    let with_flag = extended_style_for(true);
    assert_ne!(with_flag & WS_EX_LAYERED, 0);
    assert_ne!(with_flag & WS_EX_TRANSPARENT, 0);
    assert_ne!(with_flag & WS_EX_APPWINDOW, 0);
    let without_flag = extended_style_for(false);
    assert_eq!(without_flag & WS_EX_LAYERED, 0);
    assert_eq!(without_flag & WS_EX_TRANSPARENT, 0);
    assert_ne!(without_flag & WS_EX_APPWINDOW, 0);
}

#[test]
fn create_records_transparent_style() {
    let inst = ready_instance(7, true);
    let style = inst.window_ex_style().unwrap();
    assert_eq!(style, WS_EX_APPWINDOW | WS_EX_LAYERED | WS_EX_TRANSPARENT);
}

#[test]
fn create_rejects_failed_handle() {
    let mut inst = WebViewInstance::new();
    let init = initialize_webview2(true, true, true);
    assert_eq!(inst.create_webview_window(0, false, init), 0);
    assert_eq!(inst.window_handle(), 0);
}

#[test]
fn create_rejects_second_window() {
    let mut inst = ready_instance(7, false);
    let init = initialize_webview2(true, true, true);
    assert_eq!(inst.create_webview_window(8, false, init), 0);
    assert_eq!(inst.window_handle(), 7);
}

#[test]
fn content_ops_fail_without_window() {
    let inst = WebViewInstance::new();
    assert_eq!(inst.set_html_content(Some("<p>x</p>"), true), 0);
    assert_eq!(inst.navigate_to_url(Some("https://example.com"), true), 0);
    assert_eq!(inst.execute_javascript(Some("1 + 1"), true), 0);
    assert_eq!(inst.window_handle(), 0);
}

#[test]
fn content_ops_fail_on_missing_argument() {
    let inst = ready_instance(7, false);
    assert_eq!(inst.set_html_content(None, true), 0);
    assert_eq!(inst.navigate_to_url(None, true), 0);
    assert_eq!(inst.execute_javascript(None, true), 0);
    assert_eq!(inst.window_handle(), 7);
}

#[test]
fn content_ops_fail_on_degraded_browser() {
    let mut inst = WebViewInstance::new();
    let init = initialize_webview2(true, false, false);
    assert_eq!(inst.create_webview_window(7, false, init), 7);
    assert_eq!(inst.set_html_content(Some("<p>x</p>"), true), 0);
    assert_eq!(inst.navigate_to_url(Some("https://example.com"), true), 0);
    assert_eq!(inst.execute_javascript(Some("1 + 1"), true), 0);
}

#[test]
fn content_ops_succeed_when_ready() {
    let inst = ready_instance(7, false);
    assert_eq!(inst.set_html_content(Some("<p>x</p>"), true), 1);
    assert_eq!(inst.navigate_to_url(Some("https://example.com"), true), 1);
    assert_eq!(inst.execute_javascript(Some("1 + 1"), true), 1);
}

#[test]
fn content_op_reports_toolkit_failure() {
    let inst = ready_instance(7, false);
    assert_eq!(inst.set_html_content(Some("<p>x</p>"), false), 0);
}

#[test]
fn load_file_matches_direct_set() {
    let contents = "<html><body>from a file</body></html>";
    let ready = ready_instance(7, false);
    assert_eq!(
        ready.load_html_file(Some(contents), true),
        ready.set_html_content(Some(contents), true)
    );
    assert_eq!(ready.load_html_file(Some(contents), true), 1);
    let fresh = WebViewInstance::new();
    assert_eq!(
        fresh.load_html_file(Some(contents), true),
        fresh.set_html_content(Some(contents), true)
    );
    assert_eq!(fresh.load_html_file(Some(contents), true), 0);
}

#[test]
fn load_file_fails_on_failed_read() {
    let inst = ready_instance(7, false);
    assert_eq!(inst.load_html_file(None, false), 0);
}

#[test]
fn close_fails_without_window() {
    let mut inst = WebViewInstance::new();
    assert_eq!(inst.close_window(), 0);
}

#[test]
fn close_succeeds_once_and_blocks_content() {
    let mut inst = ready_instance(7, false);
    assert_eq!(inst.close_window(), 1);
    assert_eq!(inst.set_html_content(Some("<p>x</p>"), true), 0);
    assert_eq!(inst.close_window(), 0);
}

#[test]
fn click_through_round_trip_restores_style() {
    let mut inst = ready_instance(7, false);
    let original = inst.window_ex_style().unwrap();
    assert_eq!(inst.set_click_through(true), 1);
    assert_ne!(inst.window_ex_style().unwrap() & WS_EX_TRANSPARENT, 0);
    assert_eq!(inst.set_click_through(false), 1);
    assert_eq!(inst.window_ex_style().unwrap(), original);
}

#[test]
fn click_through_keeps_other_bits() {
    let toggled = with_click_through(WS_EX_APPWINDOW | WS_EX_LAYERED, true);
    assert_eq!(toggled & !WS_EX_TRANSPARENT, WS_EX_APPWINDOW | WS_EX_LAYERED);
    let cleared = with_click_through(toggled, false);
    assert_eq!(cleared, WS_EX_APPWINDOW | WS_EX_LAYERED);
}

#[test]
fn click_through_fails_without_window() {
    let mut inst = WebViewInstance::new();
    assert_eq!(inst.set_click_through(true), 0);
}

#[test]
fn transparency_recorded_when_window_exists() {
    let mut inst = ready_instance(7, true);
    assert_eq!(inst.window_alpha(), Some(255));
    assert_eq!(inst.set_window_transparency(128), 1);
    assert_eq!(inst.window_alpha(), Some(128));
}

#[test]
fn transparency_fails_without_window() {
    let mut inst = WebViewInstance::new();
    assert_eq!(inst.set_window_transparency(128), 0);
    assert_eq!(inst.window_alpha(), None);
}

#[test]
fn initialization_chain_outcomes() {
    assert_eq!(initialize_webview2(false, false, false), InitState::Uninitialized);
    assert_eq!(initialize_webview2(true, false, false), InitState::EnvironmentReady);
    assert_eq!(initialize_webview2(true, true, false), InitState::ControllerReady);
    assert_eq!(initialize_webview2(true, true, true), InitState::FullyReady);
}

#[test]
fn fallback_needed_unless_fully_ready() {
    assert!(needs_fallback(InitState::Uninitialized));
    assert!(needs_fallback(InitState::EnvironmentReady));
    assert!(needs_fallback(InitState::ControllerReady));
    assert!(!needs_fallback(InitState::FullyReady));
}

#[test]
fn window_proc_decisions() {
    let ready = ready_instance(7, false);
    assert_eq!(ready.window_proc(WM_DESTROY), WindowAction::PostQuit);
    assert_eq!(ready.window_proc(WM_SIZE), WindowAction::ResizeControl);
    assert_eq!(ready.window_proc(0x000F), WindowAction::ForwardToSystem);
    let mut degraded = WebViewInstance::new();
    degraded.create_webview_window(7, false, initialize_webview2(true, false, false));
    assert_eq!(degraded.window_proc(WM_SIZE), WindowAction::NoAction);
    let mut resizable = WebViewInstance::new();
    resizable.create_webview_window(7, false, initialize_webview2(true, true, false));
    assert_eq!(resizable.window_proc(WM_SIZE), WindowAction::ResizeControl);
    let fresh = WebViewInstance::new();
    assert_eq!(fresh.window_proc(WM_SIZE), WindowAction::NoAction);
}

#[test]
fn title_defaults_when_missing() {
    assert_eq!(effective_title(None), "Nebulabun App");
    assert_eq!(effective_title(Some("Test".to_string())), "Test");
}

#[test]
fn full_session_scenario() {
    let mut inst = WebViewInstance::new();
    let title = effective_title(Some("Test".to_string()));
    assert_eq!(title, "Test");
    let style = extended_style_for(false);
    assert_eq!(style & WS_EX_LAYERED, 0);
    let init = initialize_webview2(true, true, true);
    let handle = inst.create_webview_window(4242, false, init);
    assert_ne!(handle, 0);
    assert_eq!(inst.set_html_content(Some("<h1>hi</h1>"), true), 1);
    assert_eq!(inst.close_window(), 1);
    assert_eq!(inst.set_html_content(Some("<h1>hi</h1>"), true), 0);
}

#[test]
fn degraded_scenario_uses_fallback() {
    let mut inst = WebViewInstance::new();
    let init = initialize_webview2(false, false, false);
    assert!(needs_fallback(init));
    let handle = inst.create_webview_window(4242, false, init);
    assert_ne!(handle, 0);
    assert_eq!(inst.set_html_content(Some("<h1>hi</h1>"), false), 0);
}
