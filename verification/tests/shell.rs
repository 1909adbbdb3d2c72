use iib_shell::bridge::get_tauri_conf;
use iib_shell::bridge::greet;
use iib_shell::config::load_config;
use iib_shell::decimal::u64_to_decimal;
use iib_shell::launch::build_launch_args;
use iib_shell::launch::AppState;
use iib_shell::shutdown::on_window_event;
use iib_shell::shutdown::ShutdownNotifier;
use iib_shell::shutdown::WindowEventKind;

#[test]
fn decimal_exact_values() {
    assert_eq!(u64_to_decimal(0), "0");
    assert_eq!(u64_to_decimal(7), "7");
    assert_eq!(u64_to_decimal(42), "42");
    assert_eq!(u64_to_decimal(1000), "1000");
    assert_eq!(u64_to_decimal(65535), "65535");
}

#[test]
fn greet_exact() {
    assert_eq!(greet("World"), "Hello, World! You've been greeted from Rust!");
    assert_eq!(greet(""), "Hello, ! You've been greeted from Rust!");
}

#[test]
fn config_absent_is_default() {
    let c = load_config(None);
    assert_eq!(c.sdwebui_dir, "");
}

#[test]
fn config_malformed_is_default() {
    for bad in [
        "",
        "not json",
        "{",
        "{}",
        "[1,2,3]",
        "\"sdwebui_dir\"",
        "{\"sdwebui_dir\": 5}",
        "{\"sdwebui_dir\": null}",
        "{\"sdwebui_dir\": [\"/x\"]}",
        "{\"other\": \"/x\"}",
    ] {
        let c = load_config(Some(bad.to_string()));
        assert_eq!(c.sdwebui_dir, "", "input: {bad}");
    }
}

#[test]
fn config_valid_dir_is_kept() {
    let c = load_config(Some("{\"sdwebui_dir\":\"/data/sd\"}".to_string()));
    assert_eq!(c.sdwebui_dir, "/data/sd");
    let c = load_config(Some("{\"extra\": 1, \"sdwebui_dir\": \"relative/dir\"}".to_string()));
    assert_eq!(c.sdwebui_dir, "relative/dir");
}

#[test]
fn launch_args_without_dir() {
    let c = load_config(None);
    let args = build_launch_args(7860, &c);
    assert_eq!(args, vec!["--port", "7860", "--allow_cors", "--enable_shutdown"]);
}

#[test]
fn launch_args_with_dir() {
    let c = load_config(Some("{\"sdwebui_dir\":\"/data/sd\"}".to_string()));
    let args = build_launch_args(7860, &c);
    assert_eq!(
        args,
        vec!["--port", "7860", "--allow_cors", "--enable_shutdown", "--sd_webui_dir", "/data/sd"]
    );
}

#[test]
fn launch_args_empty_dir_adds_nothing() {
    let c = load_config(Some("{\"sdwebui_dir\":\"\"}".to_string()));
    assert_eq!(c.sdwebui_dir, "");
    let args = build_launch_args(80, &c);
    assert_eq!(args, vec!["--port", "80", "--allow_cors", "--enable_shutdown"]);
}

#[test]
fn app_state_rejects_zero_port() {
    assert!(AppState::new(0).is_none());
}

#[test]
fn app_state_keeps_port() {
    let s = AppState::new(49152).unwrap();
    assert_eq!(s.port, 49152);
    assert_eq!(get_tauri_conf(&s).port, 49152);
}

#[test]
fn one_trigger_one_attempt() {
    let s = AppState::new(8188).unwrap();
    let mut n = ShutdownNotifier::new();
    assert_eq!(n.attempts, 0);
    let url = n.request(&s);
    assert_eq!(n.attempts, 1);
    assert_eq!(url, "http://127.0.0.1:8188/infinite_image_browsing/shutdown");
    let url2 = n.request(&s);
    assert_eq!(n.attempts, 2);
    assert_eq!(url2, url);
}

#[test]
fn close_request_decides_one_post() {
    let s = AppState::new(8188).unwrap();
    let mut n = ShutdownNotifier::new();
    let url = on_window_event(&WindowEventKind::CloseRequested, &s, &mut n);
    assert_eq!(n.attempts, 1);
    assert_eq!(url.as_deref(), Some("http://127.0.0.1:8188/infinite_image_browsing/shutdown"));
    assert!(on_window_event(&WindowEventKind::Other, &s, &mut n).is_none());
    assert_eq!(n.attempts, 1);
}

#[test]
fn port_agrees_everywhere() {
    let s = AppState::new(61234).unwrap();
    let c = load_config(None);
    let args = build_launch_args(s.port, &c);
    let conf = get_tauri_conf(&s);
    let mut n = ShutdownNotifier::new();
    let url = n.request(&s);
    let p = "61234";
    assert_eq!(args[1], p);
    assert_eq!(conf.port.to_string(), p);
    assert!(url.contains(p));
    assert_eq!(url, format!("http://127.0.0.1:{p}/infinite_image_browsing/shutdown"));
}
