use niri_binds::config::{Flag, Keyboard, SwitchAction};
use niri_binds::node::{DecodeError, Node, Property, Value};
use niri_binds::scalars::{TrackLayout, WarpMouseToFocusMode};
use niri_binds::sections::{
    decode_cursor_part, decode_environment, decode_hot_corners, decode_keyboard_part,
    decode_layer_match, decode_screenshot_path, decode_spawn_at_startup, decode_switch_binds,
    decode_warp_mouse_to_focus, decode_window_match, decode_xwayland_satellite_part,
};
use niri_binds::window_rule::RegexEq;

fn s(x: &str) -> Value {
    Value::Str(String::from(x))
}

fn prop(name: &str, value: Value) -> Property {
    Property { name: String::from(name), value }
}

fn node(name: &str, arguments: Vec<Value>, properties: Vec<Property>, children: Vec<Node>) -> Node {
    Node { name: String::from(name), annotation: None, arguments, properties, children }
}

fn arg(name: &str, value: Value) -> Node {
    node(name, vec![value], vec![], vec![])
}

fn leaf(name: &str) -> Node {
    node(name, vec![], vec![], vec![])
}

#[test]
fn keyboard_section_reads_and_merges() {
    let xkb = node("xkb", vec![], vec![], vec![arg("layout", s("us,ru")), arg("options", s("grp:win_space_toggle"))]);
    let n = node("keyboard", vec![], vec![], vec![
        xkb,
        arg("repeat-delay", Value::Int(300)),
        arg("track-layout", s("window")),
        leaf("numlock"),
    ]);
    let part = decode_keyboard_part(&n).unwrap();
    assert_eq!(part.repeat_delay, Some(300));
    assert_eq!(part.repeat_rate, None);
    assert_eq!(part.track_layout, Some(TrackLayout::Window));
    assert_eq!(part.numlock, Some(Flag(true)));
    let x = part.xkb.as_ref().unwrap();
    assert_eq!(x.layout, "us,ru");
    assert_eq!(x.rules, "");
    assert_eq!(x.options, Some(String::from("grp:win_space_toggle")));
    let mut k = Keyboard::new();
    k.merge_with(&part);
    assert_eq!(k.repeat_delay, 300);
    assert_eq!(k.repeat_rate, 25);
    assert!(k.numlock);
}

#[test]
fn keyboard_section_errors() {
    let unknown = node("keyboard", vec![], vec![], vec![leaf("capslock")]);
    assert_eq!(decode_keyboard_part(&unknown), Err(DecodeError::UnknownNode(String::from("capslock"))));
    let twice = node("keyboard", vec![], vec![], vec![
        arg("repeat-rate", Value::Int(30)),
        arg("repeat-rate", Value::Int(40)),
    ]);
    assert_eq!(decode_keyboard_part(&twice), Err(DecodeError::DuplicateNode(String::from("repeat-rate"))));
    let too_big = node("keyboard", vec![], vec![], vec![arg("repeat-rate", Value::Int(256))]);
    assert_eq!(decode_keyboard_part(&too_big), Err(DecodeError::InvalidValue));
    let bad_layout = node("keyboard", vec![], vec![], vec![arg("track-layout", s("Window"))]);
    assert_eq!(decode_keyboard_part(&bad_layout), Err(DecodeError::InvalidValue));
    let flag_off = node("keyboard", vec![], vec![], vec![arg("numlock", Value::Bool(false))]);
    assert_eq!(decode_keyboard_part(&flag_off).unwrap().numlock, Some(Flag(false)));
}

#[test]
fn cursor_section() {
    let n = node("cursor", vec![], vec![], vec![
        arg("xcursor-theme", s("Adwaita")),
        arg("xcursor-size", Value::Int(32)),
        arg("hide-after-inactive-ms", Value::Int(1000)),
    ]);
    let c = decode_cursor_part(&n).unwrap();
    assert_eq!(c.xcursor_theme, Some(String::from("Adwaita")));
    assert_eq!(c.xcursor_size, Some(32));
    assert_eq!(c.hide_when_typing, None);
    assert_eq!(c.hide_after_inactive_ms, Some(1000));
}

#[test]
fn presence_sections() {
    let n = node("hot-corners", vec![], vec![], vec![leaf("top-left"), leaf("bottom-right")]);
    let h = decode_hot_corners(&n).unwrap();
    assert!(h.top_left && h.bottom_right);
    assert!(!h.off && !h.top_right && !h.bottom_left);
    let bad = node("hot-corners", vec![], vec![], vec![arg("off", Value::Bool(true))]);
    assert_eq!(decode_hot_corners(&bad), Err(DecodeError::InvalidValue));
    let x = node("xwayland-satellite", vec![], vec![], vec![leaf("off"), arg("path", s("/usr/bin/xs"))]);
    let p = decode_xwayland_satellite_part(&x).unwrap();
    assert!(p.off && !p.on);
    assert_eq!(p.path, Some(String::from("/usr/bin/xs")));
}

#[test]
fn switch_events_section() {
    let n = node("switch-events", vec![], vec![], vec![node("lid-close", vec![], vec![], vec![node(
        "spawn",
        vec![s("loginctl"), s("lock-session")],
        vec![],
        vec![],
    )])]);
    let b = decode_switch_binds(&n).unwrap();
    assert_eq!(
        b.lid_close,
        Some(SwitchAction { spawn: vec![String::from("loginctl"), String::from("lock-session")] }),
    );
    assert_eq!(b.lid_open, None);
    let empty = node("switch-events", vec![], vec![], vec![leaf("lid-open")]);
    assert_eq!(decode_switch_binds(&empty), Err(DecodeError::MissingArgument));
}

#[test]
fn rule_match_nodes() {
    let m = decode_window_match(&node("match", vec![], vec![
        prop("app-id", s("^firefox$")),
        prop("is-floating", Value::Bool(true)),
    ], vec![]))
    .unwrap();
    assert_eq!(m.app_id, Some(RegexEq(String::from("^firefox$"))));
    assert_eq!(m.is_floating, Some(true));
    assert_eq!(m.title, None);
    assert_eq!(
        decode_window_match(&node("match", vec![], vec![prop("colour", s("x"))], vec![])),
        Err(DecodeError::UnexpectedProperty(String::from("colour"))),
    );
    assert_eq!(
        decode_window_match(&node("match", vec![], vec![prop("is-urgent", s("yes"))], vec![])),
        Err(DecodeError::InvalidValue),
    );
    assert_eq!(
        decode_window_match(&node("match", vec![], vec![prop("title", s("fire(fox"))], vec![])),
        Err(DecodeError::InvalidValue),
    );
    assert_eq!(
        decode_layer_match(&node("match", vec![], vec![prop("namespace", s("[bar"))], vec![])),
        Err(DecodeError::InvalidValue),
    );
    let l = decode_layer_match(&node("match", vec![], vec![prop("namespace", s("waybar"))], vec![]))
        .unwrap();
    assert_eq!(l.namespace, Some(RegexEq(String::from("waybar"))));
    assert_eq!(l.at_startup, None);
}

#[test]
fn warp_mouse_to_focus_node() {
    let w = decode_warp_mouse_to_focus(&node("warp-mouse-to-focus", vec![], vec![prop(
        "mode",
        s("center-xy-always"),
    )], vec![]))
    .unwrap();
    assert_eq!(w.mode, Some(WarpMouseToFocusMode::CenterXyAlways));
    let plain = decode_warp_mouse_to_focus(&leaf("warp-mouse-to-focus")).unwrap();
    assert_eq!(plain.mode, None);
    assert_eq!(
        decode_warp_mouse_to_focus(&node("warp-mouse-to-focus", vec![], vec![prop("mode", s("center"))], vec![])),
        Err(DecodeError::InvalidValue),
    );
}

#[test]
fn startup_and_environment_nodes() {
    let sp = decode_spawn_at_startup(&node("spawn-at-startup", vec![s("waybar"), s("-c"), s("x")], vec![], vec![]))
        .unwrap();
    assert_eq!(sp.command, vec![String::from("waybar"), String::from("-c"), String::from("x")]);
    let path = decode_screenshot_path(&arg("screenshot-path", Value::Null)).unwrap();
    assert_eq!(path.0, None);
    let env = decode_environment(&node("environment", vec![], vec![], vec![
        arg("QT_QPA_PLATFORM", s("wayland")),
        arg("DISPLAY", Value::Null),
    ]))
    .unwrap();
    assert_eq!(env.0.len(), 2);
    assert_eq!(env.0[0].name, "QT_QPA_PLATFORM");
    assert_eq!(env.0[0].value, Some(String::from("wayland")));
    assert_eq!(env.0[1].value, None);
}
