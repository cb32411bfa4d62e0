use niri_binds::backend::{
    Backend, Headless, IdCounter, OutputId, SessionRequest, Tty, Winit,
};
use niri_binds::config::{
    merge_preset_list, Clipboard, ClipboardPart, Cursor, CursorPart, Flag, HotkeyOverlay,
    HotkeyOverlayPart, Keyboard, KeyboardPart, SwitchAction, SwitchBinds, XwaylandSatellite,
    XwaylandSatellitePart, Xkb,
};
use niri_binds::layer_rule::{layer_rule_applies, LayerFacts, Match as LayerMatch};
use niri_binds::modifiers::ModKey;
use niri_binds::scalars::{AccelProfile, CenterFocusedColumn, ClickMethod, ScrollMethod, TrackLayout};
use niri_binds::window_rule::{window_rule_applies, Match, RegexEq, WindowFacts};

#[test]
fn preset_list_absent_keeps_current() {
    let mut current = vec![100, 200];
    merge_preset_list(&mut current, None, vec![1, 2, 3]);
    assert_eq!(current, vec![100, 200]);
}

#[test]
fn preset_list_emptied_reverts_to_default() {
    let mut current = vec![100, 200];
    merge_preset_list(&mut current, Some(vec![]), vec![1, 2, 3]);
    assert_eq!(current, vec![1, 2, 3]);
    merge_preset_list(&mut current, Some(vec![7]), vec![1, 2, 3]);
    assert_eq!(current, vec![7]);
}

#[test]
fn keyboard_merge() {
    let mut k = Keyboard::new();
    assert_eq!(k.repeat_delay, 600);
    assert_eq!(k.repeat_rate, 25);
    let mut xkb = Xkb::empty();
    xkb.layout = String::from("us,ru");
    k.merge_with(&KeyboardPart {
        xkb: Some(xkb),
        repeat_delay: Some(300),
        repeat_rate: None,
        track_layout: Some(TrackLayout::Window),
        numlock: Some(Flag(true)),
    });
    assert_eq!(k.xkb.layout, "us,ru");
    assert_eq!(k.repeat_delay, 300);
    assert_eq!(k.repeat_rate, 25);
    assert_eq!(k.track_layout, TrackLayout::Window);
    assert!(k.numlock);
    // A later fragment cannot turn a flag back off.
    k.merge_with(&KeyboardPart {
        xkb: None,
        repeat_delay: None,
        repeat_rate: Some(40),
        track_layout: None,
        numlock: Some(Flag(false)),
    });
    assert!(k.numlock);
    assert_eq!(k.repeat_rate, 40);
    assert_eq!(k.xkb.layout, "us,ru");
}

#[test]
fn cursor_merge() {
    let mut c = Cursor::new();
    assert_eq!(c.xcursor_theme, "default");
    assert_eq!(c.xcursor_size, 24);
    c.merge_with(&CursorPart {
        xcursor_theme: Some(String::from("Adwaita")),
        xcursor_size: None,
        hide_when_typing: Some(Flag(true)),
        hide_after_inactive_ms: Some(1000),
    });
    assert_eq!(c.xcursor_theme, "Adwaita");
    assert_eq!(c.xcursor_size, 24);
    assert!(c.hide_when_typing);
    assert_eq!(c.hide_after_inactive_ms, Some(1000));
}

#[test]
fn flag_sections_merge() {
    let mut h = HotkeyOverlay::default();
    h.merge_with(&HotkeyOverlayPart { skip_at_startup: Some(Flag(true)), hide_not_bound: None });
    assert!(h.skip_at_startup);
    assert!(!h.hide_not_bound);
    let mut c = Clipboard::default();
    c.merge_with(&ClipboardPart { disable_primary: None });
    assert!(!c.disable_primary);
}

#[test]
fn xwayland_satellite_merge() {
    let mut x = XwaylandSatellite::new();
    assert_eq!(x.path, "xwayland-satellite");
    x.merge_with(&XwaylandSatellitePart { off: true, on: false, path: None });
    assert!(x.off);
    x.merge_with(&XwaylandSatellitePart { off: true, on: true, path: Some(String::from("/bin/xs")) });
    assert!(!x.off);
    assert_eq!(x.path, "/bin/xs");
}

#[test]
fn switch_binds_merge() {
    let mut s = SwitchBinds::default();
    s.lid_close = Some(SwitchAction { spawn: vec![String::from("lock")] });
    s.merge_with(&SwitchBinds {
        lid_open: Some(SwitchAction { spawn: vec![String::from("wake")] }),
        lid_close: None,
        tablet_mode_on: None,
        tablet_mode_off: None,
    });
    assert_eq!(s.lid_open, Some(SwitchAction { spawn: vec![String::from("wake")] }));
    assert_eq!(s.lid_close, Some(SwitchAction { spawn: vec![String::from("lock")] }));
    assert_eq!(s.tablet_mode_on, None);
}

#[test]
fn scalar_names() {
    assert_eq!(ClickMethod::from_name("button-areas"), Ok(ClickMethod::ButtonAreas));
    assert_eq!(ClickMethod::from_name("clickfinger"), Ok(ClickMethod::Clickfinger));
    assert_eq!(
        ClickMethod::from_name("Clickfinger"),
        Err(String::from(r#"invalid click method, can be "button-areas" or "clickfinger""#)),
    );
    assert_eq!(AccelProfile::from_name("flat"), Ok(AccelProfile::Flat));
    assert_eq!(ScrollMethod::from_name("on-button-down"), Ok(ScrollMethod::OnButtonDown));
    assert_eq!(
        ScrollMethod::from_name("none"),
        Err(String::from(
            r#"invalid scroll method, can be "no-scroll", "two-finger", "edge", or "on-button-down""#,
        )),
    );
    assert_eq!(CenterFocusedColumn::from_name("on-overflow"), Ok(CenterFocusedColumn::OnOverflow));
    assert_eq!(CenterFocusedColumn::default_value(), CenterFocusedColumn::Never);
}

fn window(app_id: &str, title: &str, floating: bool) -> WindowFacts {
    WindowFacts {
        app_id: Some(String::from(app_id)),
        title: Some(String::from(title)),
        is_active: false,
        is_focused: false,
        is_active_in_column: false,
        is_floating: floating,
        is_window_cast_target: false,
        is_urgent: false,
        at_startup: false,
    }
}

#[test]
fn window_rules_match_and_exclude() {
    let firefox = Match { app_id: Some(RegexEq(String::from("^firefox$"))), ..Match::default() };
    let floating = Match { is_floating: Some(true), ..Match::default() };
    let w = window("firefox", "Home", false);
    assert!(window_rule_applies(&vec![firefox.clone()], &vec![], &w));
    assert!(!window_rule_applies(&vec![firefox.clone()], &vec![], &window("firefox-esr", "x", false)));
    assert!(!window_rule_applies(&vec![firefox.clone()], &vec![floating.clone()], &window(
        "firefox",
        "x",
        true,
    )));
    assert!(window_rule_applies(&vec![], &vec![], &w));
    assert!(window_rule_applies(&vec![Match::default()], &vec![], &w));
    let title = Match { title: Some(RegexEq(String::from("Ho"))), ..Match::default() };
    assert!(window_rule_applies(&vec![floating, title], &vec![], &w));
    let no_app = WindowFacts { app_id: None, ..w.clone() };
    assert!(!window_rule_applies(&vec![firefox], &vec![], &no_app));
    let broken = Match { app_id: Some(RegexEq(String::from("fire(fox"))), ..Match::default() };
    assert!(!window_rule_applies(&vec![broken], &vec![], &w));
}

#[test]
fn layer_rules_match() {
    let l = LayerFacts { namespace: String::from("waybar"), at_startup: true };
    let m = LayerMatch { namespace: Some(RegexEq(String::from("^way"))), at_startup: None };
    let later = LayerMatch { namespace: None, at_startup: Some(false) };
    assert!(layer_rule_applies(&vec![m.clone()], &vec![], &l));
    assert!(!layer_rule_applies(&vec![later], &vec![], &l));
    assert!(!layer_rule_applies(&vec![], &vec![m], &l));
}

fn tty() -> Backend {
    Backend::Tty(Tty {
        seat_name: String::from("seat0"),
        debug_tint: false,
        monitors_active: true,
        pending: vec![],
    })
}

#[test]
fn backend_mod_key() {
    let nested = Backend::Winit(Winit { debug_tint: false });
    assert_eq!(nested.mod_key(None, None), ModKey::Alt);
    assert_eq!(nested.mod_key(Some(ModKey::Alt), None), ModKey::Super);
    assert_eq!(nested.mod_key(Some(ModKey::Alt), Some(ModKey::Ctrl)), ModKey::Ctrl);
    assert_eq!(tty().mod_key(None, Some(ModKey::Ctrl)), ModKey::Super);
    assert_eq!(Backend::Headless(Headless {}).mod_key(Some(ModKey::Alt), None), ModKey::Alt);
}

#[test]
fn backend_session_requests() {
    let mut b = tty();
    b.change_vt(3);
    b.suspend();
    b.set_monitors_active(false);
    b.toggle_debug_tint();
    assert_eq!(b.seat_name(), "seat0");
    match b.tty_checked() {
        Some(t) => t.seat_name = String::from("seat1"),
        None => panic!("a TTY backend has a TTY"),
    }
    assert_eq!(b.seat_name(), "seat1");
    let t = b.tty();
    assert_eq!(t.pending, vec![SessionRequest::ChangeVt(3), SessionRequest::Suspend]);
    assert!(!t.monitors_active);
    assert!(t.debug_tint);
    let mut w = Backend::Winit(Winit { debug_tint: false });
    w.change_vt(2);
    assert!(w.tty_checked().is_none());
    assert_eq!(w.seat_name(), "winit");
    w.toggle_debug_tint();
    assert!(w.winit().debug_tint);
}

#[test]
fn output_ids_are_fresh() {
    let mut counter = IdCounter::new();
    let a = OutputId::next(&mut counter);
    let b = OutputId::next(&mut counter);
    assert_eq!(a.get(), 1);
    assert_eq!(b.get(), 2);
    assert_ne!(a, b);
}
