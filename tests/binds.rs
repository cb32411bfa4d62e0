use niri_binds::action::{decode_action, Action, WindowMoveDirection, WorkspaceReference};
use niri_binds::bind::{decode_bind, BindError, Binds, Diagnostic};
use niri_binds::key::{key_token, KeysymLookup, Trigger, KEY_NO_SYMBOL};
use niri_binds::modifiers::{COMPOSITOR, SHIFT};
use niri_binds::node::{DecodeError, Node, Property, Value};

const KEY_RETURN: u32 = 0xff0d;
const KEY_T: u32 = 0x74;

fn s(x: &str) -> Value {
    Value::Str(String::from(x))
}

fn prop(name: &str, value: Value) -> Property {
    Property { name: String::from(name), value }
}

fn node(name: &str, arguments: Vec<Value>, properties: Vec<Property>, children: Vec<Node>) -> Node {
    Node { name: String::from(name), annotation: None, arguments, properties, children }
}

fn leaf(name: &str) -> Node {
    node(name, vec![], vec![], vec![])
}

fn lookup_for(combo: &str) -> KeysymLookup {
    let k = match key_token(combo).to_ascii_lowercase().as_str() {
        "return" => KEY_RETURN,
        "t" => KEY_T,
        _ => KEY_NO_SYMBOL,
    };
    KeysymLookup { case_insensitive: k, case_sensitive: k }
}

fn decode_one(n: &Node) -> niri_binds::bind::BindDecode {
    decode_bind(n, lookup_for(&n.name))
}

fn decode_list(children: Vec<Node>) -> niri_binds::bind::BindsDecode {
    let lookups: Vec<KeysymLookup> = children.iter().map(|c| lookup_for(&c.name)).collect();
    let list = node("binds", vec![], vec![], children);
    Binds::decode_node(&list, &lookups)
}

#[test]
fn duplicate_keybind_keeps_first() {
    let r = decode_list(vec![
        node("Mod+Return", vec![], vec![], vec![node("spawn", vec![s("alacritty")], vec![], vec![])]),
        node("Mod+Return", vec![], vec![], vec![leaf("close-window")]),
    ]);
    assert_eq!(r.binds.0.len(), 1);
    assert_eq!(r.binds.0[0].action, Action::Spawn(vec![String::from("alacritty")]));
    assert_eq!(r.errors, vec![Diagnostic { child: Some(1), error: BindError::DuplicateKeybind }]);
}

#[test]
fn duplicate_with_broken_action_still_counts() {
    let r = decode_list(vec![
        node("Mod+Return", vec![], vec![], vec![leaf("no-such-action")]),
        node("Mod+Return", vec![], vec![], vec![leaf("close-window")]),
    ]);
    assert_eq!(r.binds.0.len(), 1);
    assert_eq!(r.binds.0[0].action, Action::Spawn(vec![]));
    assert!(r.errors.contains(&Diagnostic {
        child: Some(0),
        error: BindError::Action(DecodeError::UnknownNode(String::from("no-such-action"))),
    }));
    assert!(r.errors.contains(&Diagnostic { child: Some(1), error: BindError::DuplicateKeybind }));
}

#[test]
fn distinct_keys_are_all_kept_in_order() {
    let r = decode_list(vec![
        node("Mod+T", vec![], vec![], vec![leaf("focus-column-left")]),
        node("Mod+Shift+T", vec![], vec![], vec![leaf("focus-column-right")]),
        node("Mod+Return", vec![], vec![], vec![leaf("close-window")]),
    ]);
    assert!(r.errors.is_empty());
    let actions: Vec<Action> = r.binds.0.iter().map(|b| b.action.clone()).collect();
    assert_eq!(actions, vec![Action::FocusColumnLeft, Action::FocusColumnRight, Action::CloseWindow]);
    assert_eq!(r.binds.0[1].key.modifiers.bits(), COMPOSITOR | SHIFT);
    assert_eq!(r.binds.0[1].key.trigger, Trigger::Keysym(KEY_T));
}

#[test]
fn allow_when_locked_on_spawn_is_kept() {
    let n = node(
        "Mod+Return",
        vec![],
        vec![prop("allow-when-locked", Value::Bool(true))],
        vec![node("spawn", vec![s("foot")], vec![], vec![])],
    );
    let r = decode_one(&n);
    let b = r.bind.unwrap();
    assert!(b.allow_when_locked);
    assert!(r.errors.is_empty());
}

#[test]
fn allow_when_locked_elsewhere_is_reported_and_dropped() {
    let n = node(
        "Mod+Return",
        vec![],
        vec![prop("allow-when-locked", Value::Bool(true))],
        vec![leaf("focus-column-left")],
    );
    let r = decode_one(&n);
    let b = r.bind.unwrap();
    assert_eq!(b.action, Action::FocusColumnLeft);
    assert!(!b.allow_when_locked);
    assert_eq!(r.errors, vec![BindError::AllowWhenLockedNotSpawn]);
}

#[test]
fn inhibit_toggle_is_never_inhibited() {
    let n = node(
        "Mod+T",
        vec![],
        vec![prop("allow-inhibiting", Value::Bool(true))],
        vec![leaf("toggle-keyboard-shortcuts-inhibit")],
    );
    let b = decode_one(&n).bind.unwrap();
    assert_eq!(b.action, Action::ToggleKeyboardShortcutsInhibit);
    assert!(!b.allow_inhibiting);
    let other = node(
        "Mod+T",
        vec![],
        vec![prop("allow-inhibiting", Value::Bool(false))],
        vec![leaf("close-window")],
    );
    assert!(!decode_one(&other).bind.unwrap().allow_inhibiting);
    let plain = node("Mod+T", vec![], vec![], vec![leaf("close-window")]);
    assert!(decode_one(&plain).bind.unwrap().allow_inhibiting);
}

#[test]
fn bind_properties_are_read() {
    let n = node(
        "Mod+T",
        vec![],
        vec![
            prop("repeat", Value::Bool(false)),
            prop("cooldown-ms", Value::Int(150)),
            prop("hotkey-overlay-title", s("Open a terminal")),
        ],
        vec![node("spawn", vec![s("foot"), s("-e"), s("htop")], vec![], vec![])],
    );
    let r = decode_one(&n);
    let b = r.bind.unwrap();
    assert!(!b.repeat);
    assert_eq!(b.cooldown, Some(150));
    assert_eq!(b.hotkey_overlay_title, Some(Some(String::from("Open a terminal"))));
    assert_eq!(
        b.action,
        Action::Spawn(vec![String::from("foot"), String::from("-e"), String::from("htop")]),
    );
    assert!(r.errors.is_empty());
}

#[test]
fn bind_defaults() {
    let b = decode_one(&node("Mod+T", vec![], vec![], vec![leaf("close-window")])).bind.unwrap();
    assert!(b.repeat);
    assert_eq!(b.cooldown, None);
    assert!(!b.allow_when_locked);
    assert!(b.allow_inhibiting);
    assert_eq!(b.hotkey_overlay_title, None);
    let hidden = node(
        "Mod+T",
        vec![],
        vec![prop("hotkey-overlay-title", Value::Null)],
        vec![leaf("close-window")],
    );
    assert_eq!(decode_one(&hidden).bind.unwrap().hotkey_overlay_title, Some(None));
}

#[test]
fn missing_action_gives_placeholder() {
    let r = decode_one(&leaf("Mod+T"));
    let b = r.bind.unwrap();
    assert_eq!(b.action, Action::Spawn(vec![]));
    assert_eq!(r.errors, vec![BindError::MissingAction]);
}

#[test]
fn extra_actions_are_reported() {
    let r = decode_one(&node("Mod+T", vec![], vec![], vec![
        leaf("close-window"),
        leaf("focus-column-left"),
        leaf("focus-column-right"),
    ]));
    assert_eq!(r.bind.unwrap().action, Action::CloseWindow);
    assert_eq!(r.errors, vec![BindError::ExtraAction, BindError::ExtraAction]);
}

#[test]
fn invalid_keybind_gives_no_bind() {
    let r = decode_one(&node("Hyper+T", vec![], vec![], vec![leaf("close-window")]));
    assert!(matches!(r.bind, Err(BindError::InvalidKeybind(_))));
}

#[test]
fn invalid_and_unexpected_properties() {
    let bad = node("Mod+T", vec![], vec![prop("repeat", s("yes"))], vec![leaf("close-window")]);
    assert_eq!(decode_one(&bad).bind, Err(BindError::InvalidProperty(String::from("repeat"))));
    let unknown = node("Mod+T", vec![], vec![prop("colour", s("red"))], vec![leaf("close-window")]);
    let r = decode_one(&unknown);
    assert!(r.bind.is_ok());
    assert_eq!(r.errors, vec![BindError::UnexpectedProperty(String::from("colour"))]);
}

#[test]
fn annotation_and_arguments_are_reported() {
    let mut n = node("Mod+T", vec![s("x")], vec![], vec![leaf("close-window")]);
    n.annotation = Some(String::from("bind"));
    let r = decode_one(&n);
    assert!(r.bind.is_ok());
    assert_eq!(r.errors, vec![BindError::UnexpectedAnnotation, BindError::UnexpectedArgument]);
}

#[test]
fn list_node_must_hold_only_children() {
    let lookups: Vec<KeysymLookup> = vec![];
    let list = node("binds", vec![s("x")], vec![prop("p", Value::Bool(true))], vec![]);
    let r = Binds::decode_node(&list, &lookups);
    assert!(r.binds.0.is_empty());
    assert_eq!(r.errors, vec![
        Diagnostic { child: None, error: BindError::UnexpectedArgument },
        Diagnostic { child: None, error: BindError::UnexpectedProperty(String::from("p")) },
    ]);
}

#[test]
fn decode_action_with_direction() {
    let n = node("move-window-into-or-out-of-group", vec![s("left")], vec![], vec![]);
    assert_eq!(decode_action(&n).action, Ok(Action::MoveWindowIntoOrOutOfGroup(WindowMoveDirection::Left)));
    let bad = node("move-window-into-or-out-of-group", vec![s("sideways")], vec![], vec![]);
    assert_eq!(decode_action(&bad).action, Err(DecodeError::InvalidValue));
}

#[test]
fn each_argument_is_reported() {
    let r = decode_one(&node("Mod+T", vec![s("x"), Value::Int(2)], vec![], vec![leaf("close-window")]));
    assert_eq!(r.errors, vec![BindError::UnexpectedArgument, BindError::UnexpectedArgument]);
}

#[test]
fn broken_action_is_reported_with_placeholder() {
    let r = decode_one(&node("Mod+T", vec![], vec![], vec![node(
        "focus-column",
        vec![s("three")],
        vec![],
        vec![],
    )]));
    assert_eq!(r.bind.unwrap().action, Action::Spawn(vec![]));
    assert_eq!(r.errors, vec![BindError::Action(DecodeError::InvalidValue)]);
}

#[test]
fn clean_nodes_have_no_diagnostics() {
    let locked = node(
        "Mod+T",
        vec![],
        vec![prop("allow-when-locked", Value::Bool(true))],
        vec![node("spawn-sh", vec![s("foot")], vec![], vec![])],
    );
    let r = decode_one(&locked);
    assert!(r.bind.unwrap().allow_when_locked);
    assert!(r.errors.is_empty());
    let list = decode_list(vec![
        node("Mod+T", vec![], vec![], vec![leaf("close-window")]),
        node("Mod+Return", vec![], vec![], vec![leaf("close-window")]),
    ]);
    assert!(list.errors.is_empty());
    assert_eq!(list.binds.0.len(), 2);
}

#[test]
fn child_diagnostics_carry_their_index() {
    let r = decode_list(vec![
        node("Mod+T", vec![], vec![prop("colour", s("red"))], vec![leaf("close-window")]),
        node("Hyper+T", vec![], vec![], vec![leaf("close-window")]),
        node("Mod+T", vec![], vec![], vec![leaf("close-window")]),
    ]);
    assert_eq!(r.binds.0.len(), 1);
    assert_eq!(r.errors.len(), 3);
    assert_eq!(r.errors[0], Diagnostic {
        child: Some(0),
        error: BindError::UnexpectedProperty(String::from("colour")),
    });
    assert_eq!(r.errors[1].child, Some(1));
    assert!(matches!(r.errors[1].error, BindError::InvalidKeybind(_)));
    assert_eq!(r.errors[2], Diagnostic { child: Some(2), error: BindError::DuplicateKeybind });
}

#[test]
fn bad_workspace_argument_falls_back_and_is_reported() {
    let r = decode_one(&node("Mod+T", vec![], vec![], vec![node(
        "focus-workspace",
        vec![Value::Int(300)],
        vec![],
        vec![],
    )]));
    assert_eq!(r.bind.unwrap().action, Action::FocusWorkspace(WorkspaceReference::Index(0)));
    assert_eq!(r.errors, vec![BindError::Action(DecodeError::InvalidValue)]);
}

#[test]
fn first_bad_property_is_named() {
    let n = node(
        "Mod+T",
        vec![],
        vec![prop("colour", s("red")), prop("cooldown-ms", s("soon")), prop("repeat", s("no"))],
        vec![leaf("close-window")],
    );
    let r = decode_one(&n);
    assert_eq!(r.bind, Err(BindError::InvalidProperty(String::from("cooldown-ms"))));
    assert_eq!(r.errors, vec![BindError::UnexpectedProperty(String::from("colour"))]);
}
