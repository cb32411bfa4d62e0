use niri_binds::action::{
    decode_action, parse_layout_target, Action, LayoutSwitchTarget, SizeChange, WorkspaceReference,
};
use niri_binds::ipc::{IpcAction, WorkspaceReferenceArg};
use niri_binds::node::{DecodeError, Node, Property, Value};

fn s(x: &str) -> Value {
    Value::Str(String::from(x))
}

fn prop(name: &str, value: Value) -> Property {
    Property { name: String::from(name), value }
}

fn node(name: &str, arguments: Vec<Value>, properties: Vec<Property>) -> Node {
    Node { name: String::from(name), annotation: None, arguments, properties, children: vec![] }
}

#[test]
fn unit_actions_decode_by_name() {
    assert_eq!(decode_action(&node("focus-column-left", vec![], vec![])).action, Ok(Action::FocusColumnLeft));
    assert_eq!(decode_action(&node("toggle-overview", vec![], vec![])).action, Ok(Action::ToggleOverview));
    assert_eq!(
        decode_action(&node("focus-window-or-workspace-down", vec![], vec![])).action,
        Ok(Action::FocusWindowOrWorkspaceDown),
    );
}

#[test]
fn unknown_and_internal_names_are_refused() {
    assert_eq!(
        decode_action(&node("fly-away", vec![], vec![])).action,
        Err(DecodeError::UnknownNode(String::from("fly-away"))),
    );
    // Only the wire format can ask for these.
    assert_eq!(
        decode_action(&node("close-window-by-id", vec![], vec![])).action,
        Err(DecodeError::UnknownNode(String::from("close-window-by-id"))),
    );
    assert_eq!(
        decode_action(&node("change-vt", vec![Value::Int(2)], vec![])).action,
        Err(DecodeError::UnknownNode(String::from("change-vt"))),
    );
}

#[test]
fn unit_actions_take_nothing() {
    assert_eq!(
        decode_action(&node("close-window", vec![s("x")], vec![])).action,
        Err(DecodeError::UnexpectedArgument),
    );
    assert_eq!(
        decode_action(&node("close-window", vec![], vec![prop("id", Value::Int(3))])).action,
        Err(DecodeError::UnexpectedProperty(String::from("id"))),
    );
}

#[test]
fn property_defaults() {
    assert_eq!(decode_action(&node("quit", vec![], vec![])).action, Ok(Action::Quit(false)));
    assert_eq!(
        decode_action(&node("quit", vec![], vec![prop("skip-confirmation", Value::Bool(true))])).action,
        Ok(Action::Quit(true)),
    );
    assert_eq!(decode_action(&node("screenshot", vec![], vec![])).action, Ok(Action::Screenshot(true, None)));
    assert_eq!(
        decode_action(&node("screenshot-screen", vec![], vec![prop(
            "write-to-disk",
            Value::Bool(false),
        )])).action,
        Ok(Action::ScreenshotScreen(false, true, None)),
    );
    assert_eq!(
        decode_action(&node("move-window-to-workspace-down", vec![], vec![])).action,
        Ok(Action::MoveWindowToWorkspaceDown(true)),
    );
    assert_eq!(
        decode_action(&node("quit", vec![], vec![prop("skip-confirmation", Value::Int(1))])).action,
        Err(DecodeError::InvalidValue),
    );
    assert_eq!(
        decode_action(&node("screenshot", vec![], vec![prop("write-to-disk", Value::Bool(true))])).action,
        Err(DecodeError::UnexpectedProperty(String::from("write-to-disk"))),
    );
}

#[test]
fn workspace_arguments() {
    assert_eq!(
        decode_action(&node("focus-workspace", vec![Value::Int(3)], vec![])).action,
        Ok(Action::FocusWorkspace(WorkspaceReference::Index(3))),
    );
    assert_eq!(
        decode_action(&node("focus-workspace", vec![s("chat")], vec![])).action,
        Ok(Action::FocusWorkspace(WorkspaceReference::Name(String::from("chat")))),
    );
    let fallback = decode_action(&node("focus-workspace", vec![Value::Int(256)], vec![]));
    assert_eq!(fallback.action, Ok(Action::FocusWorkspace(WorkspaceReference::Index(0))));
    assert_eq!(fallback.note, Some(DecodeError::InvalidValue));
    let other = decode_action(&node("move-window-to-workspace", vec![Value::Bool(true)], vec![]));
    assert_eq!(other.action, Ok(Action::MoveWindowToWorkspace(WorkspaceReference::Index(0), true)));
    assert_eq!(other.note, Some(DecodeError::InvalidValue));
    assert_eq!(decode_action(&node("focus-workspace", vec![Value::Int(3)], vec![])).note, None);
    assert_eq!(
        decode_action(&node("move-column-to-workspace", vec![Value::Int(2)], vec![prop(
            "focus",
            Value::Bool(false),
        )])).action,
        Ok(Action::MoveColumnToWorkspace(WorkspaceReference::Index(2), false)),
    );
    assert_eq!(decode_action(&node("focus-workspace", vec![], vec![])).action, Err(DecodeError::MissingArgument));
}

#[test]
fn numeric_and_string_arguments() {
    assert_eq!(
        decode_action(&node("focus-window-in-column", vec![Value::Int(255)], vec![])).action,
        Ok(Action::FocusWindowInColumn(255)),
    );
    assert_eq!(
        decode_action(&node("focus-window-in-column", vec![Value::Int(-1)], vec![])).action,
        Err(DecodeError::InvalidValue),
    );
    assert_eq!(
        decode_action(&node("focus-column", vec![Value::Int(7)], vec![])).action,
        Ok(Action::FocusColumn(7)),
    );
    assert_eq!(
        decode_action(&node("spawn-sh", vec![s("notify-send hi")], vec![])).action,
        Ok(Action::SpawnSh(String::from("notify-send hi"))),
    );
    assert_eq!(
        decode_action(&node("spawn", vec![s("a"), Value::Int(1)], vec![])).action,
        Err(DecodeError::InvalidValue),
    );
    assert_eq!(
        decode_action(&node("set-column-width", vec![s("+10%")], vec![])).action,
        Ok(Action::SetColumnWidth(SizeChange(String::from("+10%")))),
    );
    assert_eq!(
        decode_action(&node("set-dynamic-cast-monitor", vec![], vec![])).action,
        Ok(Action::SetDynamicCastMonitor(None)),
    );
    assert_eq!(
        decode_action(&node("set-dynamic-cast-monitor", vec![s("DP-1")], vec![])).action,
        Ok(Action::SetDynamicCastMonitor(Some(String::from("DP-1")))),
    );
    assert_eq!(
        decode_action(&node("do-screen-transition", vec![], vec![prop("delay-ms", Value::Int(250))])).action,
        Ok(Action::DoScreenTransition(Some(250))),
    );
    assert_eq!(
        decode_action(&node("do-screen-transition", vec![], vec![prop(
            "delay-ms",
            Value::Int(70000),
        )])).action,
        Err(DecodeError::InvalidValue),
    );
}

#[test]
fn layout_targets() {
    assert_eq!(parse_layout_target("next"), Some(LayoutSwitchTarget::Next));
    assert_eq!(parse_layout_target("prev"), Some(LayoutSwitchTarget::Prev));
    assert_eq!(parse_layout_target("0"), Some(LayoutSwitchTarget::Index(0)));
    assert_eq!(parse_layout_target("255"), Some(LayoutSwitchTarget::Index(255)));
    assert_eq!(parse_layout_target("256"), None);
    assert_eq!(parse_layout_target("1a"), None);
    assert_eq!(parse_layout_target(""), None);
    assert_eq!(
        decode_action(&node("switch-layout", vec![s("next")], vec![])).action,
        Ok(Action::SwitchLayout(LayoutSwitchTarget::Next)),
    );
}

#[test]
fn ipc_optional_id_picks_variant() {
    assert_eq!(Action::from_ipc(IpcAction::CloseWindow { id: None }), Action::CloseWindow);
    assert_eq!(Action::from_ipc(IpcAction::CloseWindow { id: Some(7) }), Action::CloseWindowById(7));
    assert_eq!(
        Action::from_ipc(IpcAction::ScreenshotWindow { id: Some(4), write_to_disk: false, path: None }),
        Action::ScreenshotWindowById { id: 4, write_to_disk: false, path: None },
    );
    assert_eq!(
        Action::from_ipc(IpcAction::MoveWindowToWorkspace {
            window_id: None,
            reference: WorkspaceReferenceArg::Name(String::from("web")),
            focus: true,
        }),
        Action::MoveWindowToWorkspace(WorkspaceReference::Name(String::from("web")), true),
    );
    assert_eq!(
        Action::from_ipc(IpcAction::SetWorkspaceName {
            name: String::from("x"),
            workspace: Some(WorkspaceReferenceArg::Id(9)),
        }),
        Action::SetWorkspaceNameByRef { name: String::from("x"), reference: WorkspaceReference::Id(9) },
    );
    assert_eq!(
        Action::from_ipc(IpcAction::UnsetWorkspaceName { reference: None }),
        Action::UnsetWorkspaceName,
    );
}

#[test]
fn ipc_round_trip_examples() {
    let cases = vec![
        IpcAction::CloseWindow { id: None },
        IpcAction::CloseWindow { id: Some(12) },
        IpcAction::FocusWindow { id: 3 },
        IpcAction::Spawn { command: vec![String::from("foot")] },
        IpcAction::MoveWorkspaceToIndex { index: 2, reference: Some(WorkspaceReferenceArg::Index(1)) },
        IpcAction::MoveWorkspaceToIndex { index: 2, reference: None },
        IpcAction::SwitchLayout { layout: LayoutSwitchTarget::Index(1) },
        IpcAction::LoadConfigFile {},
    ];
    for c in cases {
        assert_eq!(Action::from_ipc(c.clone()).to_ipc(), Some(c));
    }
}

#[test]
fn internal_only_actions_have_no_wire_form() {
    assert_eq!(Action::ChangeVt(2).to_ipc(), None);
    assert_eq!(Action::MruConfirm.to_ipc(), None);
    assert_eq!(Action::FocusColumnLeftUnderMouse.to_ipc(), None);
}
