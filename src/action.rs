use vstd::prelude::*;

use crate::node::{
    bool_prop, check_no_args, check_one_arg, check_props, get_bool_prop, get_int_prop, int_prop,
    is_bare, one_argument, props_within, str_of, DecodeError, Node, Value,
};
use crate::recent::{MruDirection, MruFilter, MruScope};
use crate::text::str_eq;

verus! {

/// A direction to move a window in.
#[derive(Debug, Clone, Copy, PartialEq, Eq, Hash, Structural)]
pub enum WindowMoveDirection {
    Up,
    Left,
    Right,
    Down,
}

/// A workspace named by its id, its index on the monitor, or its name.
#[derive(Debug, Clone, PartialEq, Eq)]
pub enum WorkspaceReference {
    Id(u64),
    Index(u8),
    Name(String),
}

/// A change of a window or column size, as written (`800`, `+10`, `50%`,
/// `-5%`); it is read where it is applied.
#[derive(Debug, Clone, PartialEq, Eq)]
pub struct SizeChange(pub String);

/// A change of a floating window position, as written; it is read where it
/// is applied.
#[derive(Debug, Clone, PartialEq, Eq)]
pub struct PositionChange(pub String);

/// The keyboard layout to switch to.
#[derive(Debug, Clone, Copy, PartialEq, Eq, Structural)]
pub enum LayoutSwitchTarget {
    Next,
    Prev,
    Index(u8),
}

/// A compositor action. The variants that `decoded_as` gives no node name
/// are never written in the configuration: some stand for IPC requests that
/// target a window or workspace by id (see `crate::ipc`), the others are
/// raised by the compositor itself.
#[derive(Debug, Clone, PartialEq)]
pub enum Action {
    Quit(bool),
    ChangeVt(i32),
    Suspend,
    PowerOffMonitors,
    PowerOnMonitors,
    ToggleDebugTint,
    DebugToggleOpaqueRegions,
    DebugToggleDamage,
    Spawn(Vec<String>),
    SpawnSh(String),
    DoScreenTransition(Option<u16>),
    ConfirmScreenshot {
        write_to_disk: bool,
    },
    CancelScreenshot,
    ScreenshotTogglePointer,
    Screenshot(bool, Option<String>),
    ScreenshotScreen(bool, bool, Option<String>),
    ScreenshotWindow(bool, Option<String>),
    ScreenshotWindowById {
        id: u64,
        write_to_disk: bool,
        path: Option<String>,
    },
    ToggleKeyboardShortcutsInhibit,
    CloseWindow,
    CloseWindowById(u64),
    ToggleGroup,
    MoveWindowIntoOrOutOfGroup(WindowMoveDirection),
    FocusNextWindow,
    FocusPreviousWindow,
    FullscreenWindow,
    FullscreenWindowById(u64),
    ToggleWindowedFullscreen,
    ToggleWindowedFullscreenById(u64),
    FocusWindow(u64),
    FocusWindowInColumn(u8),
    FocusWindowPrevious,
    FocusColumnLeft,
    FocusColumnLeftUnderMouse,
    FocusColumnRight,
    FocusColumnRightUnderMouse,
    FocusColumnFirst,
    FocusColumnLast,
    FocusColumnRightOrFirst,
    FocusColumnLeftOrLast,
    FocusColumn(usize),
    FocusWindowOrMonitorUp,
    FocusWindowOrMonitorDown,
    FocusColumnOrMonitorLeft,
    FocusColumnOrMonitorRight,
    FocusWindowDown,
    FocusWindowUp,
    FocusWindowDownOrColumnLeft,
    FocusWindowDownOrColumnRight,
    FocusWindowUpOrColumnLeft,
    FocusWindowUpOrColumnRight,
    FocusWindowOrWorkspaceDown,
    FocusWindowOrWorkspaceUp,
    FocusWindowTop,
    FocusWindowBottom,
    FocusWindowDownOrTop,
    FocusWindowUpOrBottom,
    MoveColumnLeft,
    MoveColumnRight,
    MoveColumnToFirst,
    MoveColumnToLast,
    MoveColumnLeftOrToMonitorLeft,
    MoveColumnRightOrToMonitorRight,
    MoveColumnToIndex(usize),
    MoveWindowDown,
    MoveWindowUp,
    MoveWindowDownOrToWorkspaceDown,
    MoveWindowUpOrToWorkspaceUp,
    ConsumeOrExpelWindowLeft,
    ConsumeOrExpelWindowLeftById(u64),
    ConsumeOrExpelWindowRight,
    ConsumeOrExpelWindowRightById(u64),
    ConsumeWindowIntoColumn,
    ExpelWindowFromColumn,
    SwapWindowLeft,
    SwapWindowRight,
    CenterColumn,
    CenterWindow,
    CenterWindowById(u64),
    CenterVisibleColumns,
    FocusWorkspaceDown,
    FocusWorkspaceDownUnderMouse,
    FocusWorkspaceUp,
    FocusWorkspaceUpUnderMouse,
    FocusWorkspace(WorkspaceReference),
    FocusWorkspacePrevious,
    MoveWindowToWorkspaceDown(bool),
    MoveWindowToWorkspaceUp(bool),
    MoveWindowToWorkspace(WorkspaceReference, bool),
    MoveWindowToWorkspaceById {
        window_id: u64,
        reference: WorkspaceReference,
        focus: bool,
    },
    MoveColumnToWorkspaceDown(bool),
    MoveColumnToWorkspaceUp(bool),
    MoveColumnToWorkspace(WorkspaceReference, bool),
    MoveWorkspaceDown,
    MoveWorkspaceUp,
    MoveWorkspaceToIndex(usize),
    MoveWorkspaceToIndexByRef {
        new_idx: usize,
        reference: WorkspaceReference,
    },
    MoveWorkspaceToMonitorByRef {
        output_name: String,
        reference: WorkspaceReference,
    },
    MoveWorkspaceToMonitor(String),
    SetWorkspaceName(String),
    SetWorkspaceNameByRef {
        name: String,
        reference: WorkspaceReference,
    },
    UnsetWorkspaceName,
    UnsetWorkSpaceNameByRef(WorkspaceReference),
    FocusMonitorLeft,
    FocusMonitorRight,
    FocusMonitorDown,
    FocusMonitorUp,
    FocusMonitorPrevious,
    FocusMonitorNext,
    FocusMonitor(String),
    MoveWindowToMonitorLeft,
    MoveWindowToMonitorRight,
    MoveWindowToMonitorDown,
    MoveWindowToMonitorUp,
    MoveWindowToMonitorPrevious,
    MoveWindowToMonitorNext,
    MoveWindowToMonitor(String),
    MoveWindowToMonitorById {
        id: u64,
        output: String,
    },
    MoveColumnToMonitorLeft,
    MoveColumnToMonitorRight,
    MoveColumnToMonitorDown,
    MoveColumnToMonitorUp,
    MoveColumnToMonitorPrevious,
    MoveColumnToMonitorNext,
    MoveColumnToMonitor(String),
    SetWindowWidth(SizeChange),
    SetWindowWidthById {
        id: u64,
        change: SizeChange,
    },
    SetWindowHeight(SizeChange),
    SetWindowHeightById {
        id: u64,
        change: SizeChange,
    },
    ResetWindowHeight,
    ResetWindowHeightById(u64),
    SwitchPresetColumnWidth,
    SwitchPresetColumnWidthBack,
    SwitchPresetWindowWidth,
    SwitchPresetWindowWidthBack,
    SwitchPresetWindowWidthById(u64),
    SwitchPresetWindowWidthBackById(u64),
    SwitchPresetWindowHeight,
    SwitchPresetWindowHeightBack,
    SwitchPresetWindowHeightById(u64),
    SwitchPresetWindowHeightBackById(u64),
    MaximizeColumn,
    MaximizeWindowToEdges,
    MaximizeWindowToEdgesById(u64),
    SetColumnWidth(SizeChange),
    ExpandColumnToAvailableWidth,
    SwitchLayout(LayoutSwitchTarget),
    ShowHotkeyOverlay,
    MoveWorkspaceToMonitorLeft,
    MoveWorkspaceToMonitorRight,
    MoveWorkspaceToMonitorDown,
    MoveWorkspaceToMonitorUp,
    MoveWorkspaceToMonitorPrevious,
    MoveWorkspaceToMonitorNext,
    ToggleWindowFloating,
    ToggleWindowFloatingById(u64),
    MoveWindowToFloating,
    MoveWindowToFloatingById(u64),
    MoveWindowToTiling,
    MoveWindowToTilingById(u64),
    FocusFloating,
    FocusTiling,
    SwitchFocusBetweenFloatingAndTiling,
    MoveFloatingWindowById {
        id: Option<u64>,
        x: PositionChange,
        y: PositionChange,
    },
    ToggleWindowRuleOpacity,
    ToggleWindowRuleOpacityById(u64),
    SetDynamicCastWindow,
    SetDynamicCastWindowById(u64),
    SetDynamicCastMonitor(Option<String>),
    ClearDynamicCastTarget,
    ToggleOverview,
    OpenOverview,
    CloseOverview,
    ToggleWindowUrgent(u64),
    SetWindowUrgent(u64),
    UnsetWindowUrgent(u64),
    LoadConfigFile,
    MruAdvance {
        direction: MruDirection,
        scope: Option<MruScope>,
        filter: Option<MruFilter>,
    },
    MruConfirm,
    MruCancel,
    MruCloseCurrentWindow,
    MruFirst,
    MruLast,
    MruSetScope(MruScope),
    MruCycleScope,
}

/// The name of a direction in the document.
pub open spec fn direction_name(d: WindowMoveDirection) -> Seq<char> {
    match d {
        WindowMoveDirection::Up => "up"@,
        WindowMoveDirection::Left => "left"@,
        WindowMoveDirection::Right => "right"@,
        WindowMoveDirection::Down => "down"@,
    }
}

/// The value of a decimal numeral of at most three digits.
pub open spec fn small_decimal(s: Seq<char>) -> Option<int> {
    if 1 <= s.len() <= 3 && forall|i: int| 0 <= i < s.len() ==> '0' <= #[trigger] s[i] <= '9' {
        Some(decimal_value(s))
    } else {
        None
    }
}

pub open spec fn decimal_value(s: Seq<char>) -> int
    decreases s.len(),
{
    if s.len() == 0 {
        0
    } else {
        decimal_value(s.drop_last()) * 10 + (s.last() as int - '0' as int)
    }
}

/// What a layout-switch argument names: `next`, `prev` or an index.
pub open spec fn layout_target(s: Seq<char>) -> Option<LayoutSwitchTarget> {
    if s == "next"@ {
        Some(LayoutSwitchTarget::Next)
    } else if s == "prev"@ {
        Some(LayoutSwitchTarget::Prev)
    } else {
        match small_decimal(s) {
            Some(v) => if v <= 255 {
                Some(LayoutSwitchTarget::Index(v as u8))
            } else {
                None
            },
            None => None,
        }
    }
}

/// A workspace reference as the document writes it: a name or an index. Any
/// other value, or an index past 255, stands for index 0 and is reported
/// (see `workspace_note`).
pub open spec fn workspace_fits(v: Value, w: WorkspaceReference) -> bool {
    if workspace_ok(v) {
        match (v, w) {
            (Value::Str(s), WorkspaceReference::Name(t)) => s@ == t@,
            (Value::Int(i), WorkspaceReference::Index(k)) => i == k as i128,
            _ => false,
        }
    } else {
        w == WorkspaceReference::Index(0)
    }
}

/// The names of the actions whose argument is a workspace reference.
pub open spec fn takes_workspace(s: Seq<char>) -> bool {
    s == "focus-workspace"@ || s == "move-window-to-workspace"@ || s == "move-column-to-workspace"@
}

/// The diagnostic that reading an action node reports without failing: a
/// workspace argument that is neither a name nor an index up to 255.
pub open spec fn workspace_note(n: Node) -> Option<DecodeError> {
    if takes_workspace(n.name@) && one_argument(n) && !workspace_ok(n.arguments@[0]) {
        Some(DecodeError::InvalidValue)
    } else {
        None
    }
}

/// The value reads as a workspace reference without falling back.
pub open spec fn workspace_ok(v: Value) -> bool {
    match v {
        Value::Str(_) => true,
        Value::Int(i) => 0 <= i <= 255,
        _ => false,
    }
}

pub open spec fn flag_ok(n: Node, p: Seq<char>, d: bool) -> bool {
    n.arguments@.len() == 0 && n.children@.len() == 0 && props_within(n, seq![p, p]) && bool_prop(
        n,
        p,
        d,
    ) is Some
}

pub open spec fn flag_fits(n: Node, p: Seq<char>, d: bool, b: bool) -> bool {
    flag_ok(n, p, d) && bool_prop(n, p, d) == Some(b)
}

pub open spec fn flags_ok(n: Node, p: Seq<char>, d: bool, q: Seq<char>, e: bool) -> bool {
    n.arguments@.len() == 0 && n.children@.len() == 0 && props_within(n, seq![p, q]) && bool_prop(
        n,
        p,
        d,
    ) is Some && bool_prop(n, q, e) is Some
}

pub open spec fn flags_fit(
    n: Node,
    p: Seq<char>,
    d: bool,
    b: bool,
    q: Seq<char>,
    e: bool,
    c: bool,
) -> bool {
    flags_ok(n, p, d, q, e) && bool_prop(n, p, d) == Some(b) && bool_prop(n, q, e) == Some(c)
}

pub open spec fn strings_ok(n: Node) -> bool {
    n.children@.len() == 0 && n.properties@.len() == 0 && forall|i: int|
        0 <= i < n.arguments@.len() ==> #[trigger] str_of(n.arguments@[i]) is Some
}

pub open spec fn strings_fit(n: Node, v: Seq<String>) -> bool {
    strings_ok(n) && v.len() == n.arguments@.len() && forall|i: int|
        0 <= i < v.len() ==> #[trigger] str_of(n.arguments@[i]) == Some(v[i]@)
}

pub open spec fn str_ok(n: Node) -> bool {
    one_argument(n) && n.properties@.len() == 0 && str_of(n.arguments@[0]) is Some
}

pub open spec fn str_fits(n: Node, s: Seq<char>) -> bool {
    str_ok(n) && str_of(n.arguments@[0]) == Some(s)
}

pub open spec fn opt_str_ok(n: Node) -> bool {
    n.children@.len() == 0 && n.properties@.len() == 0 && (n.arguments@.len() == 0 || (
    n.arguments@.len() == 1 && (n.arguments@[0] is Null || n.arguments@[0] is Str)))
}

pub open spec fn opt_str_fits(n: Node, o: Option<String>) -> bool {
    opt_str_ok(n) && match o {
        None => n.arguments@.len() == 0 || n.arguments@[0] is Null,
        Some(s) => n.arguments@.len() == 1 && str_of(n.arguments@[0]) == Some(s@),
    }
}

pub open spec fn int_ok(n: Node, max: int) -> bool {
    one_argument(n) && n.properties@.len() == 0 && (n.arguments@[0] matches Value::Int(v) && 0 <= v
        <= max)
}

pub open spec fn int_fits(n: Node, max: int, x: int) -> bool {
    int_ok(n, max) && n.arguments@[0] == Value::Int(x as i128)
}

pub open spec fn direction_ok(n: Node) -> bool {
    one_argument(n) && n.properties@.len() == 0 && exists|d: WindowMoveDirection|
        str_of(n.arguments@[0]) == Some(#[trigger] direction_name(d))
}

pub open spec fn direction_fits(n: Node, d: WindowMoveDirection) -> bool {
    direction_ok(n) && str_of(n.arguments@[0]) == Some(direction_name(d))
}

pub open spec fn workspace_arg_ok(n: Node) -> bool {
    one_argument(n) && n.properties@.len() == 0
}

pub open spec fn workspace_arg_fits(n: Node, w: WorkspaceReference) -> bool {
    workspace_arg_ok(n) && workspace_fits(n.arguments@[0], w)
}

pub open spec fn workspace_focus_ok(n: Node) -> bool {
    one_argument(n) && props_within(n, seq!["focus"@, "focus"@]) && bool_prop(n, "focus"@, true)
        is Some
}

pub open spec fn workspace_focus_fits(n: Node, w: WorkspaceReference, f: bool) -> bool {
    workspace_focus_ok(n) && workspace_fits(n.arguments@[0], w) && bool_prop(n, "focus"@, true)
        == Some(f)
}

pub open spec fn delay_ok(n: Node) -> bool {
    n.arguments@.len() == 0 && n.children@.len() == 0 && props_within(
        n,
        seq!["delay-ms"@, "delay-ms"@],
    ) && int_prop(n, "delay-ms"@, 65535) is Some
}

pub open spec fn delay_fits(n: Node, o: Option<u16>) -> bool {
    delay_ok(n) && int_prop(n, "delay-ms"@, 65535) == Some(
        match o {
            Some(x) => Some(x as int),
            None => None::<int>,
        },
    )
}

pub open spec fn layout_ok(n: Node) -> bool {
    one_argument(n) && n.properties@.len() == 0 && match str_of(n.arguments@[0]) {
        Some(s) => layout_target(s) is Some,
        None => false,
    }
}

pub open spec fn layout_fits(n: Node, t: LayoutSwitchTarget) -> bool {
    layout_ok(n) && match str_of(n.arguments@[0]) {
        Some(s) => layout_target(s) == Some(t),
        None => false,
    }
}

/// `a` is what the node `n` of the document denotes: its name is the
/// action's, in kebab case, and its arguments and properties give the
/// action's fields, with their defaults where a property is absent.
pub open spec fn decoded_as(n: Node, a: Action) -> bool {
    match a {
        Action::Quit(x0) => n.name@ == "quit"@ && flag_fits(n, "skip-confirmation"@, false, x0),
        Action::Suspend => n.name@ == "suspend"@ && is_bare(n),
        Action::PowerOffMonitors => n.name@ == "power-off-monitors"@ && is_bare(n),
        Action::PowerOnMonitors => n.name@ == "power-on-monitors"@ && is_bare(n),
        Action::ToggleDebugTint => n.name@ == "toggle-debug-tint"@ && is_bare(n),
        Action::DebugToggleOpaqueRegions => n.name@ == "debug-toggle-opaque-regions"@ && is_bare(n),
        Action::DebugToggleDamage => n.name@ == "debug-toggle-damage"@ && is_bare(n),
        Action::Spawn(x0) => n.name@ == "spawn"@ && strings_fit(n, x0@),
        Action::SpawnSh(x0) => n.name@ == "spawn-sh"@ && str_fits(n, x0@),
        Action::DoScreenTransition(x0) => n.name@ == "do-screen-transition"@ && delay_fits(n, x0),
        Action::Screenshot(x0, x1) => n.name@ == "screenshot"@ && flag_fits(n, "show-pointer"@, true, x0) && x1 is None,
        Action::ScreenshotScreen(x0, x1, x2) => n.name@ == "screenshot-screen"@ && flags_fit(n, "write-to-disk"@, true, x0, "show-pointer"@, true, x1) && x2 is None,
        Action::ScreenshotWindow(x0, x1) => n.name@ == "screenshot-window"@ && flag_fits(n, "write-to-disk"@, true, x0) && x1 is None,
        Action::ToggleKeyboardShortcutsInhibit => n.name@ == "toggle-keyboard-shortcuts-inhibit"@ && is_bare(n),
        Action::CloseWindow => n.name@ == "close-window"@ && is_bare(n),
        Action::ToggleGroup => n.name@ == "toggle-group"@ && is_bare(n),
        Action::MoveWindowIntoOrOutOfGroup(x0) => n.name@ == "move-window-into-or-out-of-group"@ && direction_fits(n, x0),
        Action::FocusNextWindow => n.name@ == "focus-next-window"@ && is_bare(n),
        Action::FocusPreviousWindow => n.name@ == "focus-previous-window"@ && is_bare(n),
        Action::FullscreenWindow => n.name@ == "fullscreen-window"@ && is_bare(n),
        Action::ToggleWindowedFullscreen => n.name@ == "toggle-windowed-fullscreen"@ && is_bare(n),
        Action::FocusWindowInColumn(x0) => n.name@ == "focus-window-in-column"@ && int_fits(n, 255, x0 as int),
        Action::FocusWindowPrevious => n.name@ == "focus-window-previous"@ && is_bare(n),
        Action::FocusColumnLeft => n.name@ == "focus-column-left"@ && is_bare(n),
        Action::FocusColumnRight => n.name@ == "focus-column-right"@ && is_bare(n),
        Action::FocusColumnFirst => n.name@ == "focus-column-first"@ && is_bare(n),
        Action::FocusColumnLast => n.name@ == "focus-column-last"@ && is_bare(n),
        Action::FocusColumnRightOrFirst => n.name@ == "focus-column-right-or-first"@ && is_bare(n),
        Action::FocusColumnLeftOrLast => n.name@ == "focus-column-left-or-last"@ && is_bare(n),
        Action::FocusColumn(x0) => n.name@ == "focus-column"@ && int_fits(n, usize::MAX as int, x0 as int),
        Action::FocusWindowOrMonitorUp => n.name@ == "focus-window-or-monitor-up"@ && is_bare(n),
        Action::FocusWindowOrMonitorDown => n.name@ == "focus-window-or-monitor-down"@ && is_bare(n),
        Action::FocusColumnOrMonitorLeft => n.name@ == "focus-column-or-monitor-left"@ && is_bare(n),
        Action::FocusColumnOrMonitorRight => n.name@ == "focus-column-or-monitor-right"@ && is_bare(n),
        Action::FocusWindowDown => n.name@ == "focus-window-down"@ && is_bare(n),
        Action::FocusWindowUp => n.name@ == "focus-window-up"@ && is_bare(n),
        Action::FocusWindowDownOrColumnLeft => n.name@ == "focus-window-down-or-column-left"@ && is_bare(n),
        Action::FocusWindowDownOrColumnRight => n.name@ == "focus-window-down-or-column-right"@ && is_bare(n),
        Action::FocusWindowUpOrColumnLeft => n.name@ == "focus-window-up-or-column-left"@ && is_bare(n),
        Action::FocusWindowUpOrColumnRight => n.name@ == "focus-window-up-or-column-right"@ && is_bare(n),
        Action::FocusWindowOrWorkspaceDown => n.name@ == "focus-window-or-workspace-down"@ && is_bare(n),
        Action::FocusWindowOrWorkspaceUp => n.name@ == "focus-window-or-workspace-up"@ && is_bare(n),
        Action::FocusWindowTop => n.name@ == "focus-window-top"@ && is_bare(n),
        Action::FocusWindowBottom => n.name@ == "focus-window-bottom"@ && is_bare(n),
        Action::FocusWindowDownOrTop => n.name@ == "focus-window-down-or-top"@ && is_bare(n),
        Action::FocusWindowUpOrBottom => n.name@ == "focus-window-up-or-bottom"@ && is_bare(n),
        Action::MoveColumnLeft => n.name@ == "move-column-left"@ && is_bare(n),
        Action::MoveColumnRight => n.name@ == "move-column-right"@ && is_bare(n),
        Action::MoveColumnToFirst => n.name@ == "move-column-to-first"@ && is_bare(n),
        Action::MoveColumnToLast => n.name@ == "move-column-to-last"@ && is_bare(n),
        Action::MoveColumnLeftOrToMonitorLeft => n.name@ == "move-column-left-or-to-monitor-left"@ && is_bare(n),
        Action::MoveColumnRightOrToMonitorRight => n.name@ == "move-column-right-or-to-monitor-right"@ && is_bare(n),
        Action::MoveColumnToIndex(x0) => n.name@ == "move-column-to-index"@ && int_fits(n, usize::MAX as int, x0 as int),
        Action::MoveWindowDown => n.name@ == "move-window-down"@ && is_bare(n),
        Action::MoveWindowUp => n.name@ == "move-window-up"@ && is_bare(n),
        Action::MoveWindowDownOrToWorkspaceDown => n.name@ == "move-window-down-or-to-workspace-down"@ && is_bare(n),
        Action::MoveWindowUpOrToWorkspaceUp => n.name@ == "move-window-up-or-to-workspace-up"@ && is_bare(n),
        Action::ConsumeOrExpelWindowLeft => n.name@ == "consume-or-expel-window-left"@ && is_bare(n),
        Action::ConsumeOrExpelWindowRight => n.name@ == "consume-or-expel-window-right"@ && is_bare(n),
        Action::ConsumeWindowIntoColumn => n.name@ == "consume-window-into-column"@ && is_bare(n),
        Action::ExpelWindowFromColumn => n.name@ == "expel-window-from-column"@ && is_bare(n),
        Action::SwapWindowLeft => n.name@ == "swap-window-left"@ && is_bare(n),
        Action::SwapWindowRight => n.name@ == "swap-window-right"@ && is_bare(n),
        Action::CenterColumn => n.name@ == "center-column"@ && is_bare(n),
        Action::CenterWindow => n.name@ == "center-window"@ && is_bare(n),
        Action::CenterVisibleColumns => n.name@ == "center-visible-columns"@ && is_bare(n),
        Action::FocusWorkspaceDown => n.name@ == "focus-workspace-down"@ && is_bare(n),
        Action::FocusWorkspaceUp => n.name@ == "focus-workspace-up"@ && is_bare(n),
        Action::FocusWorkspace(x0) => n.name@ == "focus-workspace"@ && workspace_arg_fits(n, x0),
        Action::FocusWorkspacePrevious => n.name@ == "focus-workspace-previous"@ && is_bare(n),
        Action::MoveWindowToWorkspaceDown(x0) => n.name@ == "move-window-to-workspace-down"@ && flag_fits(n, "focus"@, true, x0),
        Action::MoveWindowToWorkspaceUp(x0) => n.name@ == "move-window-to-workspace-up"@ && flag_fits(n, "focus"@, true, x0),
        Action::MoveWindowToWorkspace(x0, x1) => n.name@ == "move-window-to-workspace"@ && workspace_focus_fits(n, x0, x1),
        Action::MoveColumnToWorkspaceDown(x0) => n.name@ == "move-column-to-workspace-down"@ && flag_fits(n, "focus"@, true, x0),
        Action::MoveColumnToWorkspaceUp(x0) => n.name@ == "move-column-to-workspace-up"@ && flag_fits(n, "focus"@, true, x0),
        Action::MoveColumnToWorkspace(x0, x1) => n.name@ == "move-column-to-workspace"@ && workspace_focus_fits(n, x0, x1),
        Action::MoveWorkspaceDown => n.name@ == "move-workspace-down"@ && is_bare(n),
        Action::MoveWorkspaceUp => n.name@ == "move-workspace-up"@ && is_bare(n),
        Action::MoveWorkspaceToIndex(x0) => n.name@ == "move-workspace-to-index"@ && int_fits(n, usize::MAX as int, x0 as int),
        Action::MoveWorkspaceToMonitor(x0) => n.name@ == "move-workspace-to-monitor"@ && str_fits(n, x0@),
        Action::SetWorkspaceName(x0) => n.name@ == "set-workspace-name"@ && str_fits(n, x0@),
        Action::UnsetWorkspaceName => n.name@ == "unset-workspace-name"@ && is_bare(n),
        Action::FocusMonitorLeft => n.name@ == "focus-monitor-left"@ && is_bare(n),
        Action::FocusMonitorRight => n.name@ == "focus-monitor-right"@ && is_bare(n),
        Action::FocusMonitorDown => n.name@ == "focus-monitor-down"@ && is_bare(n),
        Action::FocusMonitorUp => n.name@ == "focus-monitor-up"@ && is_bare(n),
        Action::FocusMonitorPrevious => n.name@ == "focus-monitor-previous"@ && is_bare(n),
        Action::FocusMonitorNext => n.name@ == "focus-monitor-next"@ && is_bare(n),
        Action::FocusMonitor(x0) => n.name@ == "focus-monitor"@ && str_fits(n, x0@),
        Action::MoveWindowToMonitorLeft => n.name@ == "move-window-to-monitor-left"@ && is_bare(n),
        Action::MoveWindowToMonitorRight => n.name@ == "move-window-to-monitor-right"@ && is_bare(n),
        Action::MoveWindowToMonitorDown => n.name@ == "move-window-to-monitor-down"@ && is_bare(n),
        Action::MoveWindowToMonitorUp => n.name@ == "move-window-to-monitor-up"@ && is_bare(n),
        Action::MoveWindowToMonitorPrevious => n.name@ == "move-window-to-monitor-previous"@ && is_bare(n),
        Action::MoveWindowToMonitorNext => n.name@ == "move-window-to-monitor-next"@ && is_bare(n),
        Action::MoveWindowToMonitor(x0) => n.name@ == "move-window-to-monitor"@ && str_fits(n, x0@),
        Action::MoveColumnToMonitorLeft => n.name@ == "move-column-to-monitor-left"@ && is_bare(n),
        Action::MoveColumnToMonitorRight => n.name@ == "move-column-to-monitor-right"@ && is_bare(n),
        Action::MoveColumnToMonitorDown => n.name@ == "move-column-to-monitor-down"@ && is_bare(n),
        Action::MoveColumnToMonitorUp => n.name@ == "move-column-to-monitor-up"@ && is_bare(n),
        Action::MoveColumnToMonitorPrevious => n.name@ == "move-column-to-monitor-previous"@ && is_bare(n),
        Action::MoveColumnToMonitorNext => n.name@ == "move-column-to-monitor-next"@ && is_bare(n),
        Action::MoveColumnToMonitor(x0) => n.name@ == "move-column-to-monitor"@ && str_fits(n, x0@),
        Action::SetWindowWidth(x0) => n.name@ == "set-window-width"@ && str_fits(n, x0.0@),
        Action::SetWindowHeight(x0) => n.name@ == "set-window-height"@ && str_fits(n, x0.0@),
        Action::ResetWindowHeight => n.name@ == "reset-window-height"@ && is_bare(n),
        Action::SwitchPresetColumnWidth => n.name@ == "switch-preset-column-width"@ && is_bare(n),
        Action::SwitchPresetColumnWidthBack => n.name@ == "switch-preset-column-width-back"@ && is_bare(n),
        Action::SwitchPresetWindowWidth => n.name@ == "switch-preset-window-width"@ && is_bare(n),
        Action::SwitchPresetWindowWidthBack => n.name@ == "switch-preset-window-width-back"@ && is_bare(n),
        Action::SwitchPresetWindowHeight => n.name@ == "switch-preset-window-height"@ && is_bare(n),
        Action::SwitchPresetWindowHeightBack => n.name@ == "switch-preset-window-height-back"@ && is_bare(n),
        Action::MaximizeColumn => n.name@ == "maximize-column"@ && is_bare(n),
        Action::MaximizeWindowToEdges => n.name@ == "maximize-window-to-edges"@ && is_bare(n),
        Action::SetColumnWidth(x0) => n.name@ == "set-column-width"@ && str_fits(n, x0.0@),
        Action::ExpandColumnToAvailableWidth => n.name@ == "expand-column-to-available-width"@ && is_bare(n),
        Action::SwitchLayout(x0) => n.name@ == "switch-layout"@ && layout_fits(n, x0),
        Action::ShowHotkeyOverlay => n.name@ == "show-hotkey-overlay"@ && is_bare(n),
        Action::MoveWorkspaceToMonitorLeft => n.name@ == "move-workspace-to-monitor-left"@ && is_bare(n),
        Action::MoveWorkspaceToMonitorRight => n.name@ == "move-workspace-to-monitor-right"@ && is_bare(n),
        Action::MoveWorkspaceToMonitorDown => n.name@ == "move-workspace-to-monitor-down"@ && is_bare(n),
        Action::MoveWorkspaceToMonitorUp => n.name@ == "move-workspace-to-monitor-up"@ && is_bare(n),
        Action::MoveWorkspaceToMonitorPrevious => n.name@ == "move-workspace-to-monitor-previous"@ && is_bare(n),
        Action::MoveWorkspaceToMonitorNext => n.name@ == "move-workspace-to-monitor-next"@ && is_bare(n),
        Action::ToggleWindowFloating => n.name@ == "toggle-window-floating"@ && is_bare(n),
        Action::MoveWindowToFloating => n.name@ == "move-window-to-floating"@ && is_bare(n),
        Action::MoveWindowToTiling => n.name@ == "move-window-to-tiling"@ && is_bare(n),
        Action::FocusFloating => n.name@ == "focus-floating"@ && is_bare(n),
        Action::FocusTiling => n.name@ == "focus-tiling"@ && is_bare(n),
        Action::SwitchFocusBetweenFloatingAndTiling => n.name@ == "switch-focus-between-floating-and-tiling"@ && is_bare(n),
        Action::ToggleWindowRuleOpacity => n.name@ == "toggle-window-rule-opacity"@ && is_bare(n),
        Action::SetDynamicCastWindow => n.name@ == "set-dynamic-cast-window"@ && is_bare(n),
        Action::SetDynamicCastMonitor(x0) => n.name@ == "set-dynamic-cast-monitor"@ && opt_str_fits(n, x0),
        Action::ClearDynamicCastTarget => n.name@ == "clear-dynamic-cast-target"@ && is_bare(n),
        Action::ToggleOverview => n.name@ == "toggle-overview"@ && is_bare(n),
        Action::OpenOverview => n.name@ == "open-overview"@ && is_bare(n),
        Action::CloseOverview => n.name@ == "close-overview"@ && is_bare(n),
        _ => false,
    }
}

/// The node names an action of the document and is well formed for it.
pub open spec fn decodable(n: Node) -> bool {
    if n.name@ == "quit"@ {
        flag_ok(n, "skip-confirmation"@, false)
    } else if n.name@ == "suspend"@ {
        is_bare(n)
    } else if n.name@ == "power-off-monitors"@ {
        is_bare(n)
    } else if n.name@ == "power-on-monitors"@ {
        is_bare(n)
    } else if n.name@ == "toggle-debug-tint"@ {
        is_bare(n)
    } else if n.name@ == "debug-toggle-opaque-regions"@ {
        is_bare(n)
    } else if n.name@ == "debug-toggle-damage"@ {
        is_bare(n)
    } else if n.name@ == "spawn"@ {
        strings_ok(n)
    } else if n.name@ == "spawn-sh"@ {
        str_ok(n)
    } else if n.name@ == "do-screen-transition"@ {
        delay_ok(n)
    } else if n.name@ == "screenshot"@ {
        flag_ok(n, "show-pointer"@, true)
    } else if n.name@ == "screenshot-screen"@ {
        flags_ok(n, "write-to-disk"@, true, "show-pointer"@, true)
    } else if n.name@ == "screenshot-window"@ {
        flag_ok(n, "write-to-disk"@, true)
    } else if n.name@ == "toggle-keyboard-shortcuts-inhibit"@ {
        is_bare(n)
    } else if n.name@ == "close-window"@ {
        is_bare(n)
    } else if n.name@ == "toggle-group"@ {
        is_bare(n)
    } else if n.name@ == "move-window-into-or-out-of-group"@ {
        direction_ok(n)
    } else if n.name@ == "focus-next-window"@ {
        is_bare(n)
    } else if n.name@ == "focus-previous-window"@ {
        is_bare(n)
    } else if n.name@ == "fullscreen-window"@ {
        is_bare(n)
    } else if n.name@ == "toggle-windowed-fullscreen"@ {
        is_bare(n)
    } else if n.name@ == "focus-window-in-column"@ {
        int_ok(n, 255)
    } else if n.name@ == "focus-window-previous"@ {
        is_bare(n)
    } else if n.name@ == "focus-column-left"@ {
        is_bare(n)
    } else if n.name@ == "focus-column-right"@ {
        is_bare(n)
    } else if n.name@ == "focus-column-first"@ {
        is_bare(n)
    } else if n.name@ == "focus-column-last"@ {
        is_bare(n)
    } else if n.name@ == "focus-column-right-or-first"@ {
        is_bare(n)
    } else if n.name@ == "focus-column-left-or-last"@ {
        is_bare(n)
    } else if n.name@ == "focus-column"@ {
        int_ok(n, usize::MAX as int)
    } else if n.name@ == "focus-window-or-monitor-up"@ {
        is_bare(n)
    } else if n.name@ == "focus-window-or-monitor-down"@ {
        is_bare(n)
    } else if n.name@ == "focus-column-or-monitor-left"@ {
        is_bare(n)
    } else if n.name@ == "focus-column-or-monitor-right"@ {
        is_bare(n)
    } else if n.name@ == "focus-window-down"@ {
        is_bare(n)
    } else if n.name@ == "focus-window-up"@ {
        is_bare(n)
    } else if n.name@ == "focus-window-down-or-column-left"@ {
        is_bare(n)
    } else if n.name@ == "focus-window-down-or-column-right"@ {
        is_bare(n)
    } else if n.name@ == "focus-window-up-or-column-left"@ {
        is_bare(n)
    } else if n.name@ == "focus-window-up-or-column-right"@ {
        is_bare(n)
    } else if n.name@ == "focus-window-or-workspace-down"@ {
        is_bare(n)
    } else if n.name@ == "focus-window-or-workspace-up"@ {
        is_bare(n)
    } else if n.name@ == "focus-window-top"@ {
        is_bare(n)
    } else if n.name@ == "focus-window-bottom"@ {
        is_bare(n)
    } else if n.name@ == "focus-window-down-or-top"@ {
        is_bare(n)
    } else if n.name@ == "focus-window-up-or-bottom"@ {
        is_bare(n)
    } else if n.name@ == "move-column-left"@ {
        is_bare(n)
    } else if n.name@ == "move-column-right"@ {
        is_bare(n)
    } else if n.name@ == "move-column-to-first"@ {
        is_bare(n)
    } else if n.name@ == "move-column-to-last"@ {
        is_bare(n)
    } else if n.name@ == "move-column-left-or-to-monitor-left"@ {
        is_bare(n)
    } else if n.name@ == "move-column-right-or-to-monitor-right"@ {
        is_bare(n)
    } else if n.name@ == "move-column-to-index"@ {
        int_ok(n, usize::MAX as int)
    } else if n.name@ == "move-window-down"@ {
        is_bare(n)
    } else if n.name@ == "move-window-up"@ {
        is_bare(n)
    } else if n.name@ == "move-window-down-or-to-workspace-down"@ {
        is_bare(n)
    } else if n.name@ == "move-window-up-or-to-workspace-up"@ {
        is_bare(n)
    } else if n.name@ == "consume-or-expel-window-left"@ {
        is_bare(n)
    } else if n.name@ == "consume-or-expel-window-right"@ {
        is_bare(n)
    } else if n.name@ == "consume-window-into-column"@ {
        is_bare(n)
    } else if n.name@ == "expel-window-from-column"@ {
        is_bare(n)
    } else if n.name@ == "swap-window-left"@ {
        is_bare(n)
    } else if n.name@ == "swap-window-right"@ {
        is_bare(n)
    } else if n.name@ == "center-column"@ {
        is_bare(n)
    } else if n.name@ == "center-window"@ {
        is_bare(n)
    } else if n.name@ == "center-visible-columns"@ {
        is_bare(n)
    } else if n.name@ == "focus-workspace-down"@ {
        is_bare(n)
    } else if n.name@ == "focus-workspace-up"@ {
        is_bare(n)
    } else if n.name@ == "focus-workspace"@ {
        workspace_arg_ok(n)
    } else if n.name@ == "focus-workspace-previous"@ {
        is_bare(n)
    } else if n.name@ == "move-window-to-workspace-down"@ {
        flag_ok(n, "focus"@, true)
    } else if n.name@ == "move-window-to-workspace-up"@ {
        flag_ok(n, "focus"@, true)
    } else if n.name@ == "move-window-to-workspace"@ {
        workspace_focus_ok(n)
    } else if n.name@ == "move-column-to-workspace-down"@ {
        flag_ok(n, "focus"@, true)
    } else if n.name@ == "move-column-to-workspace-up"@ {
        flag_ok(n, "focus"@, true)
    } else if n.name@ == "move-column-to-workspace"@ {
        workspace_focus_ok(n)
    } else if n.name@ == "move-workspace-down"@ {
        is_bare(n)
    } else if n.name@ == "move-workspace-up"@ {
        is_bare(n)
    } else if n.name@ == "move-workspace-to-index"@ {
        int_ok(n, usize::MAX as int)
    } else if n.name@ == "move-workspace-to-monitor"@ {
        str_ok(n)
    } else if n.name@ == "set-workspace-name"@ {
        str_ok(n)
    } else if n.name@ == "unset-workspace-name"@ {
        is_bare(n)
    } else if n.name@ == "focus-monitor-left"@ {
        is_bare(n)
    } else if n.name@ == "focus-monitor-right"@ {
        is_bare(n)
    } else if n.name@ == "focus-monitor-down"@ {
        is_bare(n)
    } else if n.name@ == "focus-monitor-up"@ {
        is_bare(n)
    } else if n.name@ == "focus-monitor-previous"@ {
        is_bare(n)
    } else if n.name@ == "focus-monitor-next"@ {
        is_bare(n)
    } else if n.name@ == "focus-monitor"@ {
        str_ok(n)
    } else if n.name@ == "move-window-to-monitor-left"@ {
        is_bare(n)
    } else if n.name@ == "move-window-to-monitor-right"@ {
        is_bare(n)
    } else if n.name@ == "move-window-to-monitor-down"@ {
        is_bare(n)
    } else if n.name@ == "move-window-to-monitor-up"@ {
        is_bare(n)
    } else if n.name@ == "move-window-to-monitor-previous"@ {
        is_bare(n)
    } else if n.name@ == "move-window-to-monitor-next"@ {
        is_bare(n)
    } else if n.name@ == "move-window-to-monitor"@ {
        str_ok(n)
    } else if n.name@ == "move-column-to-monitor-left"@ {
        is_bare(n)
    } else if n.name@ == "move-column-to-monitor-right"@ {
        is_bare(n)
    } else if n.name@ == "move-column-to-monitor-down"@ {
        is_bare(n)
    } else if n.name@ == "move-column-to-monitor-up"@ {
        is_bare(n)
    } else if n.name@ == "move-column-to-monitor-previous"@ {
        is_bare(n)
    } else if n.name@ == "move-column-to-monitor-next"@ {
        is_bare(n)
    } else if n.name@ == "move-column-to-monitor"@ {
        str_ok(n)
    } else if n.name@ == "set-window-width"@ {
        str_ok(n)
    } else if n.name@ == "set-window-height"@ {
        str_ok(n)
    } else if n.name@ == "reset-window-height"@ {
        is_bare(n)
    } else if n.name@ == "switch-preset-column-width"@ {
        is_bare(n)
    } else if n.name@ == "switch-preset-column-width-back"@ {
        is_bare(n)
    } else if n.name@ == "switch-preset-window-width"@ {
        is_bare(n)
    } else if n.name@ == "switch-preset-window-width-back"@ {
        is_bare(n)
    } else if n.name@ == "switch-preset-window-height"@ {
        is_bare(n)
    } else if n.name@ == "switch-preset-window-height-back"@ {
        is_bare(n)
    } else if n.name@ == "maximize-column"@ {
        is_bare(n)
    } else if n.name@ == "maximize-window-to-edges"@ {
        is_bare(n)
    } else if n.name@ == "set-column-width"@ {
        str_ok(n)
    } else if n.name@ == "expand-column-to-available-width"@ {
        is_bare(n)
    } else if n.name@ == "switch-layout"@ {
        layout_ok(n)
    } else if n.name@ == "show-hotkey-overlay"@ {
        is_bare(n)
    } else if n.name@ == "move-workspace-to-monitor-left"@ {
        is_bare(n)
    } else if n.name@ == "move-workspace-to-monitor-right"@ {
        is_bare(n)
    } else if n.name@ == "move-workspace-to-monitor-down"@ {
        is_bare(n)
    } else if n.name@ == "move-workspace-to-monitor-up"@ {
        is_bare(n)
    } else if n.name@ == "move-workspace-to-monitor-previous"@ {
        is_bare(n)
    } else if n.name@ == "move-workspace-to-monitor-next"@ {
        is_bare(n)
    } else if n.name@ == "toggle-window-floating"@ {
        is_bare(n)
    } else if n.name@ == "move-window-to-floating"@ {
        is_bare(n)
    } else if n.name@ == "move-window-to-tiling"@ {
        is_bare(n)
    } else if n.name@ == "focus-floating"@ {
        is_bare(n)
    } else if n.name@ == "focus-tiling"@ {
        is_bare(n)
    } else if n.name@ == "switch-focus-between-floating-and-tiling"@ {
        is_bare(n)
    } else if n.name@ == "toggle-window-rule-opacity"@ {
        is_bare(n)
    } else if n.name@ == "set-dynamic-cast-window"@ {
        is_bare(n)
    } else if n.name@ == "set-dynamic-cast-monitor"@ {
        opt_str_ok(n)
    } else if n.name@ == "clear-dynamic-cast-target"@ {
        is_bare(n)
    } else if n.name@ == "toggle-overview"@ {
        is_bare(n)
    } else if n.name@ == "open-overview"@ {
        is_bare(n)
    } else if n.name@ == "close-overview"@ {
        is_bare(n)
    } else {
        false
    }
}

/// The node names an action of the document.
pub open spec fn is_action_name(s: Seq<char>) -> bool {
    s == "quit"@ || s == "suspend"@ || s == "power-off-monitors"@ || s == "power-on-monitors"@ || s == "toggle-debug-tint"@ || s == "debug-toggle-opaque-regions"@ || s == "debug-toggle-damage"@ || s == "spawn"@ || s == "spawn-sh"@ || s == "do-screen-transition"@ || s == "screenshot"@ || s == "screenshot-screen"@ || s == "screenshot-window"@ || s == "toggle-keyboard-shortcuts-inhibit"@ || s == "close-window"@ || s == "toggle-group"@ || s == "move-window-into-or-out-of-group"@ || s == "focus-next-window"@ || s == "focus-previous-window"@ || s == "fullscreen-window"@ || s == "toggle-windowed-fullscreen"@ || s == "focus-window-in-column"@ || s == "focus-window-previous"@ || s == "focus-column-left"@ || s == "focus-column-right"@ || s == "focus-column-first"@ || s == "focus-column-last"@ || s == "focus-column-right-or-first"@ || s == "focus-column-left-or-last"@ || s == "focus-column"@ || s == "focus-window-or-monitor-up"@ || s == "focus-window-or-monitor-down"@ || s == "focus-column-or-monitor-left"@ || s == "focus-column-or-monitor-right"@ || s == "focus-window-down"@ || s == "focus-window-up"@ || s == "focus-window-down-or-column-left"@ || s == "focus-window-down-or-column-right"@ || s == "focus-window-up-or-column-left"@ || s == "focus-window-up-or-column-right"@ || s == "focus-window-or-workspace-down"@ || s == "focus-window-or-workspace-up"@ || s == "focus-window-top"@ || s == "focus-window-bottom"@ || s == "focus-window-down-or-top"@ || s == "focus-window-up-or-bottom"@ || s == "move-column-left"@ || s == "move-column-right"@ || s == "move-column-to-first"@ || s == "move-column-to-last"@ || s == "move-column-left-or-to-monitor-left"@ || s == "move-column-right-or-to-monitor-right"@ || s == "move-column-to-index"@ || s == "move-window-down"@ || s == "move-window-up"@ || s == "move-window-down-or-to-workspace-down"@ || s == "move-window-up-or-to-workspace-up"@ || s == "consume-or-expel-window-left"@ || s == "consume-or-expel-window-right"@ || s == "consume-window-into-column"@ || s == "expel-window-from-column"@ || s == "swap-window-left"@ || s == "swap-window-right"@ || s == "center-column"@ || s == "center-window"@ || s == "center-visible-columns"@ || s == "focus-workspace-down"@ || s == "focus-workspace-up"@ || s == "focus-workspace"@ || s == "focus-workspace-previous"@ || s == "move-window-to-workspace-down"@ || s == "move-window-to-workspace-up"@ || s == "move-window-to-workspace"@ || s == "move-column-to-workspace-down"@ || s == "move-column-to-workspace-up"@ || s == "move-column-to-workspace"@ || s == "move-workspace-down"@ || s == "move-workspace-up"@ || s == "move-workspace-to-index"@ || s == "move-workspace-to-monitor"@ || s == "set-workspace-name"@ || s == "unset-workspace-name"@ || s == "focus-monitor-left"@ || s == "focus-monitor-right"@ || s == "focus-monitor-down"@ || s == "focus-monitor-up"@ || s == "focus-monitor-previous"@ || s == "focus-monitor-next"@ || s == "focus-monitor"@ || s == "move-window-to-monitor-left"@ || s == "move-window-to-monitor-right"@ || s == "move-window-to-monitor-down"@ || s == "move-window-to-monitor-up"@ || s == "move-window-to-monitor-previous"@ || s == "move-window-to-monitor-next"@ || s == "move-window-to-monitor"@ || s == "move-column-to-monitor-left"@ || s == "move-column-to-monitor-right"@ || s == "move-column-to-monitor-down"@ || s == "move-column-to-monitor-up"@ || s == "move-column-to-monitor-previous"@ || s == "move-column-to-monitor-next"@ || s == "move-column-to-monitor"@ || s == "set-window-width"@ || s == "set-window-height"@ || s == "reset-window-height"@ || s == "switch-preset-column-width"@ || s == "switch-preset-column-width-back"@ || s == "switch-preset-window-width"@ || s == "switch-preset-window-width-back"@ || s == "switch-preset-window-height"@ || s == "switch-preset-window-height-back"@ || s == "maximize-column"@ || s == "maximize-window-to-edges"@ || s == "set-column-width"@ || s == "expand-column-to-available-width"@ || s == "switch-layout"@ || s == "show-hotkey-overlay"@ || s == "move-workspace-to-monitor-left"@ || s == "move-workspace-to-monitor-right"@ || s == "move-workspace-to-monitor-down"@ || s == "move-workspace-to-monitor-up"@ || s == "move-workspace-to-monitor-previous"@ || s == "move-workspace-to-monitor-next"@ || s == "toggle-window-floating"@ || s == "move-window-to-floating"@ || s == "move-window-to-tiling"@ || s == "focus-floating"@ || s == "focus-tiling"@ || s == "switch-focus-between-floating-and-tiling"@ || s == "toggle-window-rule-opacity"@ || s == "set-dynamic-cast-window"@ || s == "set-dynamic-cast-monitor"@ || s == "clear-dynamic-cast-target"@ || s == "toggle-overview"@ || s == "open-overview"@ || s == "close-overview"@
}
fn decode_unit(n: &Node) -> (r: Result<(), DecodeError>)
    ensures
        r is Ok <==> is_bare(*n),
{
    match check_no_args(n) {
        Err(e) => Err(e),
        Ok(()) => {
            if n.properties.len() > 0 {
                Err(DecodeError::UnexpectedProperty(n.properties[0].name.clone()))
            } else {
                Ok(())
            }
        },
    }
}

fn decode_flag(n: &Node, p: &str, d: bool) -> (r: Result<bool, DecodeError>)
    ensures
        r is Ok <==> flag_ok(*n, p@, d),
        r matches Ok(b) ==> flag_fits(*n, p@, d, b),
{
    match check_no_args(n) {
        Err(e) => Err(e),
        Ok(()) => match check_props(n, p, p) {
            Err(e) => Err(e),
            Ok(()) => get_bool_prop(n, p, d),
        },
    }
}

fn decode_flags(n: &Node, p: &str, d: bool, q: &str, e: bool) -> (r: Result<(bool, bool), DecodeError>)
    ensures
        r is Ok <==> flags_ok(*n, p@, d, q@, e),
        r matches Ok((b, c)) ==> flags_fit(*n, p@, d, b, q@, e, c),
{
    match check_no_args(n) {
        Err(err) => Err(err),
        Ok(()) => match check_props(n, p, q) {
            Err(err) => Err(err),
            Ok(()) => match get_bool_prop(n, p, d) {
                Err(err) => Err(err),
                Ok(b) => match get_bool_prop(n, q, e) {
                    Err(err) => Err(err),
                    Ok(c) => Ok((b, c)),
                },
            },
        },
    }
}

pub(crate) fn decode_strings(n: &Node) -> (r: Result<Vec<String>, DecodeError>)
    ensures
        r is Ok <==> strings_ok(*n),
        r matches Ok(v) ==> strings_fit(*n, v@),
{
    if n.children.len() > 0 {
        return Err(DecodeError::UnexpectedChild);
    }
    if n.properties.len() > 0 {
        return Err(DecodeError::UnexpectedProperty(n.properties[0].name.clone()));
    }
    let mut out: Vec<String> = Vec::new();
    let mut i: usize = 0;
    while i < n.arguments.len()
        invariant
            i <= n.arguments@.len(),
            out@.len() == i,
            forall|k: int| 0 <= k < i ==> #[trigger] str_of(n.arguments@[k]) == Some(out@[k]@),
        decreases n.arguments@.len() - i,
    {
        match &n.arguments[i] {
            Value::Str(s) => {
                out.push(s.clone());
            },
            _ => {
                assert(str_of(n.arguments@[i as int]) is None);
                return Err(DecodeError::InvalidValue);
            },
        }
        i += 1;
    }
    Ok(out)
}

pub(crate) fn decode_str(n: &Node) -> (r: Result<String, DecodeError>)
    ensures
        r is Ok <==> str_ok(*n),
        r matches Ok(s) ==> str_fits(*n, s@),
{
    match check_one_arg(n) {
        Err(e) => Err(e),
        Ok(()) => {
            if n.properties.len() > 0 {
                Err(DecodeError::UnexpectedProperty(n.properties[0].name.clone()))
            } else {
                match &n.arguments[0] {
                    Value::Str(s) => Ok(s.clone()),
                    _ => Err(DecodeError::InvalidValue),
                }
            }
        },
    }
}

pub(crate) fn decode_opt_str(n: &Node) -> (r: Result<Option<String>, DecodeError>)
    ensures
        r is Ok <==> opt_str_ok(*n),
        r matches Ok(o) ==> opt_str_fits(*n, o),
{
    if n.children.len() > 0 {
        Err(DecodeError::UnexpectedChild)
    } else if n.properties.len() > 0 {
        Err(DecodeError::UnexpectedProperty(n.properties[0].name.clone()))
    } else if n.arguments.len() == 0 {
        Ok(None)
    } else if n.arguments.len() > 1 {
        Err(DecodeError::UnexpectedArgument)
    } else {
        match &n.arguments[0] {
            Value::Null => Ok(None),
            Value::Str(s) => Ok(Some(s.clone())),
            _ => Err(DecodeError::InvalidValue),
        }
    }
}

fn decode_int(n: &Node, max: u64) -> (r: Result<u64, DecodeError>)
    ensures
        r is Ok <==> int_ok(*n, max as int),
        r matches Ok(x) ==> int_fits(*n, max as int, x as int) && x <= max,
{
    match check_one_arg(n) {
        Err(e) => Err(e),
        Ok(()) => {
            if n.properties.len() > 0 {
                Err(DecodeError::UnexpectedProperty(n.properties[0].name.clone()))
            } else {
                match &n.arguments[0] {
                    Value::Int(v) => {
                        if 0 <= *v && *v <= max as i128 {
                            Ok(*v as u64)
                        } else {
                            Err(DecodeError::InvalidValue)
                        }
                    },
                    _ => Err(DecodeError::InvalidValue),
                }
            }
        },
    }
}

fn decode_direction(n: &Node) -> (r: Result<WindowMoveDirection, DecodeError>)
    ensures
        r is Ok <==> direction_ok(*n),
        r matches Ok(d) ==> direction_fits(*n, d),
{
    let s = match decode_str(n) {
        Err(e) => {
            return Err(e);
        },
        Ok(s) => s,
    };
    let t = s.as_str();
    if str_eq(t, "up") {
        assert(str_of(n.arguments@[0]) == Some(direction_name(WindowMoveDirection::Up)));
        Ok(WindowMoveDirection::Up)
    } else if str_eq(t, "left") {
        assert(str_of(n.arguments@[0]) == Some(direction_name(WindowMoveDirection::Left)));
        Ok(WindowMoveDirection::Left)
    } else if str_eq(t, "right") {
        assert(str_of(n.arguments@[0]) == Some(direction_name(WindowMoveDirection::Right)));
        Ok(WindowMoveDirection::Right)
    } else if str_eq(t, "down") {
        assert(str_of(n.arguments@[0]) == Some(direction_name(WindowMoveDirection::Down)));
        Ok(WindowMoveDirection::Down)
    } else {
        proof {
            assert forall|d: WindowMoveDirection|
                str_of(n.arguments@[0]) != Some(#[trigger] direction_name(d)) by {
                match d {
                    WindowMoveDirection::Up => {},
                    WindowMoveDirection::Left => {},
                    WindowMoveDirection::Right => {},
                    WindowMoveDirection::Down => {},
                }
            }
        }
        Err(DecodeError::InvalidValue)
    }
}

/// Reads a workspace reference; the flag tells whether it fell back to
/// index 0, which is reported rather than failing.
fn decode_workspace_value(v: &Value) -> (r: (WorkspaceReference, bool))
    ensures
        workspace_fits(*v, r.0),
        r.1 == !workspace_ok(*v),
{
    match v {
        Value::Str(s) => (WorkspaceReference::Name(s.clone()), false),
        Value::Int(i) => {
            if 0 <= *i && *i <= 255 {
                (WorkspaceReference::Index(*i as u8), false)
            } else {
                (WorkspaceReference::Index(0), true)
            }
        },
        _ => (WorkspaceReference::Index(0), true),
    }
}

fn decode_workspace(n: &Node) -> (r: Result<WorkspaceReference, DecodeError>)
    ensures
        r is Ok <==> workspace_arg_ok(*n),
        r matches Ok(w) ==> workspace_arg_fits(*n, w),
{
    match check_one_arg(n) {
        Err(e) => Err(e),
        Ok(()) => {
            if n.properties.len() > 0 {
                Err(DecodeError::UnexpectedProperty(n.properties[0].name.clone()))
            } else {
                Ok(decode_workspace_value(&n.arguments[0]).0)
            }
        },
    }
}

fn decode_workspace_focus(n: &Node) -> (r: Result<(WorkspaceReference, bool), DecodeError>)
    ensures
        r is Ok <==> workspace_focus_ok(*n),
        r matches Ok((w, f)) ==> workspace_focus_fits(*n, w, f),
{
    match check_one_arg(n) {
        Err(e) => Err(e),
        Ok(()) => match check_props(n, "focus", "focus") {
            Err(e) => Err(e),
            Ok(()) => match get_bool_prop(n, "focus", true) {
                Err(e) => Err(e),
                Ok(f) => Ok((decode_workspace_value(&n.arguments[0]).0, f)),
            },
        },
    }
}

fn decode_delay(n: &Node) -> (r: Result<Option<u16>, DecodeError>)
    ensures
        r is Ok <==> delay_ok(*n),
        r matches Ok(o) ==> delay_fits(*n, o),
{
    match check_no_args(n) {
        Err(e) => Err(e),
        Ok(()) => match check_props(n, "delay-ms", "delay-ms") {
            Err(e) => Err(e),
            Ok(()) => match get_int_prop(n, "delay-ms", 65535) {
                Err(e) => Err(e),
                Ok(None) => Ok(None),
                Ok(Some(x)) => Ok(Some(x as u16)),
            },
        },
    }
}

fn decode_size(n: &Node) -> (r: Result<SizeChange, DecodeError>)
    ensures
        r is Ok <==> str_ok(*n),
        r matches Ok(s) ==> str_fits(*n, s.0@),
{
    match decode_str(n) {
        Err(e) => Err(e),
        Ok(s) => Ok(SizeChange(s)),
    }
}

/// Reads a layout-switch target: `next`, `prev` or an index up to 255.
pub fn parse_layout_target(s: &str) -> (r: Option<LayoutSwitchTarget>)
    ensures
        r == layout_target(s@),
{
    if str_eq(s, "next") {
        return Some(LayoutSwitchTarget::Next);
    }
    if str_eq(s, "prev") {
        return Some(LayoutSwitchTarget::Prev);
    }
    let len = s.unicode_len();
    if len < 1 || len > 3 {
        return None;
    }
    let mut v: u32 = 0;
    let mut i: usize = 0;
    while i < len
        invariant
            len == s@.len(),
            1 <= len <= 3,
            i <= len,
            s@ != "next"@,
            s@ != "prev"@,
            forall|k: int| 0 <= k < i ==> '0' <= #[trigger] s@[k] <= '9',
            v as int == decimal_value(s@.subrange(0, i as int)),
            v < 1000,
            i == 0 ==> v == 0,
            i == 1 ==> v < 10,
            i == 2 ==> v < 100,
        decreases len - i,
    {
        let c = s.get_char(i);
        if c < '0' || c > '9' {
            assert(!('0' <= s@[i as int] && s@[i as int] <= '9'));
            return None;
        }
        proof {
            assert(s@.subrange(0, i + 1).drop_last() =~= s@.subrange(0, i as int));
        }
        v = v * 10 + (c as u32 - '0' as u32);
        i += 1;
    }
    proof {
        assert(s@.subrange(0, len as int) =~= s@);
    }
    if v <= 255 {
        Some(LayoutSwitchTarget::Index(v as u8))
    } else {
        None
    }
}

fn decode_layout(n: &Node) -> (r: Result<LayoutSwitchTarget, DecodeError>)
    ensures
        r is Ok <==> layout_ok(*n),
        r matches Ok(t) ==> layout_fits(*n, t),
{
    match decode_str(n) {
        Err(e) => Err(e),
        Ok(s) => match parse_layout_target(s.as_str()) {
            Some(t) => Ok(t),
            None => Err(DecodeError::InvalidValue),
        },
    }
}
/// An action node read: the action, or why there is none, and the
/// diagnostic reported on the way where a workspace argument fell back.
#[derive(Debug)]
pub struct ActionDecode {
    pub action: Result<Action, DecodeError>,
    pub note: Option<DecodeError>,
}

/// Reads the action that a node of the document names.
pub fn decode_action(n: &Node) -> (r: ActionDecode)
    ensures
        r.action matches Ok(a) ==> decoded_as(*n, a),
        r.action is Ok <==> decodable(*n),
        !is_action_name(n.name@) ==> r.action matches Err(DecodeError::UnknownNode(_)),
        r.note == workspace_note(*n),
{
    let action = read_action(n);
    let name = n.name.as_str();
    let takes = str_eq(name, "focus-workspace") || str_eq(name, "move-window-to-workspace")
        || str_eq(name, "move-column-to-workspace");
    let note = if takes && n.arguments.len() == 1 && n.children.len() == 0 {
        if decode_workspace_value(&n.arguments[0]).1 {
            Some(DecodeError::InvalidValue)
        } else {
            None
        }
    } else {
        None
    };
    ActionDecode { action, note }
}

#[verifier::rlimit(100)]
fn read_action(n: &Node) -> (r: Result<Action, DecodeError>)
    ensures
        r matches Ok(a) ==> decoded_as(*n, a),
        r is Ok <==> decodable(*n),
        !is_action_name(n.name@) ==> r matches Err(DecodeError::UnknownNode(_)),
{
    let name = n.name.as_str();
    if str_eq(name, "quit") {
        match decode_flag(n, "skip-confirmation", false) {
            Ok(b) => Ok(Action::Quit(b)),
            Err(e) => Err(e),
        }
    } else if str_eq(name, "suspend") {
        match decode_unit(n) {
            Ok(()) => Ok(Action::Suspend),
            Err(e) => Err(e),
        }
    } else if str_eq(name, "power-off-monitors") {
        match decode_unit(n) {
            Ok(()) => Ok(Action::PowerOffMonitors),
            Err(e) => Err(e),
        }
    } else if str_eq(name, "power-on-monitors") {
        match decode_unit(n) {
            Ok(()) => Ok(Action::PowerOnMonitors),
            Err(e) => Err(e),
        }
    } else if str_eq(name, "toggle-debug-tint") {
        match decode_unit(n) {
            Ok(()) => Ok(Action::ToggleDebugTint),
            Err(e) => Err(e),
        }
    } else if str_eq(name, "debug-toggle-opaque-regions") {
        match decode_unit(n) {
            Ok(()) => Ok(Action::DebugToggleOpaqueRegions),
            Err(e) => Err(e),
        }
    } else if str_eq(name, "debug-toggle-damage") {
        match decode_unit(n) {
            Ok(()) => Ok(Action::DebugToggleDamage),
            Err(e) => Err(e),
        }
    } else if str_eq(name, "spawn") {
        match decode_strings(n) {
            Ok(v) => Ok(Action::Spawn(v)),
            Err(e) => Err(e),
        }
    } else if str_eq(name, "spawn-sh") {
        match decode_str(n) {
            Ok(s) => Ok(Action::SpawnSh(s)),
            Err(e) => Err(e),
        }
    } else if str_eq(name, "do-screen-transition") {
        match decode_delay(n) {
            Ok(o) => Ok(Action::DoScreenTransition(o)),
            Err(e) => Err(e),
        }
    } else if str_eq(name, "screenshot") {
        match decode_flag(n, "show-pointer", true) {
            Ok(b) => Ok(Action::Screenshot(b, None)),
            Err(e) => Err(e),
        }
    } else if str_eq(name, "screenshot-screen") {
        match decode_flags(n, "write-to-disk", true, "show-pointer", true) {
            Ok((b, c)) => Ok(Action::ScreenshotScreen(b, c, None)),
            Err(e) => Err(e),
        }
    } else if str_eq(name, "screenshot-window") {
        match decode_flag(n, "write-to-disk", true) {
            Ok(b) => Ok(Action::ScreenshotWindow(b, None)),
            Err(e) => Err(e),
        }
    } else if str_eq(name, "toggle-keyboard-shortcuts-inhibit") {
        match decode_unit(n) {
            Ok(()) => Ok(Action::ToggleKeyboardShortcutsInhibit),
            Err(e) => Err(e),
        }
    } else if str_eq(name, "close-window") {
        match decode_unit(n) {
            Ok(()) => Ok(Action::CloseWindow),
            Err(e) => Err(e),
        }
    } else if str_eq(name, "toggle-group") {
        match decode_unit(n) {
            Ok(()) => Ok(Action::ToggleGroup),
            Err(e) => Err(e),
        }
    } else if str_eq(name, "move-window-into-or-out-of-group") {
        match decode_direction(n) {
            Ok(d) => Ok(Action::MoveWindowIntoOrOutOfGroup(d)),
            Err(e) => Err(e),
        }
    } else if str_eq(name, "focus-next-window") {
        match decode_unit(n) {
            Ok(()) => Ok(Action::FocusNextWindow),
            Err(e) => Err(e),
        }
    } else if str_eq(name, "focus-previous-window") {
        match decode_unit(n) {
            Ok(()) => Ok(Action::FocusPreviousWindow),
            Err(e) => Err(e),
        }
    } else if str_eq(name, "fullscreen-window") {
        match decode_unit(n) {
            Ok(()) => Ok(Action::FullscreenWindow),
            Err(e) => Err(e),
        }
    } else if str_eq(name, "toggle-windowed-fullscreen") {
        match decode_unit(n) {
            Ok(()) => Ok(Action::ToggleWindowedFullscreen),
            Err(e) => Err(e),
        }
    } else if str_eq(name, "focus-window-in-column") {
        match decode_int(n, 255) {
            Ok(x) => Ok(Action::FocusWindowInColumn(x as u8)),
            Err(e) => Err(e),
        }
    } else if str_eq(name, "focus-window-previous") {
        match decode_unit(n) {
            Ok(()) => Ok(Action::FocusWindowPrevious),
            Err(e) => Err(e),
        }
    } else if str_eq(name, "focus-column-left") {
        match decode_unit(n) {
            Ok(()) => Ok(Action::FocusColumnLeft),
            Err(e) => Err(e),
        }
    } else if str_eq(name, "focus-column-right") {
        match decode_unit(n) {
            Ok(()) => Ok(Action::FocusColumnRight),
            Err(e) => Err(e),
        }
    } else if str_eq(name, "focus-column-first") {
        match decode_unit(n) {
            Ok(()) => Ok(Action::FocusColumnFirst),
            Err(e) => Err(e),
        }
    } else if str_eq(name, "focus-column-last") {
        match decode_unit(n) {
            Ok(()) => Ok(Action::FocusColumnLast),
            Err(e) => Err(e),
        }
    } else if str_eq(name, "focus-column-right-or-first") {
        match decode_unit(n) {
            Ok(()) => Ok(Action::FocusColumnRightOrFirst),
            Err(e) => Err(e),
        }
    } else if str_eq(name, "focus-column-left-or-last") {
        match decode_unit(n) {
            Ok(()) => Ok(Action::FocusColumnLeftOrLast),
            Err(e) => Err(e),
        }
    } else if str_eq(name, "focus-column") {
        match decode_int(n, usize::MAX as u64) {
            Ok(x) => Ok(Action::FocusColumn(x as usize)),
            Err(e) => Err(e),
        }
    } else if str_eq(name, "focus-window-or-monitor-up") {
        match decode_unit(n) {
            Ok(()) => Ok(Action::FocusWindowOrMonitorUp),
            Err(e) => Err(e),
        }
    } else if str_eq(name, "focus-window-or-monitor-down") {
        match decode_unit(n) {
            Ok(()) => Ok(Action::FocusWindowOrMonitorDown),
            Err(e) => Err(e),
        }
    } else if str_eq(name, "focus-column-or-monitor-left") {
        match decode_unit(n) {
            Ok(()) => Ok(Action::FocusColumnOrMonitorLeft),
            Err(e) => Err(e),
        }
    } else if str_eq(name, "focus-column-or-monitor-right") {
        match decode_unit(n) {
            Ok(()) => Ok(Action::FocusColumnOrMonitorRight),
            Err(e) => Err(e),
        }
    } else if str_eq(name, "focus-window-down") {
        match decode_unit(n) {
            Ok(()) => Ok(Action::FocusWindowDown),
            Err(e) => Err(e),
        }
    } else if str_eq(name, "focus-window-up") {
        match decode_unit(n) {
            Ok(()) => Ok(Action::FocusWindowUp),
            Err(e) => Err(e),
        }
    } else if str_eq(name, "focus-window-down-or-column-left") {
        match decode_unit(n) {
            Ok(()) => Ok(Action::FocusWindowDownOrColumnLeft),
            Err(e) => Err(e),
        }
    } else if str_eq(name, "focus-window-down-or-column-right") {
        match decode_unit(n) {
            Ok(()) => Ok(Action::FocusWindowDownOrColumnRight),
            Err(e) => Err(e),
        }
    } else if str_eq(name, "focus-window-up-or-column-left") {
        match decode_unit(n) {
            Ok(()) => Ok(Action::FocusWindowUpOrColumnLeft),
            Err(e) => Err(e),
        }
    } else if str_eq(name, "focus-window-up-or-column-right") {
        match decode_unit(n) {
            Ok(()) => Ok(Action::FocusWindowUpOrColumnRight),
            Err(e) => Err(e),
        }
    } else if str_eq(name, "focus-window-or-workspace-down") {
        match decode_unit(n) {
            Ok(()) => Ok(Action::FocusWindowOrWorkspaceDown),
            Err(e) => Err(e),
        }
    } else if str_eq(name, "focus-window-or-workspace-up") {
        match decode_unit(n) {
            Ok(()) => Ok(Action::FocusWindowOrWorkspaceUp),
            Err(e) => Err(e),
        }
    } else if str_eq(name, "focus-window-top") {
        match decode_unit(n) {
            Ok(()) => Ok(Action::FocusWindowTop),
            Err(e) => Err(e),
        }
    } else if str_eq(name, "focus-window-bottom") {
        match decode_unit(n) {
            Ok(()) => Ok(Action::FocusWindowBottom),
            Err(e) => Err(e),
        }
    } else if str_eq(name, "focus-window-down-or-top") {
        match decode_unit(n) {
            Ok(()) => Ok(Action::FocusWindowDownOrTop),
            Err(e) => Err(e),
        }
    } else if str_eq(name, "focus-window-up-or-bottom") {
        match decode_unit(n) {
            Ok(()) => Ok(Action::FocusWindowUpOrBottom),
            Err(e) => Err(e),
        }
    } else if str_eq(name, "move-column-left") {
        match decode_unit(n) {
            Ok(()) => Ok(Action::MoveColumnLeft),
            Err(e) => Err(e),
        }
    } else if str_eq(name, "move-column-right") {
        match decode_unit(n) {
            Ok(()) => Ok(Action::MoveColumnRight),
            Err(e) => Err(e),
        }
    } else if str_eq(name, "move-column-to-first") {
        match decode_unit(n) {
            Ok(()) => Ok(Action::MoveColumnToFirst),
            Err(e) => Err(e),
        }
    } else if str_eq(name, "move-column-to-last") {
        match decode_unit(n) {
            Ok(()) => Ok(Action::MoveColumnToLast),
            Err(e) => Err(e),
        }
    } else if str_eq(name, "move-column-left-or-to-monitor-left") {
        match decode_unit(n) {
            Ok(()) => Ok(Action::MoveColumnLeftOrToMonitorLeft),
            Err(e) => Err(e),
        }
    } else if str_eq(name, "move-column-right-or-to-monitor-right") {
        match decode_unit(n) {
            Ok(()) => Ok(Action::MoveColumnRightOrToMonitorRight),
            Err(e) => Err(e),
        }
    } else if str_eq(name, "move-column-to-index") {
        match decode_int(n, usize::MAX as u64) {
            Ok(x) => Ok(Action::MoveColumnToIndex(x as usize)),
            Err(e) => Err(e),
        }
    } else if str_eq(name, "move-window-down") {
        match decode_unit(n) {
            Ok(()) => Ok(Action::MoveWindowDown),
            Err(e) => Err(e),
        }
    } else if str_eq(name, "move-window-up") {
        match decode_unit(n) {
            Ok(()) => Ok(Action::MoveWindowUp),
            Err(e) => Err(e),
        }
    } else if str_eq(name, "move-window-down-or-to-workspace-down") {
        match decode_unit(n) {
            Ok(()) => Ok(Action::MoveWindowDownOrToWorkspaceDown),
            Err(e) => Err(e),
        }
    } else if str_eq(name, "move-window-up-or-to-workspace-up") {
        match decode_unit(n) {
            Ok(()) => Ok(Action::MoveWindowUpOrToWorkspaceUp),
            Err(e) => Err(e),
        }
    } else if str_eq(name, "consume-or-expel-window-left") {
        match decode_unit(n) {
            Ok(()) => Ok(Action::ConsumeOrExpelWindowLeft),
            Err(e) => Err(e),
        }
    } else if str_eq(name, "consume-or-expel-window-right") {
        match decode_unit(n) {
            Ok(()) => Ok(Action::ConsumeOrExpelWindowRight),
            Err(e) => Err(e),
        }
    } else if str_eq(name, "consume-window-into-column") {
        match decode_unit(n) {
            Ok(()) => Ok(Action::ConsumeWindowIntoColumn),
            Err(e) => Err(e),
        }
    } else if str_eq(name, "expel-window-from-column") {
        match decode_unit(n) {
            Ok(()) => Ok(Action::ExpelWindowFromColumn),
            Err(e) => Err(e),
        }
    } else if str_eq(name, "swap-window-left") {
        match decode_unit(n) {
            Ok(()) => Ok(Action::SwapWindowLeft),
            Err(e) => Err(e),
        }
    } else if str_eq(name, "swap-window-right") {
        match decode_unit(n) {
            Ok(()) => Ok(Action::SwapWindowRight),
            Err(e) => Err(e),
        }
    } else if str_eq(name, "center-column") {
        match decode_unit(n) {
            Ok(()) => Ok(Action::CenterColumn),
            Err(e) => Err(e),
        }
    } else if str_eq(name, "center-window") {
        match decode_unit(n) {
            Ok(()) => Ok(Action::CenterWindow),
            Err(e) => Err(e),
        }
    } else if str_eq(name, "center-visible-columns") {
        match decode_unit(n) {
            Ok(()) => Ok(Action::CenterVisibleColumns),
            Err(e) => Err(e),
        }
    } else if str_eq(name, "focus-workspace-down") {
        match decode_unit(n) {
            Ok(()) => Ok(Action::FocusWorkspaceDown),
            Err(e) => Err(e),
        }
    } else if str_eq(name, "focus-workspace-up") {
        match decode_unit(n) {
            Ok(()) => Ok(Action::FocusWorkspaceUp),
            Err(e) => Err(e),
        }
    } else if str_eq(name, "focus-workspace") {
        match decode_workspace(n) {
            Ok(w) => Ok(Action::FocusWorkspace(w)),
            Err(e) => Err(e),
        }
    } else if str_eq(name, "focus-workspace-previous") {
        match decode_unit(n) {
            Ok(()) => Ok(Action::FocusWorkspacePrevious),
            Err(e) => Err(e),
        }
    } else if str_eq(name, "move-window-to-workspace-down") {
        match decode_flag(n, "focus", true) {
            Ok(b) => Ok(Action::MoveWindowToWorkspaceDown(b)),
            Err(e) => Err(e),
        }
    } else if str_eq(name, "move-window-to-workspace-up") {
        match decode_flag(n, "focus", true) {
            Ok(b) => Ok(Action::MoveWindowToWorkspaceUp(b)),
            Err(e) => Err(e),
        }
    } else if str_eq(name, "move-window-to-workspace") {
        match decode_workspace_focus(n) {
            Ok((w, f)) => Ok(Action::MoveWindowToWorkspace(w, f)),
            Err(e) => Err(e),
        }
    } else if str_eq(name, "move-column-to-workspace-down") {
        match decode_flag(n, "focus", true) {
            Ok(b) => Ok(Action::MoveColumnToWorkspaceDown(b)),
            Err(e) => Err(e),
        }
    } else if str_eq(name, "move-column-to-workspace-up") {
        match decode_flag(n, "focus", true) {
            Ok(b) => Ok(Action::MoveColumnToWorkspaceUp(b)),
            Err(e) => Err(e),
        }
    } else if str_eq(name, "move-column-to-workspace") {
        match decode_workspace_focus(n) {
            Ok((w, f)) => Ok(Action::MoveColumnToWorkspace(w, f)),
            Err(e) => Err(e),
        }
    } else if str_eq(name, "move-workspace-down") {
        match decode_unit(n) {
            Ok(()) => Ok(Action::MoveWorkspaceDown),
            Err(e) => Err(e),
        }
    } else if str_eq(name, "move-workspace-up") {
        match decode_unit(n) {
            Ok(()) => Ok(Action::MoveWorkspaceUp),
            Err(e) => Err(e),
        }
    } else if str_eq(name, "move-workspace-to-index") {
        match decode_int(n, usize::MAX as u64) {
            Ok(x) => Ok(Action::MoveWorkspaceToIndex(x as usize)),
            Err(e) => Err(e),
        }
    } else if str_eq(name, "move-workspace-to-monitor") {
        match decode_str(n) {
            Ok(s) => Ok(Action::MoveWorkspaceToMonitor(s)),
            Err(e) => Err(e),
        }
    } else if str_eq(name, "set-workspace-name") {
        match decode_str(n) {
            Ok(s) => Ok(Action::SetWorkspaceName(s)),
            Err(e) => Err(e),
        }
    } else if str_eq(name, "unset-workspace-name") {
        match decode_unit(n) {
            Ok(()) => Ok(Action::UnsetWorkspaceName),
            Err(e) => Err(e),
        }
    } else if str_eq(name, "focus-monitor-left") {
        match decode_unit(n) {
            Ok(()) => Ok(Action::FocusMonitorLeft),
            Err(e) => Err(e),
        }
    } else if str_eq(name, "focus-monitor-right") {
        match decode_unit(n) {
            Ok(()) => Ok(Action::FocusMonitorRight),
            Err(e) => Err(e),
        }
    } else if str_eq(name, "focus-monitor-down") {
        match decode_unit(n) {
            Ok(()) => Ok(Action::FocusMonitorDown),
            Err(e) => Err(e),
        }
    } else if str_eq(name, "focus-monitor-up") {
        match decode_unit(n) {
            Ok(()) => Ok(Action::FocusMonitorUp),
            Err(e) => Err(e),
        }
    } else if str_eq(name, "focus-monitor-previous") {
        match decode_unit(n) {
            Ok(()) => Ok(Action::FocusMonitorPrevious),
            Err(e) => Err(e),
        }
    } else if str_eq(name, "focus-monitor-next") {
        match decode_unit(n) {
            Ok(()) => Ok(Action::FocusMonitorNext),
            Err(e) => Err(e),
        }
    } else if str_eq(name, "focus-monitor") {
        match decode_str(n) {
            Ok(s) => Ok(Action::FocusMonitor(s)),
            Err(e) => Err(e),
        }
    } else if str_eq(name, "move-window-to-monitor-left") {
        match decode_unit(n) {
            Ok(()) => Ok(Action::MoveWindowToMonitorLeft),
            Err(e) => Err(e),
        }
    } else if str_eq(name, "move-window-to-monitor-right") {
        match decode_unit(n) {
            Ok(()) => Ok(Action::MoveWindowToMonitorRight),
            Err(e) => Err(e),
        }
    } else if str_eq(name, "move-window-to-monitor-down") {
        match decode_unit(n) {
            Ok(()) => Ok(Action::MoveWindowToMonitorDown),
            Err(e) => Err(e),
        }
    } else if str_eq(name, "move-window-to-monitor-up") {
        match decode_unit(n) {
            Ok(()) => Ok(Action::MoveWindowToMonitorUp),
            Err(e) => Err(e),
        }
    } else if str_eq(name, "move-window-to-monitor-previous") {
        match decode_unit(n) {
            Ok(()) => Ok(Action::MoveWindowToMonitorPrevious),
            Err(e) => Err(e),
        }
    } else if str_eq(name, "move-window-to-monitor-next") {
        match decode_unit(n) {
            Ok(()) => Ok(Action::MoveWindowToMonitorNext),
            Err(e) => Err(e),
        }
    } else if str_eq(name, "move-window-to-monitor") {
        match decode_str(n) {
            Ok(s) => Ok(Action::MoveWindowToMonitor(s)),
            Err(e) => Err(e),
        }
    } else if str_eq(name, "move-column-to-monitor-left") {
        match decode_unit(n) {
            Ok(()) => Ok(Action::MoveColumnToMonitorLeft),
            Err(e) => Err(e),
        }
    } else if str_eq(name, "move-column-to-monitor-right") {
        match decode_unit(n) {
            Ok(()) => Ok(Action::MoveColumnToMonitorRight),
            Err(e) => Err(e),
        }
    } else if str_eq(name, "move-column-to-monitor-down") {
        match decode_unit(n) {
            Ok(()) => Ok(Action::MoveColumnToMonitorDown),
            Err(e) => Err(e),
        }
    } else if str_eq(name, "move-column-to-monitor-up") {
        match decode_unit(n) {
            Ok(()) => Ok(Action::MoveColumnToMonitorUp),
            Err(e) => Err(e),
        }
    } else if str_eq(name, "move-column-to-monitor-previous") {
        match decode_unit(n) {
            Ok(()) => Ok(Action::MoveColumnToMonitorPrevious),
            Err(e) => Err(e),
        }
    } else if str_eq(name, "move-column-to-monitor-next") {
        match decode_unit(n) {
            Ok(()) => Ok(Action::MoveColumnToMonitorNext),
            Err(e) => Err(e),
        }
    } else if str_eq(name, "move-column-to-monitor") {
        match decode_str(n) {
            Ok(s) => Ok(Action::MoveColumnToMonitor(s)),
            Err(e) => Err(e),
        }
    } else if str_eq(name, "set-window-width") {
        match decode_size(n) {
            Ok(s) => Ok(Action::SetWindowWidth(s)),
            Err(e) => Err(e),
        }
    } else if str_eq(name, "set-window-height") {
        match decode_size(n) {
            Ok(s) => Ok(Action::SetWindowHeight(s)),
            Err(e) => Err(e),
        }
    } else if str_eq(name, "reset-window-height") {
        match decode_unit(n) {
            Ok(()) => Ok(Action::ResetWindowHeight),
            Err(e) => Err(e),
        }
    } else if str_eq(name, "switch-preset-column-width") {
        match decode_unit(n) {
            Ok(()) => Ok(Action::SwitchPresetColumnWidth),
            Err(e) => Err(e),
        }
    } else if str_eq(name, "switch-preset-column-width-back") {
        match decode_unit(n) {
            Ok(()) => Ok(Action::SwitchPresetColumnWidthBack),
            Err(e) => Err(e),
        }
    } else if str_eq(name, "switch-preset-window-width") {
        match decode_unit(n) {
            Ok(()) => Ok(Action::SwitchPresetWindowWidth),
            Err(e) => Err(e),
        }
    } else if str_eq(name, "switch-preset-window-width-back") {
        match decode_unit(n) {
            Ok(()) => Ok(Action::SwitchPresetWindowWidthBack),
            Err(e) => Err(e),
        }
    } else if str_eq(name, "switch-preset-window-height") {
        match decode_unit(n) {
            Ok(()) => Ok(Action::SwitchPresetWindowHeight),
            Err(e) => Err(e),
        }
    } else if str_eq(name, "switch-preset-window-height-back") {
        match decode_unit(n) {
            Ok(()) => Ok(Action::SwitchPresetWindowHeightBack),
            Err(e) => Err(e),
        }
    } else if str_eq(name, "maximize-column") {
        match decode_unit(n) {
            Ok(()) => Ok(Action::MaximizeColumn),
            Err(e) => Err(e),
        }
    } else if str_eq(name, "maximize-window-to-edges") {
        match decode_unit(n) {
            Ok(()) => Ok(Action::MaximizeWindowToEdges),
            Err(e) => Err(e),
        }
    } else if str_eq(name, "set-column-width") {
        match decode_size(n) {
            Ok(s) => Ok(Action::SetColumnWidth(s)),
            Err(e) => Err(e),
        }
    } else if str_eq(name, "expand-column-to-available-width") {
        match decode_unit(n) {
            Ok(()) => Ok(Action::ExpandColumnToAvailableWidth),
            Err(e) => Err(e),
        }
    } else if str_eq(name, "switch-layout") {
        match decode_layout(n) {
            Ok(t) => Ok(Action::SwitchLayout(t)),
            Err(e) => Err(e),
        }
    } else if str_eq(name, "show-hotkey-overlay") {
        match decode_unit(n) {
            Ok(()) => Ok(Action::ShowHotkeyOverlay),
            Err(e) => Err(e),
        }
    } else if str_eq(name, "move-workspace-to-monitor-left") {
        match decode_unit(n) {
            Ok(()) => Ok(Action::MoveWorkspaceToMonitorLeft),
            Err(e) => Err(e),
        }
    } else if str_eq(name, "move-workspace-to-monitor-right") {
        match decode_unit(n) {
            Ok(()) => Ok(Action::MoveWorkspaceToMonitorRight),
            Err(e) => Err(e),
        }
    } else if str_eq(name, "move-workspace-to-monitor-down") {
        match decode_unit(n) {
            Ok(()) => Ok(Action::MoveWorkspaceToMonitorDown),
            Err(e) => Err(e),
        }
    } else if str_eq(name, "move-workspace-to-monitor-up") {
        match decode_unit(n) {
            Ok(()) => Ok(Action::MoveWorkspaceToMonitorUp),
            Err(e) => Err(e),
        }
    } else if str_eq(name, "move-workspace-to-monitor-previous") {
        match decode_unit(n) {
            Ok(()) => Ok(Action::MoveWorkspaceToMonitorPrevious),
            Err(e) => Err(e),
        }
    } else if str_eq(name, "move-workspace-to-monitor-next") {
        match decode_unit(n) {
            Ok(()) => Ok(Action::MoveWorkspaceToMonitorNext),
            Err(e) => Err(e),
        }
    } else if str_eq(name, "toggle-window-floating") {
        match decode_unit(n) {
            Ok(()) => Ok(Action::ToggleWindowFloating),
            Err(e) => Err(e),
        }
    } else if str_eq(name, "move-window-to-floating") {
        match decode_unit(n) {
            Ok(()) => Ok(Action::MoveWindowToFloating),
            Err(e) => Err(e),
        }
    } else if str_eq(name, "move-window-to-tiling") {
        match decode_unit(n) {
            Ok(()) => Ok(Action::MoveWindowToTiling),
            Err(e) => Err(e),
        }
    } else if str_eq(name, "focus-floating") {
        match decode_unit(n) {
            Ok(()) => Ok(Action::FocusFloating),
            Err(e) => Err(e),
        }
    } else if str_eq(name, "focus-tiling") {
        match decode_unit(n) {
            Ok(()) => Ok(Action::FocusTiling),
            Err(e) => Err(e),
        }
    } else if str_eq(name, "switch-focus-between-floating-and-tiling") {
        match decode_unit(n) {
            Ok(()) => Ok(Action::SwitchFocusBetweenFloatingAndTiling),
            Err(e) => Err(e),
        }
    } else if str_eq(name, "toggle-window-rule-opacity") {
        match decode_unit(n) {
            Ok(()) => Ok(Action::ToggleWindowRuleOpacity),
            Err(e) => Err(e),
        }
    } else if str_eq(name, "set-dynamic-cast-window") {
        match decode_unit(n) {
            Ok(()) => Ok(Action::SetDynamicCastWindow),
            Err(e) => Err(e),
        }
    } else if str_eq(name, "set-dynamic-cast-monitor") {
        match decode_opt_str(n) {
            Ok(o) => Ok(Action::SetDynamicCastMonitor(o)),
            Err(e) => Err(e),
        }
    } else if str_eq(name, "clear-dynamic-cast-target") {
        match decode_unit(n) {
            Ok(()) => Ok(Action::ClearDynamicCastTarget),
            Err(e) => Err(e),
        }
    } else if str_eq(name, "toggle-overview") {
        match decode_unit(n) {
            Ok(()) => Ok(Action::ToggleOverview),
            Err(e) => Err(e),
        }
    } else if str_eq(name, "open-overview") {
        match decode_unit(n) {
            Ok(()) => Ok(Action::OpenOverview),
            Err(e) => Err(e),
        }
    } else if str_eq(name, "close-overview") {
        match decode_unit(n) {
            Ok(()) => Ok(Action::CloseOverview),
            Err(e) => Err(e),
        }
    } else {
        Err(DecodeError::UnknownNode(n.name.clone()))
    }
}
} // verus!
