use vstd::prelude::*;

use crate::action::{Action, LayoutSwitchTarget, PositionChange, SizeChange, WorkspaceReference};

verus! {

/// A workspace as the IPC wire format names it.
#[derive(Debug, Clone, PartialEq, Eq)]
pub enum WorkspaceReferenceArg {
    Id(u64),
    Index(u8),
    Name(String),
}

/// An action as the IPC wire format carries it. Where a variant has an
/// optional target (`id`, `window_id`, `reference`, `workspace`), leaving it
/// out means the focused window or workspace.
#[derive(Debug, Clone, PartialEq)]
pub enum IpcAction {
    Quit {
        skip_confirmation: bool,
    },
    PowerOffMonitors {},
    PowerOnMonitors {},
    Spawn {
        command: Vec<String>,
    },
    SpawnSh {
        command: String,
    },
    DoScreenTransition {
        delay_ms: Option<u16>,
    },
    Screenshot {
        show_pointer: bool,
        path: Option<String>,
    },
    ScreenshotScreen {
        write_to_disk: bool,
        show_pointer: bool,
        path: Option<String>,
    },
    ScreenshotWindow {
        id: Option<u64>,
        write_to_disk: bool,
        path: Option<String>,
    },
    ToggleKeyboardShortcutsInhibit {},
    CloseWindow {
        id: Option<u64>,
    },
    FullscreenWindow {
        id: Option<u64>,
    },
    ToggleWindowedFullscreen {
        id: Option<u64>,
    },
    FocusWindow {
        id: u64,
    },
    FocusWindowInColumn {
        index: u8,
    },
    FocusWindowPrevious {},
    FocusColumnLeft {},
    FocusColumnRight {},
    FocusColumnFirst {},
    FocusColumnLast {},
    FocusColumnRightOrFirst {},
    FocusColumnLeftOrLast {},
    FocusColumn {
        index: usize,
    },
    FocusWindowOrMonitorUp {},
    FocusWindowOrMonitorDown {},
    FocusColumnOrMonitorLeft {},
    FocusColumnOrMonitorRight {},
    FocusWindowDown {},
    FocusWindowUp {},
    FocusWindowDownOrColumnLeft {},
    FocusWindowDownOrColumnRight {},
    FocusWindowUpOrColumnLeft {},
    FocusWindowUpOrColumnRight {},
    FocusWindowOrWorkspaceDown {},
    FocusWindowOrWorkspaceUp {},
    FocusWindowTop {},
    FocusWindowBottom {},
    FocusWindowDownOrTop {},
    FocusWindowUpOrBottom {},
    MoveColumnLeft {},
    MoveColumnRight {},
    MoveColumnToFirst {},
    MoveColumnToLast {},
    MoveColumnToIndex {
        index: usize,
    },
    MoveColumnLeftOrToMonitorLeft {},
    MoveColumnRightOrToMonitorRight {},
    MoveWindowDown {},
    MoveWindowUp {},
    MoveWindowDownOrToWorkspaceDown {},
    MoveWindowUpOrToWorkspaceUp {},
    ConsumeOrExpelWindowLeft {
        id: Option<u64>,
    },
    ConsumeOrExpelWindowRight {
        id: Option<u64>,
    },
    ConsumeWindowIntoColumn {},
    ExpelWindowFromColumn {},
    SwapWindowRight {},
    SwapWindowLeft {},
    CenterColumn {},
    CenterWindow {
        id: Option<u64>,
    },
    CenterVisibleColumns {},
    FocusWorkspaceDown {},
    FocusWorkspaceUp {},
    FocusWorkspace {
        reference: WorkspaceReferenceArg,
    },
    FocusWorkspacePrevious {},
    MoveWindowToWorkspaceDown {
        focus: bool,
    },
    MoveWindowToWorkspaceUp {
        focus: bool,
    },
    MoveWindowToWorkspace {
        window_id: Option<u64>,
        reference: WorkspaceReferenceArg,
        focus: bool,
    },
    MoveColumnToWorkspaceDown {
        focus: bool,
    },
    MoveColumnToWorkspaceUp {
        focus: bool,
    },
    MoveColumnToWorkspace {
        reference: WorkspaceReferenceArg,
        focus: bool,
    },
    MoveWorkspaceDown {},
    MoveWorkspaceUp {},
    SetWorkspaceName {
        name: String,
        workspace: Option<WorkspaceReferenceArg>,
    },
    UnsetWorkspaceName {
        reference: Option<WorkspaceReferenceArg>,
    },
    FocusMonitorLeft {},
    FocusMonitorRight {},
    FocusMonitorDown {},
    FocusMonitorUp {},
    FocusMonitorPrevious {},
    FocusMonitorNext {},
    FocusMonitor {
        output: String,
    },
    MoveWindowToMonitorLeft {},
    MoveWindowToMonitorRight {},
    MoveWindowToMonitorDown {},
    MoveWindowToMonitorUp {},
    MoveWindowToMonitorPrevious {},
    MoveWindowToMonitorNext {},
    MoveWindowToMonitor {
        id: Option<u64>,
        output: String,
    },
    MoveColumnToMonitorLeft {},
    MoveColumnToMonitorRight {},
    MoveColumnToMonitorDown {},
    MoveColumnToMonitorUp {},
    MoveColumnToMonitorPrevious {},
    MoveColumnToMonitorNext {},
    MoveColumnToMonitor {
        output: String,
    },
    SetWindowWidth {
        id: Option<u64>,
        change: SizeChange,
    },
    SetWindowHeight {
        id: Option<u64>,
        change: SizeChange,
    },
    ResetWindowHeight {
        id: Option<u64>,
    },
    SwitchPresetColumnWidth {},
    SwitchPresetColumnWidthBack {},
    SwitchPresetWindowWidth {
        id: Option<u64>,
    },
    SwitchPresetWindowWidthBack {
        id: Option<u64>,
    },
    SwitchPresetWindowHeight {
        id: Option<u64>,
    },
    SwitchPresetWindowHeightBack {
        id: Option<u64>,
    },
    MaximizeColumn {},
    MaximizeWindowToEdges {
        id: Option<u64>,
    },
    SetColumnWidth {
        change: SizeChange,
    },
    ExpandColumnToAvailableWidth {},
    SwitchLayout {
        layout: LayoutSwitchTarget,
    },
    ShowHotkeyOverlay {},
    MoveWorkspaceToMonitorLeft {},
    MoveWorkspaceToMonitorRight {},
    MoveWorkspaceToMonitorDown {},
    MoveWorkspaceToMonitorUp {},
    MoveWorkspaceToMonitorPrevious {},
    MoveWorkspaceToIndex {
        index: usize,
        reference: Option<WorkspaceReferenceArg>,
    },
    MoveWorkspaceToMonitor {
        output: String,
        reference: Option<WorkspaceReferenceArg>,
    },
    MoveWorkspaceToMonitorNext {},
    ToggleDebugTint {},
    DebugToggleOpaqueRegions {},
    DebugToggleDamage {},
    ToggleWindowFloating {
        id: Option<u64>,
    },
    MoveWindowToFloating {
        id: Option<u64>,
    },
    MoveWindowToTiling {
        id: Option<u64>,
    },
    FocusFloating {},
    FocusTiling {},
    SwitchFocusBetweenFloatingAndTiling {},
    MoveFloatingWindow {
        id: Option<u64>,
        x: PositionChange,
        y: PositionChange,
    },
    ToggleWindowRuleOpacity {
        id: Option<u64>,
    },
    SetDynamicCastWindow {
        id: Option<u64>,
    },
    SetDynamicCastMonitor {
        output: Option<String>,
    },
    ClearDynamicCastTarget {},
    ToggleOverview {},
    OpenOverview {},
    CloseOverview {},
    ToggleWindowUrgent {
        id: u64,
    },
    SetWindowUrgent {
        id: u64,
    },
    UnsetWindowUrgent {
        id: u64,
    },
    LoadConfigFile {},
}

pub open spec fn workspace_ref_of(r: WorkspaceReferenceArg) -> WorkspaceReference {
    match r {
        WorkspaceReferenceArg::Id(i) => WorkspaceReference::Id(i),
        WorkspaceReferenceArg::Index(i) => WorkspaceReference::Index(i),
        WorkspaceReferenceArg::Name(n) => WorkspaceReference::Name(n),
    }
}

pub open spec fn workspace_arg_of(r: WorkspaceReference) -> WorkspaceReferenceArg {
    match r {
        WorkspaceReference::Id(i) => WorkspaceReferenceArg::Id(i),
        WorkspaceReference::Index(i) => WorkspaceReferenceArg::Index(i),
        WorkspaceReference::Name(n) => WorkspaceReferenceArg::Name(n),
    }
}

impl WorkspaceReference {
    pub fn from_arg(r: WorkspaceReferenceArg) -> (w: WorkspaceReference)
        ensures
            w == workspace_ref_of(r),
    {
        match r {
            WorkspaceReferenceArg::Id(i) => WorkspaceReference::Id(i),
            WorkspaceReferenceArg::Index(i) => WorkspaceReference::Index(i),
            WorkspaceReferenceArg::Name(n) => WorkspaceReference::Name(n),
        }
    }
}

fn workspace_arg_from(r: WorkspaceReference) -> (w: WorkspaceReferenceArg)
    ensures
        w == workspace_arg_of(r),
{
    match r {
        WorkspaceReference::Id(i) => WorkspaceReferenceArg::Id(i),
        WorkspaceReference::Index(i) => WorkspaceReferenceArg::Index(i),
        WorkspaceReference::Name(n) => WorkspaceReferenceArg::Name(n),
    }
}

/// The internal action that a wire action stands for. A wire action whose
/// optional target is set becomes the internal variant that carries it; one
/// whose target is left out becomes the variant for the focused window or
/// workspace.
pub open spec fn action_of_ipc(a: IpcAction) -> Action {
    match a {
        IpcAction::Quit { skip_confirmation } => Action::Quit(skip_confirmation),
        IpcAction::PowerOffMonitors {} => Action::PowerOffMonitors,
        IpcAction::PowerOnMonitors {} => Action::PowerOnMonitors,
        IpcAction::Spawn { command } => Action::Spawn(command),
        IpcAction::SpawnSh { command } => Action::SpawnSh(command),
        IpcAction::DoScreenTransition { delay_ms } => Action::DoScreenTransition(delay_ms),
        IpcAction::Screenshot { show_pointer, path } => Action::Screenshot(show_pointer, path),
        IpcAction::ScreenshotScreen { write_to_disk, show_pointer, path } => Action::ScreenshotScreen(write_to_disk, show_pointer, path),
        IpcAction::ScreenshotWindow { id: None, write_to_disk, path } => Action::ScreenshotWindow(write_to_disk, path),
        IpcAction::ScreenshotWindow { id: Some(id), write_to_disk, path } => Action::ScreenshotWindowById { id, write_to_disk, path, },
        IpcAction::ToggleKeyboardShortcutsInhibit {} => Action::ToggleKeyboardShortcutsInhibit,
        IpcAction::CloseWindow { id: None } => Action::CloseWindow,
        IpcAction::CloseWindow { id: Some(id) } => Action::CloseWindowById(id),
        IpcAction::FullscreenWindow { id: None } => Action::FullscreenWindow,
        IpcAction::FullscreenWindow { id: Some(id) } => Action::FullscreenWindowById(id),
        IpcAction::ToggleWindowedFullscreen { id: None } => Action::ToggleWindowedFullscreen,
        IpcAction::ToggleWindowedFullscreen { id: Some(id) } => Action::ToggleWindowedFullscreenById(id),
        IpcAction::FocusWindow { id } => Action::FocusWindow(id),
        IpcAction::FocusWindowInColumn { index } => Action::FocusWindowInColumn(index),
        IpcAction::FocusWindowPrevious {} => Action::FocusWindowPrevious,
        IpcAction::FocusColumnLeft {} => Action::FocusColumnLeft,
        IpcAction::FocusColumnRight {} => Action::FocusColumnRight,
        IpcAction::FocusColumnFirst {} => Action::FocusColumnFirst,
        IpcAction::FocusColumnLast {} => Action::FocusColumnLast,
        IpcAction::FocusColumnRightOrFirst {} => Action::FocusColumnRightOrFirst,
        IpcAction::FocusColumnLeftOrLast {} => Action::FocusColumnLeftOrLast,
        IpcAction::FocusColumn { index } => Action::FocusColumn(index),
        IpcAction::FocusWindowOrMonitorUp {} => Action::FocusWindowOrMonitorUp,
        IpcAction::FocusWindowOrMonitorDown {} => Action::FocusWindowOrMonitorDown,
        IpcAction::FocusColumnOrMonitorLeft {} => Action::FocusColumnOrMonitorLeft,
        IpcAction::FocusColumnOrMonitorRight {} => Action::FocusColumnOrMonitorRight,
        IpcAction::FocusWindowDown {} => Action::FocusWindowDown,
        IpcAction::FocusWindowUp {} => Action::FocusWindowUp,
        IpcAction::FocusWindowDownOrColumnLeft {} => Action::FocusWindowDownOrColumnLeft,
        IpcAction::FocusWindowDownOrColumnRight {} => Action::FocusWindowDownOrColumnRight,
        IpcAction::FocusWindowUpOrColumnLeft {} => Action::FocusWindowUpOrColumnLeft,
        IpcAction::FocusWindowUpOrColumnRight {} => Action::FocusWindowUpOrColumnRight,
        IpcAction::FocusWindowOrWorkspaceDown {} => Action::FocusWindowOrWorkspaceDown,
        IpcAction::FocusWindowOrWorkspaceUp {} => Action::FocusWindowOrWorkspaceUp,
        IpcAction::FocusWindowTop {} => Action::FocusWindowTop,
        IpcAction::FocusWindowBottom {} => Action::FocusWindowBottom,
        IpcAction::FocusWindowDownOrTop {} => Action::FocusWindowDownOrTop,
        IpcAction::FocusWindowUpOrBottom {} => Action::FocusWindowUpOrBottom,
        IpcAction::MoveColumnLeft {} => Action::MoveColumnLeft,
        IpcAction::MoveColumnRight {} => Action::MoveColumnRight,
        IpcAction::MoveColumnToFirst {} => Action::MoveColumnToFirst,
        IpcAction::MoveColumnToLast {} => Action::MoveColumnToLast,
        IpcAction::MoveColumnToIndex { index } => Action::MoveColumnToIndex(index),
        IpcAction::MoveColumnLeftOrToMonitorLeft {} => Action::MoveColumnLeftOrToMonitorLeft,
        IpcAction::MoveColumnRightOrToMonitorRight {} => Action::MoveColumnRightOrToMonitorRight,
        IpcAction::MoveWindowDown {} => Action::MoveWindowDown,
        IpcAction::MoveWindowUp {} => Action::MoveWindowUp,
        IpcAction::MoveWindowDownOrToWorkspaceDown {} => Action::MoveWindowDownOrToWorkspaceDown,
        IpcAction::MoveWindowUpOrToWorkspaceUp {} => Action::MoveWindowUpOrToWorkspaceUp,
        IpcAction::ConsumeOrExpelWindowLeft { id: None } => Action::ConsumeOrExpelWindowLeft,
        IpcAction::ConsumeOrExpelWindowLeft { id: Some(id) } => Action::ConsumeOrExpelWindowLeftById(id),
        IpcAction::ConsumeOrExpelWindowRight { id: None } => Action::ConsumeOrExpelWindowRight,
        IpcAction::ConsumeOrExpelWindowRight { id: Some(id) } => Action::ConsumeOrExpelWindowRightById(id),
        IpcAction::ConsumeWindowIntoColumn {} => Action::ConsumeWindowIntoColumn,
        IpcAction::ExpelWindowFromColumn {} => Action::ExpelWindowFromColumn,
        IpcAction::SwapWindowRight {} => Action::SwapWindowRight,
        IpcAction::SwapWindowLeft {} => Action::SwapWindowLeft,
        IpcAction::CenterColumn {} => Action::CenterColumn,
        IpcAction::CenterWindow { id: None } => Action::CenterWindow,
        IpcAction::CenterWindow { id: Some(id) } => Action::CenterWindowById(id),
        IpcAction::CenterVisibleColumns {} => Action::CenterVisibleColumns,
        IpcAction::FocusWorkspaceDown {} => Action::FocusWorkspaceDown,
        IpcAction::FocusWorkspaceUp {} => Action::FocusWorkspaceUp,
        IpcAction::FocusWorkspace { reference } => Action::FocusWorkspace(workspace_ref_of(reference)),
        IpcAction::FocusWorkspacePrevious {} => Action::FocusWorkspacePrevious,
        IpcAction::MoveWindowToWorkspaceDown { focus } => Action::MoveWindowToWorkspaceDown(focus),
        IpcAction::MoveWindowToWorkspaceUp { focus } => Action::MoveWindowToWorkspaceUp(focus),
        IpcAction::MoveWindowToWorkspace { window_id: None, reference, focus } => Action::MoveWindowToWorkspace(workspace_ref_of(reference), focus),
        IpcAction::MoveWindowToWorkspace { window_id: Some(window_id), reference, focus } => Action::MoveWindowToWorkspaceById { window_id, reference: workspace_ref_of(reference), focus, },
        IpcAction::MoveColumnToWorkspaceDown { focus } => Action::MoveColumnToWorkspaceDown(focus),
        IpcAction::MoveColumnToWorkspaceUp { focus } => Action::MoveColumnToWorkspaceUp(focus),
        IpcAction::MoveColumnToWorkspace { reference, focus } => Action::MoveColumnToWorkspace(workspace_ref_of(reference), focus),
        IpcAction::MoveWorkspaceDown {} => Action::MoveWorkspaceDown,
        IpcAction::MoveWorkspaceUp {} => Action::MoveWorkspaceUp,
        IpcAction::SetWorkspaceName { name, workspace: None } => Action::SetWorkspaceName(name),
        IpcAction::SetWorkspaceName { name, workspace: Some(reference) } => Action::SetWorkspaceNameByRef { name, reference: workspace_ref_of(reference), },
        IpcAction::UnsetWorkspaceName { reference: None } => Action::UnsetWorkspaceName,
        IpcAction::UnsetWorkspaceName { reference: Some(reference) } => Action::UnsetWorkSpaceNameByRef(workspace_ref_of(reference)),
        IpcAction::FocusMonitorLeft {} => Action::FocusMonitorLeft,
        IpcAction::FocusMonitorRight {} => Action::FocusMonitorRight,
        IpcAction::FocusMonitorDown {} => Action::FocusMonitorDown,
        IpcAction::FocusMonitorUp {} => Action::FocusMonitorUp,
        IpcAction::FocusMonitorPrevious {} => Action::FocusMonitorPrevious,
        IpcAction::FocusMonitorNext {} => Action::FocusMonitorNext,
        IpcAction::FocusMonitor { output } => Action::FocusMonitor(output),
        IpcAction::MoveWindowToMonitorLeft {} => Action::MoveWindowToMonitorLeft,
        IpcAction::MoveWindowToMonitorRight {} => Action::MoveWindowToMonitorRight,
        IpcAction::MoveWindowToMonitorDown {} => Action::MoveWindowToMonitorDown,
        IpcAction::MoveWindowToMonitorUp {} => Action::MoveWindowToMonitorUp,
        IpcAction::MoveWindowToMonitorPrevious {} => Action::MoveWindowToMonitorPrevious,
        IpcAction::MoveWindowToMonitorNext {} => Action::MoveWindowToMonitorNext,
        IpcAction::MoveWindowToMonitor { id: None, output } => Action::MoveWindowToMonitor(output),
        IpcAction::MoveWindowToMonitor { id: Some(id), output } => Action::MoveWindowToMonitorById { id, output },
        IpcAction::MoveColumnToMonitorLeft {} => Action::MoveColumnToMonitorLeft,
        IpcAction::MoveColumnToMonitorRight {} => Action::MoveColumnToMonitorRight,
        IpcAction::MoveColumnToMonitorDown {} => Action::MoveColumnToMonitorDown,
        IpcAction::MoveColumnToMonitorUp {} => Action::MoveColumnToMonitorUp,
        IpcAction::MoveColumnToMonitorPrevious {} => Action::MoveColumnToMonitorPrevious,
        IpcAction::MoveColumnToMonitorNext {} => Action::MoveColumnToMonitorNext,
        IpcAction::MoveColumnToMonitor { output } => Action::MoveColumnToMonitor(output),
        IpcAction::SetWindowWidth { id: None, change } => Action::SetWindowWidth(change),
        IpcAction::SetWindowWidth { id: Some(id), change } => Action::SetWindowWidthById { id, change },
        IpcAction::SetWindowHeight { id: None, change } => Action::SetWindowHeight(change),
        IpcAction::SetWindowHeight { id: Some(id), change } => Action::SetWindowHeightById { id, change },
        IpcAction::ResetWindowHeight { id: None } => Action::ResetWindowHeight,
        IpcAction::ResetWindowHeight { id: Some(id) } => Action::ResetWindowHeightById(id),
        IpcAction::SwitchPresetColumnWidth {} => Action::SwitchPresetColumnWidth,
        IpcAction::SwitchPresetColumnWidthBack {} => Action::SwitchPresetColumnWidthBack,
        IpcAction::SwitchPresetWindowWidth { id: None } => Action::SwitchPresetWindowWidth,
        IpcAction::SwitchPresetWindowWidthBack { id: None } => Action::SwitchPresetWindowWidthBack,
        IpcAction::SwitchPresetWindowWidth { id: Some(id) } => Action::SwitchPresetWindowWidthById(id),
        IpcAction::SwitchPresetWindowWidthBack { id: Some(id) } => Action::SwitchPresetWindowWidthBackById(id),
        IpcAction::SwitchPresetWindowHeight { id: None } => Action::SwitchPresetWindowHeight,
        IpcAction::SwitchPresetWindowHeightBack { id: None } => Action::SwitchPresetWindowHeightBack,
        IpcAction::SwitchPresetWindowHeight { id: Some(id) } => Action::SwitchPresetWindowHeightById(id),
        IpcAction::SwitchPresetWindowHeightBack { id: Some(id) } => Action::SwitchPresetWindowHeightBackById(id),
        IpcAction::MaximizeColumn {} => Action::MaximizeColumn,
        IpcAction::MaximizeWindowToEdges { id: None } => Action::MaximizeWindowToEdges,
        IpcAction::MaximizeWindowToEdges { id: Some(id) } => Action::MaximizeWindowToEdgesById(id),
        IpcAction::SetColumnWidth { change } => Action::SetColumnWidth(change),
        IpcAction::ExpandColumnToAvailableWidth {} => Action::ExpandColumnToAvailableWidth,
        IpcAction::SwitchLayout { layout } => Action::SwitchLayout(layout),
        IpcAction::ShowHotkeyOverlay {} => Action::ShowHotkeyOverlay,
        IpcAction::MoveWorkspaceToMonitorLeft {} => Action::MoveWorkspaceToMonitorLeft,
        IpcAction::MoveWorkspaceToMonitorRight {} => Action::MoveWorkspaceToMonitorRight,
        IpcAction::MoveWorkspaceToMonitorDown {} => Action::MoveWorkspaceToMonitorDown,
        IpcAction::MoveWorkspaceToMonitorUp {} => Action::MoveWorkspaceToMonitorUp,
        IpcAction::MoveWorkspaceToMonitorPrevious {} => Action::MoveWorkspaceToMonitorPrevious,
        IpcAction::MoveWorkspaceToIndex { index, reference: Some(reference) } => Action::MoveWorkspaceToIndexByRef { new_idx: index, reference: workspace_ref_of(reference), },
        IpcAction::MoveWorkspaceToIndex { index, reference: None } => Action::MoveWorkspaceToIndex(index),
        IpcAction::MoveWorkspaceToMonitor { output, reference: Some(reference) } => Action::MoveWorkspaceToMonitorByRef { output_name: output, reference: workspace_ref_of(reference), },
        IpcAction::MoveWorkspaceToMonitor { output, reference: None } => Action::MoveWorkspaceToMonitor(output),
        IpcAction::MoveWorkspaceToMonitorNext {} => Action::MoveWorkspaceToMonitorNext,
        IpcAction::ToggleDebugTint {} => Action::ToggleDebugTint,
        IpcAction::DebugToggleOpaqueRegions {} => Action::DebugToggleOpaqueRegions,
        IpcAction::DebugToggleDamage {} => Action::DebugToggleDamage,
        IpcAction::ToggleWindowFloating { id: None } => Action::ToggleWindowFloating,
        IpcAction::ToggleWindowFloating { id: Some(id) } => Action::ToggleWindowFloatingById(id),
        IpcAction::MoveWindowToFloating { id: None } => Action::MoveWindowToFloating,
        IpcAction::MoveWindowToFloating { id: Some(id) } => Action::MoveWindowToFloatingById(id),
        IpcAction::MoveWindowToTiling { id: None } => Action::MoveWindowToTiling,
        IpcAction::MoveWindowToTiling { id: Some(id) } => Action::MoveWindowToTilingById(id),
        IpcAction::FocusFloating {} => Action::FocusFloating,
        IpcAction::FocusTiling {} => Action::FocusTiling,
        IpcAction::SwitchFocusBetweenFloatingAndTiling {} => Action::SwitchFocusBetweenFloatingAndTiling,
        IpcAction::MoveFloatingWindow { id, x, y } => Action::MoveFloatingWindowById { id, x, y },
        IpcAction::ToggleWindowRuleOpacity { id: None } => Action::ToggleWindowRuleOpacity,
        IpcAction::ToggleWindowRuleOpacity { id: Some(id) } => Action::ToggleWindowRuleOpacityById(id),
        IpcAction::SetDynamicCastWindow { id: None } => Action::SetDynamicCastWindow,
        IpcAction::SetDynamicCastWindow { id: Some(id) } => Action::SetDynamicCastWindowById(id),
        IpcAction::SetDynamicCastMonitor { output } => Action::SetDynamicCastMonitor(output),
        IpcAction::ClearDynamicCastTarget {} => Action::ClearDynamicCastTarget,
        IpcAction::ToggleOverview {} => Action::ToggleOverview,
        IpcAction::OpenOverview {} => Action::OpenOverview,
        IpcAction::CloseOverview {} => Action::CloseOverview,
        IpcAction::ToggleWindowUrgent { id } => Action::ToggleWindowUrgent(id),
        IpcAction::SetWindowUrgent { id } => Action::SetWindowUrgent(id),
        IpcAction::UnsetWindowUrgent { id } => Action::UnsetWindowUrgent(id),
        IpcAction::LoadConfigFile {} => Action::LoadConfigFile,
    }
}

/// The wire action that stands for an internal action, where there is one.
pub open spec fn ipc_of_action(a: Action) -> Option<IpcAction> {
    match a {
        Action::Quit(skip_confirmation) => Some(IpcAction::Quit { skip_confirmation }),
        Action::PowerOffMonitors => Some(IpcAction::PowerOffMonitors {}),
        Action::PowerOnMonitors => Some(IpcAction::PowerOnMonitors {}),
        Action::Spawn(command) => Some(IpcAction::Spawn { command }),
        Action::SpawnSh(command) => Some(IpcAction::SpawnSh { command }),
        Action::DoScreenTransition(delay_ms) => Some(IpcAction::DoScreenTransition { delay_ms }),
        Action::Screenshot(show_pointer, path) => Some(IpcAction::Screenshot { show_pointer, path }),
        Action::ScreenshotScreen(write_to_disk, show_pointer, path) => Some(IpcAction::ScreenshotScreen { write_to_disk, show_pointer, path }),
        Action::ScreenshotWindow(write_to_disk, path) => Some(IpcAction::ScreenshotWindow { id: None, write_to_disk, path }),
        Action::ScreenshotWindowById { id, write_to_disk, path } => Some(IpcAction::ScreenshotWindow { id: Some(id), write_to_disk, path }),
        Action::ToggleKeyboardShortcutsInhibit => Some(IpcAction::ToggleKeyboardShortcutsInhibit {}),
        Action::CloseWindow => Some(IpcAction::CloseWindow { id: None }),
        Action::CloseWindowById(id) => Some(IpcAction::CloseWindow { id: Some(id) }),
        Action::FullscreenWindow => Some(IpcAction::FullscreenWindow { id: None }),
        Action::FullscreenWindowById(id) => Some(IpcAction::FullscreenWindow { id: Some(id) }),
        Action::ToggleWindowedFullscreen => Some(IpcAction::ToggleWindowedFullscreen { id: None }),
        Action::ToggleWindowedFullscreenById(id) => Some(IpcAction::ToggleWindowedFullscreen { id: Some(id) }),
        Action::FocusWindow(id) => Some(IpcAction::FocusWindow { id }),
        Action::FocusWindowInColumn(index) => Some(IpcAction::FocusWindowInColumn { index }),
        Action::FocusWindowPrevious => Some(IpcAction::FocusWindowPrevious {}),
        Action::FocusColumnLeft => Some(IpcAction::FocusColumnLeft {}),
        Action::FocusColumnRight => Some(IpcAction::FocusColumnRight {}),
        Action::FocusColumnFirst => Some(IpcAction::FocusColumnFirst {}),
        Action::FocusColumnLast => Some(IpcAction::FocusColumnLast {}),
        Action::FocusColumnRightOrFirst => Some(IpcAction::FocusColumnRightOrFirst {}),
        Action::FocusColumnLeftOrLast => Some(IpcAction::FocusColumnLeftOrLast {}),
        Action::FocusColumn(index) => Some(IpcAction::FocusColumn { index }),
        Action::FocusWindowOrMonitorUp => Some(IpcAction::FocusWindowOrMonitorUp {}),
        Action::FocusWindowOrMonitorDown => Some(IpcAction::FocusWindowOrMonitorDown {}),
        Action::FocusColumnOrMonitorLeft => Some(IpcAction::FocusColumnOrMonitorLeft {}),
        Action::FocusColumnOrMonitorRight => Some(IpcAction::FocusColumnOrMonitorRight {}),
        Action::FocusWindowDown => Some(IpcAction::FocusWindowDown {}),
        Action::FocusWindowUp => Some(IpcAction::FocusWindowUp {}),
        Action::FocusWindowDownOrColumnLeft => Some(IpcAction::FocusWindowDownOrColumnLeft {}),
        Action::FocusWindowDownOrColumnRight => Some(IpcAction::FocusWindowDownOrColumnRight {}),
        Action::FocusWindowUpOrColumnLeft => Some(IpcAction::FocusWindowUpOrColumnLeft {}),
        Action::FocusWindowUpOrColumnRight => Some(IpcAction::FocusWindowUpOrColumnRight {}),
        Action::FocusWindowOrWorkspaceDown => Some(IpcAction::FocusWindowOrWorkspaceDown {}),
        Action::FocusWindowOrWorkspaceUp => Some(IpcAction::FocusWindowOrWorkspaceUp {}),
        Action::FocusWindowTop => Some(IpcAction::FocusWindowTop {}),
        Action::FocusWindowBottom => Some(IpcAction::FocusWindowBottom {}),
        Action::FocusWindowDownOrTop => Some(IpcAction::FocusWindowDownOrTop {}),
        Action::FocusWindowUpOrBottom => Some(IpcAction::FocusWindowUpOrBottom {}),
        Action::MoveColumnLeft => Some(IpcAction::MoveColumnLeft {}),
        Action::MoveColumnRight => Some(IpcAction::MoveColumnRight {}),
        Action::MoveColumnToFirst => Some(IpcAction::MoveColumnToFirst {}),
        Action::MoveColumnToLast => Some(IpcAction::MoveColumnToLast {}),
        Action::MoveColumnToIndex(index) => Some(IpcAction::MoveColumnToIndex { index }),
        Action::MoveColumnLeftOrToMonitorLeft => Some(IpcAction::MoveColumnLeftOrToMonitorLeft {}),
        Action::MoveColumnRightOrToMonitorRight => Some(IpcAction::MoveColumnRightOrToMonitorRight {}),
        Action::MoveWindowDown => Some(IpcAction::MoveWindowDown {}),
        Action::MoveWindowUp => Some(IpcAction::MoveWindowUp {}),
        Action::MoveWindowDownOrToWorkspaceDown => Some(IpcAction::MoveWindowDownOrToWorkspaceDown {}),
        Action::MoveWindowUpOrToWorkspaceUp => Some(IpcAction::MoveWindowUpOrToWorkspaceUp {}),
        Action::ConsumeOrExpelWindowLeft => Some(IpcAction::ConsumeOrExpelWindowLeft { id: None }),
        Action::ConsumeOrExpelWindowLeftById(id) => Some(IpcAction::ConsumeOrExpelWindowLeft { id: Some(id) }),
        Action::ConsumeOrExpelWindowRight => Some(IpcAction::ConsumeOrExpelWindowRight { id: None }),
        Action::ConsumeOrExpelWindowRightById(id) => Some(IpcAction::ConsumeOrExpelWindowRight { id: Some(id) }),
        Action::ConsumeWindowIntoColumn => Some(IpcAction::ConsumeWindowIntoColumn {}),
        Action::ExpelWindowFromColumn => Some(IpcAction::ExpelWindowFromColumn {}),
        Action::SwapWindowRight => Some(IpcAction::SwapWindowRight {}),
        Action::SwapWindowLeft => Some(IpcAction::SwapWindowLeft {}),
        Action::CenterColumn => Some(IpcAction::CenterColumn {}),
        Action::CenterWindow => Some(IpcAction::CenterWindow { id: None }),
        Action::CenterWindowById(id) => Some(IpcAction::CenterWindow { id: Some(id) }),
        Action::CenterVisibleColumns => Some(IpcAction::CenterVisibleColumns {}),
        Action::FocusWorkspaceDown => Some(IpcAction::FocusWorkspaceDown {}),
        Action::FocusWorkspaceUp => Some(IpcAction::FocusWorkspaceUp {}),
        Action::FocusWorkspace(reference) => Some(IpcAction::FocusWorkspace { reference: workspace_arg_of(reference) }),
        Action::FocusWorkspacePrevious => Some(IpcAction::FocusWorkspacePrevious {}),
        Action::MoveWindowToWorkspaceDown(focus) => Some(IpcAction::MoveWindowToWorkspaceDown { focus }),
        Action::MoveWindowToWorkspaceUp(focus) => Some(IpcAction::MoveWindowToWorkspaceUp { focus }),
        Action::MoveWindowToWorkspace(reference, focus) => Some(IpcAction::MoveWindowToWorkspace { window_id: None, reference: workspace_arg_of(reference), focus }),
        Action::MoveWindowToWorkspaceById { window_id, reference, focus } => Some(IpcAction::MoveWindowToWorkspace { window_id: Some(window_id), reference: workspace_arg_of(reference), focus }),
        Action::MoveColumnToWorkspaceDown(focus) => Some(IpcAction::MoveColumnToWorkspaceDown { focus }),
        Action::MoveColumnToWorkspaceUp(focus) => Some(IpcAction::MoveColumnToWorkspaceUp { focus }),
        Action::MoveColumnToWorkspace(reference, focus) => Some(IpcAction::MoveColumnToWorkspace { reference: workspace_arg_of(reference), focus }),
        Action::MoveWorkspaceDown => Some(IpcAction::MoveWorkspaceDown {}),
        Action::MoveWorkspaceUp => Some(IpcAction::MoveWorkspaceUp {}),
        Action::SetWorkspaceName(name) => Some(IpcAction::SetWorkspaceName { name, workspace: None }),
        Action::SetWorkspaceNameByRef { name, reference } => Some(IpcAction::SetWorkspaceName { name, workspace: Some(workspace_arg_of(reference)) }),
        Action::UnsetWorkspaceName => Some(IpcAction::UnsetWorkspaceName { reference: None }),
        Action::UnsetWorkSpaceNameByRef(reference) => Some(IpcAction::UnsetWorkspaceName { reference: Some(workspace_arg_of(reference)) }),
        Action::FocusMonitorLeft => Some(IpcAction::FocusMonitorLeft {}),
        Action::FocusMonitorRight => Some(IpcAction::FocusMonitorRight {}),
        Action::FocusMonitorDown => Some(IpcAction::FocusMonitorDown {}),
        Action::FocusMonitorUp => Some(IpcAction::FocusMonitorUp {}),
        Action::FocusMonitorPrevious => Some(IpcAction::FocusMonitorPrevious {}),
        Action::FocusMonitorNext => Some(IpcAction::FocusMonitorNext {}),
        Action::FocusMonitor(output) => Some(IpcAction::FocusMonitor { output }),
        Action::MoveWindowToMonitorLeft => Some(IpcAction::MoveWindowToMonitorLeft {}),
        Action::MoveWindowToMonitorRight => Some(IpcAction::MoveWindowToMonitorRight {}),
        Action::MoveWindowToMonitorDown => Some(IpcAction::MoveWindowToMonitorDown {}),
        Action::MoveWindowToMonitorUp => Some(IpcAction::MoveWindowToMonitorUp {}),
        Action::MoveWindowToMonitorPrevious => Some(IpcAction::MoveWindowToMonitorPrevious {}),
        Action::MoveWindowToMonitorNext => Some(IpcAction::MoveWindowToMonitorNext {}),
        Action::MoveWindowToMonitor(output) => Some(IpcAction::MoveWindowToMonitor { id: None, output }),
        Action::MoveWindowToMonitorById { id, output } => Some(IpcAction::MoveWindowToMonitor { id: Some(id), output }),
        Action::MoveColumnToMonitorLeft => Some(IpcAction::MoveColumnToMonitorLeft {}),
        Action::MoveColumnToMonitorRight => Some(IpcAction::MoveColumnToMonitorRight {}),
        Action::MoveColumnToMonitorDown => Some(IpcAction::MoveColumnToMonitorDown {}),
        Action::MoveColumnToMonitorUp => Some(IpcAction::MoveColumnToMonitorUp {}),
        Action::MoveColumnToMonitorPrevious => Some(IpcAction::MoveColumnToMonitorPrevious {}),
        Action::MoveColumnToMonitorNext => Some(IpcAction::MoveColumnToMonitorNext {}),
        Action::MoveColumnToMonitor(output) => Some(IpcAction::MoveColumnToMonitor { output }),
        Action::SetWindowWidth(change) => Some(IpcAction::SetWindowWidth { id: None, change }),
        Action::SetWindowWidthById { id, change } => Some(IpcAction::SetWindowWidth { id: Some(id), change }),
        Action::SetWindowHeight(change) => Some(IpcAction::SetWindowHeight { id: None, change }),
        Action::SetWindowHeightById { id, change } => Some(IpcAction::SetWindowHeight { id: Some(id), change }),
        Action::ResetWindowHeight => Some(IpcAction::ResetWindowHeight { id: None }),
        Action::ResetWindowHeightById(id) => Some(IpcAction::ResetWindowHeight { id: Some(id) }),
        Action::SwitchPresetColumnWidth => Some(IpcAction::SwitchPresetColumnWidth {}),
        Action::SwitchPresetColumnWidthBack => Some(IpcAction::SwitchPresetColumnWidthBack {}),
        Action::SwitchPresetWindowWidth => Some(IpcAction::SwitchPresetWindowWidth { id: None }),
        Action::SwitchPresetWindowWidthBack => Some(IpcAction::SwitchPresetWindowWidthBack { id: None }),
        Action::SwitchPresetWindowWidthById(id) => Some(IpcAction::SwitchPresetWindowWidth { id: Some(id) }),
        Action::SwitchPresetWindowWidthBackById(id) => Some(IpcAction::SwitchPresetWindowWidthBack { id: Some(id) }),
        Action::SwitchPresetWindowHeight => Some(IpcAction::SwitchPresetWindowHeight { id: None }),
        Action::SwitchPresetWindowHeightBack => Some(IpcAction::SwitchPresetWindowHeightBack { id: None }),
        Action::SwitchPresetWindowHeightById(id) => Some(IpcAction::SwitchPresetWindowHeight { id: Some(id) }),
        Action::SwitchPresetWindowHeightBackById(id) => Some(IpcAction::SwitchPresetWindowHeightBack { id: Some(id) }),
        Action::MaximizeColumn => Some(IpcAction::MaximizeColumn {}),
        Action::MaximizeWindowToEdges => Some(IpcAction::MaximizeWindowToEdges { id: None }),
        Action::MaximizeWindowToEdgesById(id) => Some(IpcAction::MaximizeWindowToEdges { id: Some(id) }),
        Action::SetColumnWidth(change) => Some(IpcAction::SetColumnWidth { change }),
        Action::ExpandColumnToAvailableWidth => Some(IpcAction::ExpandColumnToAvailableWidth {}),
        Action::SwitchLayout(layout) => Some(IpcAction::SwitchLayout { layout }),
        Action::ShowHotkeyOverlay => Some(IpcAction::ShowHotkeyOverlay {}),
        Action::MoveWorkspaceToMonitorLeft => Some(IpcAction::MoveWorkspaceToMonitorLeft {}),
        Action::MoveWorkspaceToMonitorRight => Some(IpcAction::MoveWorkspaceToMonitorRight {}),
        Action::MoveWorkspaceToMonitorDown => Some(IpcAction::MoveWorkspaceToMonitorDown {}),
        Action::MoveWorkspaceToMonitorUp => Some(IpcAction::MoveWorkspaceToMonitorUp {}),
        Action::MoveWorkspaceToMonitorPrevious => Some(IpcAction::MoveWorkspaceToMonitorPrevious {}),
        Action::MoveWorkspaceToIndexByRef { new_idx: index, reference } => Some(IpcAction::MoveWorkspaceToIndex { index, reference: Some(workspace_arg_of(reference)) }),
        Action::MoveWorkspaceToIndex(index) => Some(IpcAction::MoveWorkspaceToIndex { index, reference: None }),
        Action::MoveWorkspaceToMonitorByRef { output_name: output, reference } => Some(IpcAction::MoveWorkspaceToMonitor { output, reference: Some(workspace_arg_of(reference)) }),
        Action::MoveWorkspaceToMonitor(output) => Some(IpcAction::MoveWorkspaceToMonitor { output, reference: None }),
        Action::MoveWorkspaceToMonitorNext => Some(IpcAction::MoveWorkspaceToMonitorNext {}),
        Action::ToggleDebugTint => Some(IpcAction::ToggleDebugTint {}),
        Action::DebugToggleOpaqueRegions => Some(IpcAction::DebugToggleOpaqueRegions {}),
        Action::DebugToggleDamage => Some(IpcAction::DebugToggleDamage {}),
        Action::ToggleWindowFloating => Some(IpcAction::ToggleWindowFloating { id: None }),
        Action::ToggleWindowFloatingById(id) => Some(IpcAction::ToggleWindowFloating { id: Some(id) }),
        Action::MoveWindowToFloating => Some(IpcAction::MoveWindowToFloating { id: None }),
        Action::MoveWindowToFloatingById(id) => Some(IpcAction::MoveWindowToFloating { id: Some(id) }),
        Action::MoveWindowToTiling => Some(IpcAction::MoveWindowToTiling { id: None }),
        Action::MoveWindowToTilingById(id) => Some(IpcAction::MoveWindowToTiling { id: Some(id) }),
        Action::FocusFloating => Some(IpcAction::FocusFloating {}),
        Action::FocusTiling => Some(IpcAction::FocusTiling {}),
        Action::SwitchFocusBetweenFloatingAndTiling => Some(IpcAction::SwitchFocusBetweenFloatingAndTiling {}),
        Action::MoveFloatingWindowById { id, x, y } => Some(IpcAction::MoveFloatingWindow { id, x, y }),
        Action::ToggleWindowRuleOpacity => Some(IpcAction::ToggleWindowRuleOpacity { id: None }),
        Action::ToggleWindowRuleOpacityById(id) => Some(IpcAction::ToggleWindowRuleOpacity { id: Some(id) }),
        Action::SetDynamicCastWindow => Some(IpcAction::SetDynamicCastWindow { id: None }),
        Action::SetDynamicCastWindowById(id) => Some(IpcAction::SetDynamicCastWindow { id: Some(id) }),
        Action::SetDynamicCastMonitor(output) => Some(IpcAction::SetDynamicCastMonitor { output }),
        Action::ClearDynamicCastTarget => Some(IpcAction::ClearDynamicCastTarget {}),
        Action::ToggleOverview => Some(IpcAction::ToggleOverview {}),
        Action::OpenOverview => Some(IpcAction::OpenOverview {}),
        Action::CloseOverview => Some(IpcAction::CloseOverview {}),
        Action::ToggleWindowUrgent(id) => Some(IpcAction::ToggleWindowUrgent { id }),
        Action::SetWindowUrgent(id) => Some(IpcAction::SetWindowUrgent { id }),
        Action::UnsetWindowUrgent(id) => Some(IpcAction::UnsetWindowUrgent { id }),
        Action::LoadConfigFile => Some(IpcAction::LoadConfigFile {}),
        _ => None,
    }
}

/// The window that a wire action targets through its optional id.
pub open spec fn wire_window_target(a: IpcAction) -> Option<u64> {
    match a {
        IpcAction::ScreenshotWindow { id, .. } => id,
        IpcAction::CloseWindow { id, .. } => id,
        IpcAction::FullscreenWindow { id, .. } => id,
        IpcAction::ToggleWindowedFullscreen { id, .. } => id,
        IpcAction::ConsumeOrExpelWindowLeft { id, .. } => id,
        IpcAction::ConsumeOrExpelWindowRight { id, .. } => id,
        IpcAction::CenterWindow { id, .. } => id,
        IpcAction::MoveWindowToWorkspace { window_id, .. } => window_id,
        IpcAction::MoveWindowToMonitor { id, .. } => id,
        IpcAction::SetWindowWidth { id, .. } => id,
        IpcAction::SetWindowHeight { id, .. } => id,
        IpcAction::ResetWindowHeight { id, .. } => id,
        IpcAction::SwitchPresetWindowWidth { id, .. } => id,
        IpcAction::SwitchPresetWindowWidthBack { id, .. } => id,
        IpcAction::SwitchPresetWindowHeight { id, .. } => id,
        IpcAction::SwitchPresetWindowHeightBack { id, .. } => id,
        IpcAction::MaximizeWindowToEdges { id, .. } => id,
        IpcAction::ToggleWindowFloating { id, .. } => id,
        IpcAction::MoveWindowToFloating { id, .. } => id,
        IpcAction::MoveWindowToTiling { id, .. } => id,
        IpcAction::ToggleWindowRuleOpacity { id, .. } => id,
        IpcAction::SetDynamicCastWindow { id, .. } => id,
        _ => None,
    }
}

/// The window that an internal action targets by id, where it is one of
/// the variants that stand for a wire action with its optional id set.
pub open spec fn action_window_target(a: Action) -> Option<u64> {
    match a {
        Action::ScreenshotWindowById { id, .. } => Some(id),
        Action::CloseWindowById(id) => Some(id),
        Action::FullscreenWindowById(id) => Some(id),
        Action::ToggleWindowedFullscreenById(id) => Some(id),
        Action::ConsumeOrExpelWindowLeftById(id) => Some(id),
        Action::ConsumeOrExpelWindowRightById(id) => Some(id),
        Action::CenterWindowById(id) => Some(id),
        Action::MoveWindowToWorkspaceById { window_id, .. } => Some(window_id),
        Action::MoveWindowToMonitorById { id, .. } => Some(id),
        Action::SetWindowWidthById { id, .. } => Some(id),
        Action::SetWindowHeightById { id, .. } => Some(id),
        Action::ResetWindowHeightById(id) => Some(id),
        Action::SwitchPresetWindowWidthById(id) => Some(id),
        Action::SwitchPresetWindowWidthBackById(id) => Some(id),
        Action::SwitchPresetWindowHeightById(id) => Some(id),
        Action::SwitchPresetWindowHeightBackById(id) => Some(id),
        Action::MaximizeWindowToEdgesById(id) => Some(id),
        Action::ToggleWindowFloatingById(id) => Some(id),
        Action::MoveWindowToFloatingById(id) => Some(id),
        Action::MoveWindowToTilingById(id) => Some(id),
        Action::ToggleWindowRuleOpacityById(id) => Some(id),
        Action::SetDynamicCastWindowById(id) => Some(id),
        _ => None,
    }
}

/// The workspace that a wire action targets through its optional reference.
pub open spec fn wire_workspace_target(a: IpcAction) -> Option<WorkspaceReferenceArg> {
    match a {
        IpcAction::SetWorkspaceName { workspace, .. } => workspace,
        IpcAction::UnsetWorkspaceName { reference, .. } => reference,
        IpcAction::MoveWorkspaceToIndex { reference, .. } => reference,
        IpcAction::MoveWorkspaceToMonitor { reference, .. } => reference,
        _ => None,
    }
}

/// The workspace that an internal action targets by reference, where it is
/// one of the variants that stand for a wire action with its optional
/// reference set.
pub open spec fn action_workspace_target(a: Action) -> Option<WorkspaceReferenceArg> {
    match a {
        Action::SetWorkspaceNameByRef { reference, .. } => Some(workspace_arg_of(reference)),
        Action::UnsetWorkSpaceNameByRef(reference) => Some(workspace_arg_of(reference)),
        Action::MoveWorkspaceToIndexByRef { reference, .. } => Some(workspace_arg_of(reference)),
        Action::MoveWorkspaceToMonitorByRef { reference, .. } => Some(workspace_arg_of(reference)),
        _ => None,
    }
}

impl Action {
    /// The internal action for a wire action.
    pub fn from_ipc(a: IpcAction) -> (r: Action)
        ensures
            r == action_of_ipc(a),
    {
        match a {
            IpcAction::Quit { skip_confirmation } => Action::Quit(skip_confirmation),
            IpcAction::PowerOffMonitors {} => Action::PowerOffMonitors,
            IpcAction::PowerOnMonitors {} => Action::PowerOnMonitors,
            IpcAction::Spawn { command } => Action::Spawn(command),
            IpcAction::SpawnSh { command } => Action::SpawnSh(command),
            IpcAction::DoScreenTransition { delay_ms } => Action::DoScreenTransition(delay_ms),
            IpcAction::Screenshot { show_pointer, path } => Action::Screenshot(show_pointer, path),
            IpcAction::ScreenshotScreen { write_to_disk, show_pointer, path } => Action::ScreenshotScreen(write_to_disk, show_pointer, path),
            IpcAction::ScreenshotWindow { id: None, write_to_disk, path } => Action::ScreenshotWindow(write_to_disk, path),
            IpcAction::ScreenshotWindow { id: Some(id), write_to_disk, path } => Action::ScreenshotWindowById { id, write_to_disk, path, },
            IpcAction::ToggleKeyboardShortcutsInhibit {} => Action::ToggleKeyboardShortcutsInhibit,
            IpcAction::CloseWindow { id: None } => Action::CloseWindow,
            IpcAction::CloseWindow { id: Some(id) } => Action::CloseWindowById(id),
            IpcAction::FullscreenWindow { id: None } => Action::FullscreenWindow,
            IpcAction::FullscreenWindow { id: Some(id) } => Action::FullscreenWindowById(id),
            IpcAction::ToggleWindowedFullscreen { id: None } => Action::ToggleWindowedFullscreen,
            IpcAction::ToggleWindowedFullscreen { id: Some(id) } => Action::ToggleWindowedFullscreenById(id),
            IpcAction::FocusWindow { id } => Action::FocusWindow(id),
            IpcAction::FocusWindowInColumn { index } => Action::FocusWindowInColumn(index),
            IpcAction::FocusWindowPrevious {} => Action::FocusWindowPrevious,
            IpcAction::FocusColumnLeft {} => Action::FocusColumnLeft,
            IpcAction::FocusColumnRight {} => Action::FocusColumnRight,
            IpcAction::FocusColumnFirst {} => Action::FocusColumnFirst,
            IpcAction::FocusColumnLast {} => Action::FocusColumnLast,
            IpcAction::FocusColumnRightOrFirst {} => Action::FocusColumnRightOrFirst,
            IpcAction::FocusColumnLeftOrLast {} => Action::FocusColumnLeftOrLast,
            IpcAction::FocusColumn { index } => Action::FocusColumn(index),
            IpcAction::FocusWindowOrMonitorUp {} => Action::FocusWindowOrMonitorUp,
            IpcAction::FocusWindowOrMonitorDown {} => Action::FocusWindowOrMonitorDown,
            IpcAction::FocusColumnOrMonitorLeft {} => Action::FocusColumnOrMonitorLeft,
            IpcAction::FocusColumnOrMonitorRight {} => Action::FocusColumnOrMonitorRight,
            IpcAction::FocusWindowDown {} => Action::FocusWindowDown,
            IpcAction::FocusWindowUp {} => Action::FocusWindowUp,
            IpcAction::FocusWindowDownOrColumnLeft {} => Action::FocusWindowDownOrColumnLeft,
            IpcAction::FocusWindowDownOrColumnRight {} => Action::FocusWindowDownOrColumnRight,
            IpcAction::FocusWindowUpOrColumnLeft {} => Action::FocusWindowUpOrColumnLeft,
            IpcAction::FocusWindowUpOrColumnRight {} => Action::FocusWindowUpOrColumnRight,
            IpcAction::FocusWindowOrWorkspaceDown {} => Action::FocusWindowOrWorkspaceDown,
            IpcAction::FocusWindowOrWorkspaceUp {} => Action::FocusWindowOrWorkspaceUp,
            IpcAction::FocusWindowTop {} => Action::FocusWindowTop,
            IpcAction::FocusWindowBottom {} => Action::FocusWindowBottom,
            IpcAction::FocusWindowDownOrTop {} => Action::FocusWindowDownOrTop,
            IpcAction::FocusWindowUpOrBottom {} => Action::FocusWindowUpOrBottom,
            IpcAction::MoveColumnLeft {} => Action::MoveColumnLeft,
            IpcAction::MoveColumnRight {} => Action::MoveColumnRight,
            IpcAction::MoveColumnToFirst {} => Action::MoveColumnToFirst,
            IpcAction::MoveColumnToLast {} => Action::MoveColumnToLast,
            IpcAction::MoveColumnToIndex { index } => Action::MoveColumnToIndex(index),
            IpcAction::MoveColumnLeftOrToMonitorLeft {} => Action::MoveColumnLeftOrToMonitorLeft,
            IpcAction::MoveColumnRightOrToMonitorRight {} => Action::MoveColumnRightOrToMonitorRight,
            IpcAction::MoveWindowDown {} => Action::MoveWindowDown,
            IpcAction::MoveWindowUp {} => Action::MoveWindowUp,
            IpcAction::MoveWindowDownOrToWorkspaceDown {} => Action::MoveWindowDownOrToWorkspaceDown,
            IpcAction::MoveWindowUpOrToWorkspaceUp {} => Action::MoveWindowUpOrToWorkspaceUp,
            IpcAction::ConsumeOrExpelWindowLeft { id: None } => Action::ConsumeOrExpelWindowLeft,
            IpcAction::ConsumeOrExpelWindowLeft { id: Some(id) } => Action::ConsumeOrExpelWindowLeftById(id),
            IpcAction::ConsumeOrExpelWindowRight { id: None } => Action::ConsumeOrExpelWindowRight,
            IpcAction::ConsumeOrExpelWindowRight { id: Some(id) } => Action::ConsumeOrExpelWindowRightById(id),
            IpcAction::ConsumeWindowIntoColumn {} => Action::ConsumeWindowIntoColumn,
            IpcAction::ExpelWindowFromColumn {} => Action::ExpelWindowFromColumn,
            IpcAction::SwapWindowRight {} => Action::SwapWindowRight,
            IpcAction::SwapWindowLeft {} => Action::SwapWindowLeft,
            IpcAction::CenterColumn {} => Action::CenterColumn,
            IpcAction::CenterWindow { id: None } => Action::CenterWindow,
            IpcAction::CenterWindow { id: Some(id) } => Action::CenterWindowById(id),
            IpcAction::CenterVisibleColumns {} => Action::CenterVisibleColumns,
            IpcAction::FocusWorkspaceDown {} => Action::FocusWorkspaceDown,
            IpcAction::FocusWorkspaceUp {} => Action::FocusWorkspaceUp,
            IpcAction::FocusWorkspace { reference } => Action::FocusWorkspace(WorkspaceReference::from_arg(reference)),
            IpcAction::FocusWorkspacePrevious {} => Action::FocusWorkspacePrevious,
            IpcAction::MoveWindowToWorkspaceDown { focus } => Action::MoveWindowToWorkspaceDown(focus),
            IpcAction::MoveWindowToWorkspaceUp { focus } => Action::MoveWindowToWorkspaceUp(focus),
            IpcAction::MoveWindowToWorkspace { window_id: None, reference, focus } => Action::MoveWindowToWorkspace(WorkspaceReference::from_arg(reference), focus),
            IpcAction::MoveWindowToWorkspace { window_id: Some(window_id), reference, focus } => Action::MoveWindowToWorkspaceById { window_id, reference: WorkspaceReference::from_arg(reference), focus, },
            IpcAction::MoveColumnToWorkspaceDown { focus } => Action::MoveColumnToWorkspaceDown(focus),
            IpcAction::MoveColumnToWorkspaceUp { focus } => Action::MoveColumnToWorkspaceUp(focus),
            IpcAction::MoveColumnToWorkspace { reference, focus } => Action::MoveColumnToWorkspace(WorkspaceReference::from_arg(reference), focus),
            IpcAction::MoveWorkspaceDown {} => Action::MoveWorkspaceDown,
            IpcAction::MoveWorkspaceUp {} => Action::MoveWorkspaceUp,
            IpcAction::SetWorkspaceName { name, workspace: None } => Action::SetWorkspaceName(name),
            IpcAction::SetWorkspaceName { name, workspace: Some(reference) } => Action::SetWorkspaceNameByRef { name, reference: WorkspaceReference::from_arg(reference), },
            IpcAction::UnsetWorkspaceName { reference: None } => Action::UnsetWorkspaceName,
            IpcAction::UnsetWorkspaceName { reference: Some(reference) } => Action::UnsetWorkSpaceNameByRef(WorkspaceReference::from_arg(reference)),
            IpcAction::FocusMonitorLeft {} => Action::FocusMonitorLeft,
            IpcAction::FocusMonitorRight {} => Action::FocusMonitorRight,
            IpcAction::FocusMonitorDown {} => Action::FocusMonitorDown,
            IpcAction::FocusMonitorUp {} => Action::FocusMonitorUp,
            IpcAction::FocusMonitorPrevious {} => Action::FocusMonitorPrevious,
            IpcAction::FocusMonitorNext {} => Action::FocusMonitorNext,
            IpcAction::FocusMonitor { output } => Action::FocusMonitor(output),
            IpcAction::MoveWindowToMonitorLeft {} => Action::MoveWindowToMonitorLeft,
            IpcAction::MoveWindowToMonitorRight {} => Action::MoveWindowToMonitorRight,
            IpcAction::MoveWindowToMonitorDown {} => Action::MoveWindowToMonitorDown,
            IpcAction::MoveWindowToMonitorUp {} => Action::MoveWindowToMonitorUp,
            IpcAction::MoveWindowToMonitorPrevious {} => Action::MoveWindowToMonitorPrevious,
            IpcAction::MoveWindowToMonitorNext {} => Action::MoveWindowToMonitorNext,
            IpcAction::MoveWindowToMonitor { id: None, output } => Action::MoveWindowToMonitor(output),
            IpcAction::MoveWindowToMonitor { id: Some(id), output } => Action::MoveWindowToMonitorById { id, output },
            IpcAction::MoveColumnToMonitorLeft {} => Action::MoveColumnToMonitorLeft,
            IpcAction::MoveColumnToMonitorRight {} => Action::MoveColumnToMonitorRight,
            IpcAction::MoveColumnToMonitorDown {} => Action::MoveColumnToMonitorDown,
            IpcAction::MoveColumnToMonitorUp {} => Action::MoveColumnToMonitorUp,
            IpcAction::MoveColumnToMonitorPrevious {} => Action::MoveColumnToMonitorPrevious,
            IpcAction::MoveColumnToMonitorNext {} => Action::MoveColumnToMonitorNext,
            IpcAction::MoveColumnToMonitor { output } => Action::MoveColumnToMonitor(output),
            IpcAction::SetWindowWidth { id: None, change } => Action::SetWindowWidth(change),
            IpcAction::SetWindowWidth { id: Some(id), change } => Action::SetWindowWidthById { id, change },
            IpcAction::SetWindowHeight { id: None, change } => Action::SetWindowHeight(change),
            IpcAction::SetWindowHeight { id: Some(id), change } => Action::SetWindowHeightById { id, change },
            IpcAction::ResetWindowHeight { id: None } => Action::ResetWindowHeight,
            IpcAction::ResetWindowHeight { id: Some(id) } => Action::ResetWindowHeightById(id),
            IpcAction::SwitchPresetColumnWidth {} => Action::SwitchPresetColumnWidth,
            IpcAction::SwitchPresetColumnWidthBack {} => Action::SwitchPresetColumnWidthBack,
            IpcAction::SwitchPresetWindowWidth { id: None } => Action::SwitchPresetWindowWidth,
            IpcAction::SwitchPresetWindowWidthBack { id: None } => Action::SwitchPresetWindowWidthBack,
            IpcAction::SwitchPresetWindowWidth { id: Some(id) } => Action::SwitchPresetWindowWidthById(id),
            IpcAction::SwitchPresetWindowWidthBack { id: Some(id) } => Action::SwitchPresetWindowWidthBackById(id),
            IpcAction::SwitchPresetWindowHeight { id: None } => Action::SwitchPresetWindowHeight,
            IpcAction::SwitchPresetWindowHeightBack { id: None } => Action::SwitchPresetWindowHeightBack,
            IpcAction::SwitchPresetWindowHeight { id: Some(id) } => Action::SwitchPresetWindowHeightById(id),
            IpcAction::SwitchPresetWindowHeightBack { id: Some(id) } => Action::SwitchPresetWindowHeightBackById(id),
            IpcAction::MaximizeColumn {} => Action::MaximizeColumn,
            IpcAction::MaximizeWindowToEdges { id: None } => Action::MaximizeWindowToEdges,
            IpcAction::MaximizeWindowToEdges { id: Some(id) } => Action::MaximizeWindowToEdgesById(id),
            IpcAction::SetColumnWidth { change } => Action::SetColumnWidth(change),
            IpcAction::ExpandColumnToAvailableWidth {} => Action::ExpandColumnToAvailableWidth,
            IpcAction::SwitchLayout { layout } => Action::SwitchLayout(layout),
            IpcAction::ShowHotkeyOverlay {} => Action::ShowHotkeyOverlay,
            IpcAction::MoveWorkspaceToMonitorLeft {} => Action::MoveWorkspaceToMonitorLeft,
            IpcAction::MoveWorkspaceToMonitorRight {} => Action::MoveWorkspaceToMonitorRight,
            IpcAction::MoveWorkspaceToMonitorDown {} => Action::MoveWorkspaceToMonitorDown,
            IpcAction::MoveWorkspaceToMonitorUp {} => Action::MoveWorkspaceToMonitorUp,
            IpcAction::MoveWorkspaceToMonitorPrevious {} => Action::MoveWorkspaceToMonitorPrevious,
            IpcAction::MoveWorkspaceToIndex { index, reference: Some(reference) } => Action::MoveWorkspaceToIndexByRef { new_idx: index, reference: WorkspaceReference::from_arg(reference), },
            IpcAction::MoveWorkspaceToIndex { index, reference: None } => Action::MoveWorkspaceToIndex(index),
            IpcAction::MoveWorkspaceToMonitor { output, reference: Some(reference) } => Action::MoveWorkspaceToMonitorByRef { output_name: output, reference: WorkspaceReference::from_arg(reference), },
            IpcAction::MoveWorkspaceToMonitor { output, reference: None } => Action::MoveWorkspaceToMonitor(output),
            IpcAction::MoveWorkspaceToMonitorNext {} => Action::MoveWorkspaceToMonitorNext,
            IpcAction::ToggleDebugTint {} => Action::ToggleDebugTint,
            IpcAction::DebugToggleOpaqueRegions {} => Action::DebugToggleOpaqueRegions,
            IpcAction::DebugToggleDamage {} => Action::DebugToggleDamage,
            IpcAction::ToggleWindowFloating { id: None } => Action::ToggleWindowFloating,
            IpcAction::ToggleWindowFloating { id: Some(id) } => Action::ToggleWindowFloatingById(id),
            IpcAction::MoveWindowToFloating { id: None } => Action::MoveWindowToFloating,
            IpcAction::MoveWindowToFloating { id: Some(id) } => Action::MoveWindowToFloatingById(id),
            IpcAction::MoveWindowToTiling { id: None } => Action::MoveWindowToTiling,
            IpcAction::MoveWindowToTiling { id: Some(id) } => Action::MoveWindowToTilingById(id),
            IpcAction::FocusFloating {} => Action::FocusFloating,
            IpcAction::FocusTiling {} => Action::FocusTiling,
            IpcAction::SwitchFocusBetweenFloatingAndTiling {} => Action::SwitchFocusBetweenFloatingAndTiling,
            IpcAction::MoveFloatingWindow { id, x, y } => Action::MoveFloatingWindowById { id, x, y },
            IpcAction::ToggleWindowRuleOpacity { id: None } => Action::ToggleWindowRuleOpacity,
            IpcAction::ToggleWindowRuleOpacity { id: Some(id) } => Action::ToggleWindowRuleOpacityById(id),
            IpcAction::SetDynamicCastWindow { id: None } => Action::SetDynamicCastWindow,
            IpcAction::SetDynamicCastWindow { id: Some(id) } => Action::SetDynamicCastWindowById(id),
            IpcAction::SetDynamicCastMonitor { output } => Action::SetDynamicCastMonitor(output),
            IpcAction::ClearDynamicCastTarget {} => Action::ClearDynamicCastTarget,
            IpcAction::ToggleOverview {} => Action::ToggleOverview,
            IpcAction::OpenOverview {} => Action::OpenOverview,
            IpcAction::CloseOverview {} => Action::CloseOverview,
            IpcAction::ToggleWindowUrgent { id } => Action::ToggleWindowUrgent(id),
            IpcAction::SetWindowUrgent { id } => Action::SetWindowUrgent(id),
            IpcAction::UnsetWindowUrgent { id } => Action::UnsetWindowUrgent(id),
            IpcAction::LoadConfigFile {} => Action::LoadConfigFile,
        }
    }

    /// The wire action for an internal action; `None` for the actions that
    /// the wire format has no variant for.
    pub fn to_ipc(self) -> (r: Option<IpcAction>)
        ensures
            r == ipc_of_action(self),
    {
        match self {
            Action::Quit(skip_confirmation) => Some(IpcAction::Quit { skip_confirmation }),
            Action::PowerOffMonitors => Some(IpcAction::PowerOffMonitors {}),
            Action::PowerOnMonitors => Some(IpcAction::PowerOnMonitors {}),
            Action::Spawn(command) => Some(IpcAction::Spawn { command }),
            Action::SpawnSh(command) => Some(IpcAction::SpawnSh { command }),
            Action::DoScreenTransition(delay_ms) => Some(IpcAction::DoScreenTransition { delay_ms }),
            Action::Screenshot(show_pointer, path) => Some(IpcAction::Screenshot { show_pointer, path }),
            Action::ScreenshotScreen(write_to_disk, show_pointer, path) => Some(IpcAction::ScreenshotScreen { write_to_disk, show_pointer, path }),
            Action::ScreenshotWindow(write_to_disk, path) => Some(IpcAction::ScreenshotWindow { id: None, write_to_disk, path }),
            Action::ScreenshotWindowById { id, write_to_disk, path } => Some(IpcAction::ScreenshotWindow { id: Some(id), write_to_disk, path }),
            Action::ToggleKeyboardShortcutsInhibit => Some(IpcAction::ToggleKeyboardShortcutsInhibit {}),
            Action::CloseWindow => Some(IpcAction::CloseWindow { id: None }),
            Action::CloseWindowById(id) => Some(IpcAction::CloseWindow { id: Some(id) }),
            Action::FullscreenWindow => Some(IpcAction::FullscreenWindow { id: None }),
            Action::FullscreenWindowById(id) => Some(IpcAction::FullscreenWindow { id: Some(id) }),
            Action::ToggleWindowedFullscreen => Some(IpcAction::ToggleWindowedFullscreen { id: None }),
            Action::ToggleWindowedFullscreenById(id) => Some(IpcAction::ToggleWindowedFullscreen { id: Some(id) }),
            Action::FocusWindow(id) => Some(IpcAction::FocusWindow { id }),
            Action::FocusWindowInColumn(index) => Some(IpcAction::FocusWindowInColumn { index }),
            Action::FocusWindowPrevious => Some(IpcAction::FocusWindowPrevious {}),
            Action::FocusColumnLeft => Some(IpcAction::FocusColumnLeft {}),
            Action::FocusColumnRight => Some(IpcAction::FocusColumnRight {}),
            Action::FocusColumnFirst => Some(IpcAction::FocusColumnFirst {}),
            Action::FocusColumnLast => Some(IpcAction::FocusColumnLast {}),
            Action::FocusColumnRightOrFirst => Some(IpcAction::FocusColumnRightOrFirst {}),
            Action::FocusColumnLeftOrLast => Some(IpcAction::FocusColumnLeftOrLast {}),
            Action::FocusColumn(index) => Some(IpcAction::FocusColumn { index }),
            Action::FocusWindowOrMonitorUp => Some(IpcAction::FocusWindowOrMonitorUp {}),
            Action::FocusWindowOrMonitorDown => Some(IpcAction::FocusWindowOrMonitorDown {}),
            Action::FocusColumnOrMonitorLeft => Some(IpcAction::FocusColumnOrMonitorLeft {}),
            Action::FocusColumnOrMonitorRight => Some(IpcAction::FocusColumnOrMonitorRight {}),
            Action::FocusWindowDown => Some(IpcAction::FocusWindowDown {}),
            Action::FocusWindowUp => Some(IpcAction::FocusWindowUp {}),
            Action::FocusWindowDownOrColumnLeft => Some(IpcAction::FocusWindowDownOrColumnLeft {}),
            Action::FocusWindowDownOrColumnRight => Some(IpcAction::FocusWindowDownOrColumnRight {}),
            Action::FocusWindowUpOrColumnLeft => Some(IpcAction::FocusWindowUpOrColumnLeft {}),
            Action::FocusWindowUpOrColumnRight => Some(IpcAction::FocusWindowUpOrColumnRight {}),
            Action::FocusWindowOrWorkspaceDown => Some(IpcAction::FocusWindowOrWorkspaceDown {}),
            Action::FocusWindowOrWorkspaceUp => Some(IpcAction::FocusWindowOrWorkspaceUp {}),
            Action::FocusWindowTop => Some(IpcAction::FocusWindowTop {}),
            Action::FocusWindowBottom => Some(IpcAction::FocusWindowBottom {}),
            Action::FocusWindowDownOrTop => Some(IpcAction::FocusWindowDownOrTop {}),
            Action::FocusWindowUpOrBottom => Some(IpcAction::FocusWindowUpOrBottom {}),
            Action::MoveColumnLeft => Some(IpcAction::MoveColumnLeft {}),
            Action::MoveColumnRight => Some(IpcAction::MoveColumnRight {}),
            Action::MoveColumnToFirst => Some(IpcAction::MoveColumnToFirst {}),
            Action::MoveColumnToLast => Some(IpcAction::MoveColumnToLast {}),
            Action::MoveColumnToIndex(index) => Some(IpcAction::MoveColumnToIndex { index }),
            Action::MoveColumnLeftOrToMonitorLeft => Some(IpcAction::MoveColumnLeftOrToMonitorLeft {}),
            Action::MoveColumnRightOrToMonitorRight => Some(IpcAction::MoveColumnRightOrToMonitorRight {}),
            Action::MoveWindowDown => Some(IpcAction::MoveWindowDown {}),
            Action::MoveWindowUp => Some(IpcAction::MoveWindowUp {}),
            Action::MoveWindowDownOrToWorkspaceDown => Some(IpcAction::MoveWindowDownOrToWorkspaceDown {}),
            Action::MoveWindowUpOrToWorkspaceUp => Some(IpcAction::MoveWindowUpOrToWorkspaceUp {}),
            Action::ConsumeOrExpelWindowLeft => Some(IpcAction::ConsumeOrExpelWindowLeft { id: None }),
            Action::ConsumeOrExpelWindowLeftById(id) => Some(IpcAction::ConsumeOrExpelWindowLeft { id: Some(id) }),
            Action::ConsumeOrExpelWindowRight => Some(IpcAction::ConsumeOrExpelWindowRight { id: None }),
            Action::ConsumeOrExpelWindowRightById(id) => Some(IpcAction::ConsumeOrExpelWindowRight { id: Some(id) }),
            Action::ConsumeWindowIntoColumn => Some(IpcAction::ConsumeWindowIntoColumn {}),
            Action::ExpelWindowFromColumn => Some(IpcAction::ExpelWindowFromColumn {}),
            Action::SwapWindowRight => Some(IpcAction::SwapWindowRight {}),
            Action::SwapWindowLeft => Some(IpcAction::SwapWindowLeft {}),
            Action::CenterColumn => Some(IpcAction::CenterColumn {}),
            Action::CenterWindow => Some(IpcAction::CenterWindow { id: None }),
            Action::CenterWindowById(id) => Some(IpcAction::CenterWindow { id: Some(id) }),
            Action::CenterVisibleColumns => Some(IpcAction::CenterVisibleColumns {}),
            Action::FocusWorkspaceDown => Some(IpcAction::FocusWorkspaceDown {}),
            Action::FocusWorkspaceUp => Some(IpcAction::FocusWorkspaceUp {}),
            Action::FocusWorkspace(reference) => Some(IpcAction::FocusWorkspace { reference: workspace_arg_from(reference) }),
            Action::FocusWorkspacePrevious => Some(IpcAction::FocusWorkspacePrevious {}),
            Action::MoveWindowToWorkspaceDown(focus) => Some(IpcAction::MoveWindowToWorkspaceDown { focus }),
            Action::MoveWindowToWorkspaceUp(focus) => Some(IpcAction::MoveWindowToWorkspaceUp { focus }),
            Action::MoveWindowToWorkspace(reference, focus) => Some(IpcAction::MoveWindowToWorkspace { window_id: None, reference: workspace_arg_from(reference), focus }),
            Action::MoveWindowToWorkspaceById { window_id, reference, focus } => Some(IpcAction::MoveWindowToWorkspace { window_id: Some(window_id), reference: workspace_arg_from(reference), focus }),
            Action::MoveColumnToWorkspaceDown(focus) => Some(IpcAction::MoveColumnToWorkspaceDown { focus }),
            Action::MoveColumnToWorkspaceUp(focus) => Some(IpcAction::MoveColumnToWorkspaceUp { focus }),
            Action::MoveColumnToWorkspace(reference, focus) => Some(IpcAction::MoveColumnToWorkspace { reference: workspace_arg_from(reference), focus }),
            Action::MoveWorkspaceDown => Some(IpcAction::MoveWorkspaceDown {}),
            Action::MoveWorkspaceUp => Some(IpcAction::MoveWorkspaceUp {}),
            Action::SetWorkspaceName(name) => Some(IpcAction::SetWorkspaceName { name, workspace: None }),
            Action::SetWorkspaceNameByRef { name, reference } => Some(IpcAction::SetWorkspaceName { name, workspace: Some(workspace_arg_from(reference)) }),
            Action::UnsetWorkspaceName => Some(IpcAction::UnsetWorkspaceName { reference: None }),
            Action::UnsetWorkSpaceNameByRef(reference) => Some(IpcAction::UnsetWorkspaceName { reference: Some(workspace_arg_from(reference)) }),
            Action::FocusMonitorLeft => Some(IpcAction::FocusMonitorLeft {}),
            Action::FocusMonitorRight => Some(IpcAction::FocusMonitorRight {}),
            Action::FocusMonitorDown => Some(IpcAction::FocusMonitorDown {}),
            Action::FocusMonitorUp => Some(IpcAction::FocusMonitorUp {}),
            Action::FocusMonitorPrevious => Some(IpcAction::FocusMonitorPrevious {}),
            Action::FocusMonitorNext => Some(IpcAction::FocusMonitorNext {}),
            Action::FocusMonitor(output) => Some(IpcAction::FocusMonitor { output }),
            Action::MoveWindowToMonitorLeft => Some(IpcAction::MoveWindowToMonitorLeft {}),
            Action::MoveWindowToMonitorRight => Some(IpcAction::MoveWindowToMonitorRight {}),
            Action::MoveWindowToMonitorDown => Some(IpcAction::MoveWindowToMonitorDown {}),
            Action::MoveWindowToMonitorUp => Some(IpcAction::MoveWindowToMonitorUp {}),
            Action::MoveWindowToMonitorPrevious => Some(IpcAction::MoveWindowToMonitorPrevious {}),
            Action::MoveWindowToMonitorNext => Some(IpcAction::MoveWindowToMonitorNext {}),
            Action::MoveWindowToMonitor(output) => Some(IpcAction::MoveWindowToMonitor { id: None, output }),
            Action::MoveWindowToMonitorById { id, output } => Some(IpcAction::MoveWindowToMonitor { id: Some(id), output }),
            Action::MoveColumnToMonitorLeft => Some(IpcAction::MoveColumnToMonitorLeft {}),
            Action::MoveColumnToMonitorRight => Some(IpcAction::MoveColumnToMonitorRight {}),
            Action::MoveColumnToMonitorDown => Some(IpcAction::MoveColumnToMonitorDown {}),
            Action::MoveColumnToMonitorUp => Some(IpcAction::MoveColumnToMonitorUp {}),
            Action::MoveColumnToMonitorPrevious => Some(IpcAction::MoveColumnToMonitorPrevious {}),
            Action::MoveColumnToMonitorNext => Some(IpcAction::MoveColumnToMonitorNext {}),
            Action::MoveColumnToMonitor(output) => Some(IpcAction::MoveColumnToMonitor { output }),
            Action::SetWindowWidth(change) => Some(IpcAction::SetWindowWidth { id: None, change }),
            Action::SetWindowWidthById { id, change } => Some(IpcAction::SetWindowWidth { id: Some(id), change }),
            Action::SetWindowHeight(change) => Some(IpcAction::SetWindowHeight { id: None, change }),
            Action::SetWindowHeightById { id, change } => Some(IpcAction::SetWindowHeight { id: Some(id), change }),
            Action::ResetWindowHeight => Some(IpcAction::ResetWindowHeight { id: None }),
            Action::ResetWindowHeightById(id) => Some(IpcAction::ResetWindowHeight { id: Some(id) }),
            Action::SwitchPresetColumnWidth => Some(IpcAction::SwitchPresetColumnWidth {}),
            Action::SwitchPresetColumnWidthBack => Some(IpcAction::SwitchPresetColumnWidthBack {}),
            Action::SwitchPresetWindowWidth => Some(IpcAction::SwitchPresetWindowWidth { id: None }),
            Action::SwitchPresetWindowWidthBack => Some(IpcAction::SwitchPresetWindowWidthBack { id: None }),
            Action::SwitchPresetWindowWidthById(id) => Some(IpcAction::SwitchPresetWindowWidth { id: Some(id) }),
            Action::SwitchPresetWindowWidthBackById(id) => Some(IpcAction::SwitchPresetWindowWidthBack { id: Some(id) }),
            Action::SwitchPresetWindowHeight => Some(IpcAction::SwitchPresetWindowHeight { id: None }),
            Action::SwitchPresetWindowHeightBack => Some(IpcAction::SwitchPresetWindowHeightBack { id: None }),
            Action::SwitchPresetWindowHeightById(id) => Some(IpcAction::SwitchPresetWindowHeight { id: Some(id) }),
            Action::SwitchPresetWindowHeightBackById(id) => Some(IpcAction::SwitchPresetWindowHeightBack { id: Some(id) }),
            Action::MaximizeColumn => Some(IpcAction::MaximizeColumn {}),
            Action::MaximizeWindowToEdges => Some(IpcAction::MaximizeWindowToEdges { id: None }),
            Action::MaximizeWindowToEdgesById(id) => Some(IpcAction::MaximizeWindowToEdges { id: Some(id) }),
            Action::SetColumnWidth(change) => Some(IpcAction::SetColumnWidth { change }),
            Action::ExpandColumnToAvailableWidth => Some(IpcAction::ExpandColumnToAvailableWidth {}),
            Action::SwitchLayout(layout) => Some(IpcAction::SwitchLayout { layout }),
            Action::ShowHotkeyOverlay => Some(IpcAction::ShowHotkeyOverlay {}),
            Action::MoveWorkspaceToMonitorLeft => Some(IpcAction::MoveWorkspaceToMonitorLeft {}),
            Action::MoveWorkspaceToMonitorRight => Some(IpcAction::MoveWorkspaceToMonitorRight {}),
            Action::MoveWorkspaceToMonitorDown => Some(IpcAction::MoveWorkspaceToMonitorDown {}),
            Action::MoveWorkspaceToMonitorUp => Some(IpcAction::MoveWorkspaceToMonitorUp {}),
            Action::MoveWorkspaceToMonitorPrevious => Some(IpcAction::MoveWorkspaceToMonitorPrevious {}),
            Action::MoveWorkspaceToIndexByRef { new_idx: index, reference } => Some(IpcAction::MoveWorkspaceToIndex { index, reference: Some(workspace_arg_from(reference)) }),
            Action::MoveWorkspaceToIndex(index) => Some(IpcAction::MoveWorkspaceToIndex { index, reference: None }),
            Action::MoveWorkspaceToMonitorByRef { output_name: output, reference } => Some(IpcAction::MoveWorkspaceToMonitor { output, reference: Some(workspace_arg_from(reference)) }),
            Action::MoveWorkspaceToMonitor(output) => Some(IpcAction::MoveWorkspaceToMonitor { output, reference: None }),
            Action::MoveWorkspaceToMonitorNext => Some(IpcAction::MoveWorkspaceToMonitorNext {}),
            Action::ToggleDebugTint => Some(IpcAction::ToggleDebugTint {}),
            Action::DebugToggleOpaqueRegions => Some(IpcAction::DebugToggleOpaqueRegions {}),
            Action::DebugToggleDamage => Some(IpcAction::DebugToggleDamage {}),
            Action::ToggleWindowFloating => Some(IpcAction::ToggleWindowFloating { id: None }),
            Action::ToggleWindowFloatingById(id) => Some(IpcAction::ToggleWindowFloating { id: Some(id) }),
            Action::MoveWindowToFloating => Some(IpcAction::MoveWindowToFloating { id: None }),
            Action::MoveWindowToFloatingById(id) => Some(IpcAction::MoveWindowToFloating { id: Some(id) }),
            Action::MoveWindowToTiling => Some(IpcAction::MoveWindowToTiling { id: None }),
            Action::MoveWindowToTilingById(id) => Some(IpcAction::MoveWindowToTiling { id: Some(id) }),
            Action::FocusFloating => Some(IpcAction::FocusFloating {}),
            Action::FocusTiling => Some(IpcAction::FocusTiling {}),
            Action::SwitchFocusBetweenFloatingAndTiling => Some(IpcAction::SwitchFocusBetweenFloatingAndTiling {}),
            Action::MoveFloatingWindowById { id, x, y } => Some(IpcAction::MoveFloatingWindow { id, x, y }),
            Action::ToggleWindowRuleOpacity => Some(IpcAction::ToggleWindowRuleOpacity { id: None }),
            Action::ToggleWindowRuleOpacityById(id) => Some(IpcAction::ToggleWindowRuleOpacity { id: Some(id) }),
            Action::SetDynamicCastWindow => Some(IpcAction::SetDynamicCastWindow { id: None }),
            Action::SetDynamicCastWindowById(id) => Some(IpcAction::SetDynamicCastWindow { id: Some(id) }),
            Action::SetDynamicCastMonitor(output) => Some(IpcAction::SetDynamicCastMonitor { output }),
            Action::ClearDynamicCastTarget => Some(IpcAction::ClearDynamicCastTarget {}),
            Action::ToggleOverview => Some(IpcAction::ToggleOverview {}),
            Action::OpenOverview => Some(IpcAction::OpenOverview {}),
            Action::CloseOverview => Some(IpcAction::CloseOverview {}),
            Action::ToggleWindowUrgent(id) => Some(IpcAction::ToggleWindowUrgent { id }),
            Action::SetWindowUrgent(id) => Some(IpcAction::SetWindowUrgent { id }),
            Action::UnsetWindowUrgent(id) => Some(IpcAction::UnsetWindowUrgent { id }),
            Action::LoadConfigFile => Some(IpcAction::LoadConfigFile {}),
            _ => None,
        }
    }
}

impl From<IpcAction> for Action {
    fn from(a: IpcAction) -> (r: Action)
        ensures
            r == action_of_ipc(a),
    {
        Action::from_ipc(a)
    }
}

impl vstd::std_specs::convert::FromSpecImpl<IpcAction> for Action {
    open spec fn obeys_from_spec() -> bool {
        true
    }

    open spec fn from_spec(a: IpcAction) -> Action {
        action_of_ipc(a)
    }
}

impl From<WorkspaceReferenceArg> for WorkspaceReference {
    fn from(r: WorkspaceReferenceArg) -> (w: WorkspaceReference)
        ensures
            w == workspace_ref_of(r),
    {
        WorkspaceReference::from_arg(r)
    }
}

impl vstd::std_specs::convert::FromSpecImpl<WorkspaceReferenceArg> for WorkspaceReference {
    open spec fn obeys_from_spec() -> bool {
        true
    }

    open spec fn from_spec(r: WorkspaceReferenceArg) -> WorkspaceReference {
        workspace_ref_of(r)
    }
}

/// Mapping a wire action to an internal one and back gives the wire
/// action again.
pub proof fn ipc_round_trip(a: IpcAction)
    ensures
        ipc_of_action(action_of_ipc(a)) == Some(a),
{
    match a {
        IpcAction::Quit { skip_confirmation } => {
        },
        IpcAction::PowerOffMonitors {} => {
        },
        IpcAction::PowerOnMonitors {} => {
        },
        IpcAction::Spawn { command } => {
        },
        IpcAction::SpawnSh { command } => {
        },
        IpcAction::DoScreenTransition { delay_ms } => {
        },
        IpcAction::Screenshot { show_pointer, path } => {
        },
        IpcAction::ScreenshotScreen { write_to_disk, show_pointer, path } => {
        },
        IpcAction::ScreenshotWindow { id: None, write_to_disk, path } => {
        },
        IpcAction::ScreenshotWindow { id: Some(id), write_to_disk, path } => {
        },
        IpcAction::ToggleKeyboardShortcutsInhibit {} => {
        },
        IpcAction::CloseWindow { id: None } => {
        },
        IpcAction::CloseWindow { id: Some(id) } => {
        },
        IpcAction::FullscreenWindow { id: None } => {
        },
        IpcAction::FullscreenWindow { id: Some(id) } => {
        },
        IpcAction::ToggleWindowedFullscreen { id: None } => {
        },
        IpcAction::ToggleWindowedFullscreen { id: Some(id) } => {
        },
        IpcAction::FocusWindow { id } => {
        },
        IpcAction::FocusWindowInColumn { index } => {
        },
        IpcAction::FocusWindowPrevious {} => {
        },
        IpcAction::FocusColumnLeft {} => {
        },
        IpcAction::FocusColumnRight {} => {
        },
        IpcAction::FocusColumnFirst {} => {
        },
        IpcAction::FocusColumnLast {} => {
        },
        IpcAction::FocusColumnRightOrFirst {} => {
        },
        IpcAction::FocusColumnLeftOrLast {} => {
        },
        IpcAction::FocusColumn { index } => {
        },
        IpcAction::FocusWindowOrMonitorUp {} => {
        },
        IpcAction::FocusWindowOrMonitorDown {} => {
        },
        IpcAction::FocusColumnOrMonitorLeft {} => {
        },
        IpcAction::FocusColumnOrMonitorRight {} => {
        },
        IpcAction::FocusWindowDown {} => {
        },
        IpcAction::FocusWindowUp {} => {
        },
        IpcAction::FocusWindowDownOrColumnLeft {} => {
        },
        IpcAction::FocusWindowDownOrColumnRight {} => {
        },
        IpcAction::FocusWindowUpOrColumnLeft {} => {
        },
        IpcAction::FocusWindowUpOrColumnRight {} => {
        },
        IpcAction::FocusWindowOrWorkspaceDown {} => {
        },
        IpcAction::FocusWindowOrWorkspaceUp {} => {
        },
        IpcAction::FocusWindowTop {} => {
        },
        IpcAction::FocusWindowBottom {} => {
        },
        IpcAction::FocusWindowDownOrTop {} => {
        },
        IpcAction::FocusWindowUpOrBottom {} => {
        },
        IpcAction::MoveColumnLeft {} => {
        },
        IpcAction::MoveColumnRight {} => {
        },
        IpcAction::MoveColumnToFirst {} => {
        },
        IpcAction::MoveColumnToLast {} => {
        },
        IpcAction::MoveColumnToIndex { index } => {
        },
        IpcAction::MoveColumnLeftOrToMonitorLeft {} => {
        },
        IpcAction::MoveColumnRightOrToMonitorRight {} => {
        },
        IpcAction::MoveWindowDown {} => {
        },
        IpcAction::MoveWindowUp {} => {
        },
        IpcAction::MoveWindowDownOrToWorkspaceDown {} => {
        },
        IpcAction::MoveWindowUpOrToWorkspaceUp {} => {
        },
        IpcAction::ConsumeOrExpelWindowLeft { id: None } => {
        },
        IpcAction::ConsumeOrExpelWindowLeft { id: Some(id) } => {
        },
        IpcAction::ConsumeOrExpelWindowRight { id: None } => {
        },
        IpcAction::ConsumeOrExpelWindowRight { id: Some(id) } => {
        },
        IpcAction::ConsumeWindowIntoColumn {} => {
        },
        IpcAction::ExpelWindowFromColumn {} => {
        },
        IpcAction::SwapWindowRight {} => {
        },
        IpcAction::SwapWindowLeft {} => {
        },
        IpcAction::CenterColumn {} => {
        },
        IpcAction::CenterWindow { id: None } => {
        },
        IpcAction::CenterWindow { id: Some(id) } => {
        },
        IpcAction::CenterVisibleColumns {} => {
        },
        IpcAction::FocusWorkspaceDown {} => {
        },
        IpcAction::FocusWorkspaceUp {} => {
        },
        IpcAction::FocusWorkspace { reference } => {
            lemma_workspace_round_trip(reference);
        },
        IpcAction::FocusWorkspacePrevious {} => {
        },
        IpcAction::MoveWindowToWorkspaceDown { focus } => {
        },
        IpcAction::MoveWindowToWorkspaceUp { focus } => {
        },
        IpcAction::MoveWindowToWorkspace { window_id: None, reference, focus } => {
            lemma_workspace_round_trip(reference);
        },
        IpcAction::MoveWindowToWorkspace { window_id: Some(window_id), reference, focus } => {
            lemma_workspace_round_trip(reference);
        },
        IpcAction::MoveColumnToWorkspaceDown { focus } => {
        },
        IpcAction::MoveColumnToWorkspaceUp { focus } => {
        },
        IpcAction::MoveColumnToWorkspace { reference, focus } => {
            lemma_workspace_round_trip(reference);
        },
        IpcAction::MoveWorkspaceDown {} => {
        },
        IpcAction::MoveWorkspaceUp {} => {
        },
        IpcAction::SetWorkspaceName { name, workspace: None } => {
        },
        IpcAction::SetWorkspaceName { name, workspace: Some(reference) } => {
            lemma_workspace_round_trip(reference);
        },
        IpcAction::UnsetWorkspaceName { reference: None } => {
        },
        IpcAction::UnsetWorkspaceName { reference: Some(reference) } => {
            lemma_workspace_round_trip(reference);
        },
        IpcAction::FocusMonitorLeft {} => {
        },
        IpcAction::FocusMonitorRight {} => {
        },
        IpcAction::FocusMonitorDown {} => {
        },
        IpcAction::FocusMonitorUp {} => {
        },
        IpcAction::FocusMonitorPrevious {} => {
        },
        IpcAction::FocusMonitorNext {} => {
        },
        IpcAction::FocusMonitor { output } => {
        },
        IpcAction::MoveWindowToMonitorLeft {} => {
        },
        IpcAction::MoveWindowToMonitorRight {} => {
        },
        IpcAction::MoveWindowToMonitorDown {} => {
        },
        IpcAction::MoveWindowToMonitorUp {} => {
        },
        IpcAction::MoveWindowToMonitorPrevious {} => {
        },
        IpcAction::MoveWindowToMonitorNext {} => {
        },
        IpcAction::MoveWindowToMonitor { id: None, output } => {
        },
        IpcAction::MoveWindowToMonitor { id: Some(id), output } => {
        },
        IpcAction::MoveColumnToMonitorLeft {} => {
        },
        IpcAction::MoveColumnToMonitorRight {} => {
        },
        IpcAction::MoveColumnToMonitorDown {} => {
        },
        IpcAction::MoveColumnToMonitorUp {} => {
        },
        IpcAction::MoveColumnToMonitorPrevious {} => {
        },
        IpcAction::MoveColumnToMonitorNext {} => {
        },
        IpcAction::MoveColumnToMonitor { output } => {
        },
        IpcAction::SetWindowWidth { id: None, change } => {
        },
        IpcAction::SetWindowWidth { id: Some(id), change } => {
        },
        IpcAction::SetWindowHeight { id: None, change } => {
        },
        IpcAction::SetWindowHeight { id: Some(id), change } => {
        },
        IpcAction::ResetWindowHeight { id: None } => {
        },
        IpcAction::ResetWindowHeight { id: Some(id) } => {
        },
        IpcAction::SwitchPresetColumnWidth {} => {
        },
        IpcAction::SwitchPresetColumnWidthBack {} => {
        },
        IpcAction::SwitchPresetWindowWidth { id: None } => {
        },
        IpcAction::SwitchPresetWindowWidthBack { id: None } => {
        },
        IpcAction::SwitchPresetWindowWidth { id: Some(id) } => {
        },
        IpcAction::SwitchPresetWindowWidthBack { id: Some(id) } => {
        },
        IpcAction::SwitchPresetWindowHeight { id: None } => {
        },
        IpcAction::SwitchPresetWindowHeightBack { id: None } => {
        },
        IpcAction::SwitchPresetWindowHeight { id: Some(id) } => {
        },
        IpcAction::SwitchPresetWindowHeightBack { id: Some(id) } => {
        },
        IpcAction::MaximizeColumn {} => {
        },
        IpcAction::MaximizeWindowToEdges { id: None } => {
        },
        IpcAction::MaximizeWindowToEdges { id: Some(id) } => {
        },
        IpcAction::SetColumnWidth { change } => {
        },
        IpcAction::ExpandColumnToAvailableWidth {} => {
        },
        IpcAction::SwitchLayout { layout } => {
        },
        IpcAction::ShowHotkeyOverlay {} => {
        },
        IpcAction::MoveWorkspaceToMonitorLeft {} => {
        },
        IpcAction::MoveWorkspaceToMonitorRight {} => {
        },
        IpcAction::MoveWorkspaceToMonitorDown {} => {
        },
        IpcAction::MoveWorkspaceToMonitorUp {} => {
        },
        IpcAction::MoveWorkspaceToMonitorPrevious {} => {
        },
        IpcAction::MoveWorkspaceToIndex { index, reference: Some(reference) } => {
            lemma_workspace_round_trip(reference);
        },
        IpcAction::MoveWorkspaceToIndex { index, reference: None } => {
        },
        IpcAction::MoveWorkspaceToMonitor { output, reference: Some(reference) } => {
            lemma_workspace_round_trip(reference);
        },
        IpcAction::MoveWorkspaceToMonitor { output, reference: None } => {
        },
        IpcAction::MoveWorkspaceToMonitorNext {} => {
        },
        IpcAction::ToggleDebugTint {} => {
        },
        IpcAction::DebugToggleOpaqueRegions {} => {
        },
        IpcAction::DebugToggleDamage {} => {
        },
        IpcAction::ToggleWindowFloating { id: None } => {
        },
        IpcAction::ToggleWindowFloating { id: Some(id) } => {
        },
        IpcAction::MoveWindowToFloating { id: None } => {
        },
        IpcAction::MoveWindowToFloating { id: Some(id) } => {
        },
        IpcAction::MoveWindowToTiling { id: None } => {
        },
        IpcAction::MoveWindowToTiling { id: Some(id) } => {
        },
        IpcAction::FocusFloating {} => {
        },
        IpcAction::FocusTiling {} => {
        },
        IpcAction::SwitchFocusBetweenFloatingAndTiling {} => {
        },
        IpcAction::MoveFloatingWindow { id, x, y } => {
        },
        IpcAction::ToggleWindowRuleOpacity { id: None } => {
        },
        IpcAction::ToggleWindowRuleOpacity { id: Some(id) } => {
        },
        IpcAction::SetDynamicCastWindow { id: None } => {
        },
        IpcAction::SetDynamicCastWindow { id: Some(id) } => {
        },
        IpcAction::SetDynamicCastMonitor { output } => {
        },
        IpcAction::ClearDynamicCastTarget {} => {
        },
        IpcAction::ToggleOverview {} => {
        },
        IpcAction::OpenOverview {} => {
        },
        IpcAction::CloseOverview {} => {
        },
        IpcAction::ToggleWindowUrgent { id } => {
        },
        IpcAction::SetWindowUrgent { id } => {
        },
        IpcAction::UnsetWindowUrgent { id } => {
        },
        IpcAction::LoadConfigFile {} => {
        },
    }
}

/// The mapping keeps the target: a wire action with its optional window
/// id or workspace reference left out becomes an internal action with no
/// target, and one with it set becomes the internal variant that carries
/// that same target.
pub proof fn ipc_keeps_target(a: IpcAction)
    ensures
        action_window_target(action_of_ipc(a)) == wire_window_target(a),
        action_workspace_target(action_of_ipc(a)) == wire_workspace_target(a),
{
    match a {
        IpcAction::Quit { skip_confirmation } => {
        },
        IpcAction::PowerOffMonitors {} => {
        },
        IpcAction::PowerOnMonitors {} => {
        },
        IpcAction::Spawn { command } => {
        },
        IpcAction::SpawnSh { command } => {
        },
        IpcAction::DoScreenTransition { delay_ms } => {
        },
        IpcAction::Screenshot { show_pointer, path } => {
        },
        IpcAction::ScreenshotScreen { write_to_disk, show_pointer, path } => {
        },
        IpcAction::ScreenshotWindow { id: None, write_to_disk, path } => {
        },
        IpcAction::ScreenshotWindow { id: Some(id), write_to_disk, path } => {
        },
        IpcAction::ToggleKeyboardShortcutsInhibit {} => {
        },
        IpcAction::CloseWindow { id: None } => {
        },
        IpcAction::CloseWindow { id: Some(id) } => {
        },
        IpcAction::FullscreenWindow { id: None } => {
        },
        IpcAction::FullscreenWindow { id: Some(id) } => {
        },
        IpcAction::ToggleWindowedFullscreen { id: None } => {
        },
        IpcAction::ToggleWindowedFullscreen { id: Some(id) } => {
        },
        IpcAction::FocusWindow { id } => {
        },
        IpcAction::FocusWindowInColumn { index } => {
        },
        IpcAction::FocusWindowPrevious {} => {
        },
        IpcAction::FocusColumnLeft {} => {
        },
        IpcAction::FocusColumnRight {} => {
        },
        IpcAction::FocusColumnFirst {} => {
        },
        IpcAction::FocusColumnLast {} => {
        },
        IpcAction::FocusColumnRightOrFirst {} => {
        },
        IpcAction::FocusColumnLeftOrLast {} => {
        },
        IpcAction::FocusColumn { index } => {
        },
        IpcAction::FocusWindowOrMonitorUp {} => {
        },
        IpcAction::FocusWindowOrMonitorDown {} => {
        },
        IpcAction::FocusColumnOrMonitorLeft {} => {
        },
        IpcAction::FocusColumnOrMonitorRight {} => {
        },
        IpcAction::FocusWindowDown {} => {
        },
        IpcAction::FocusWindowUp {} => {
        },
        IpcAction::FocusWindowDownOrColumnLeft {} => {
        },
        IpcAction::FocusWindowDownOrColumnRight {} => {
        },
        IpcAction::FocusWindowUpOrColumnLeft {} => {
        },
        IpcAction::FocusWindowUpOrColumnRight {} => {
        },
        IpcAction::FocusWindowOrWorkspaceDown {} => {
        },
        IpcAction::FocusWindowOrWorkspaceUp {} => {
        },
        IpcAction::FocusWindowTop {} => {
        },
        IpcAction::FocusWindowBottom {} => {
        },
        IpcAction::FocusWindowDownOrTop {} => {
        },
        IpcAction::FocusWindowUpOrBottom {} => {
        },
        IpcAction::MoveColumnLeft {} => {
        },
        IpcAction::MoveColumnRight {} => {
        },
        IpcAction::MoveColumnToFirst {} => {
        },
        IpcAction::MoveColumnToLast {} => {
        },
        IpcAction::MoveColumnToIndex { index } => {
        },
        IpcAction::MoveColumnLeftOrToMonitorLeft {} => {
        },
        IpcAction::MoveColumnRightOrToMonitorRight {} => {
        },
        IpcAction::MoveWindowDown {} => {
        },
        IpcAction::MoveWindowUp {} => {
        },
        IpcAction::MoveWindowDownOrToWorkspaceDown {} => {
        },
        IpcAction::MoveWindowUpOrToWorkspaceUp {} => {
        },
        IpcAction::ConsumeOrExpelWindowLeft { id: None } => {
        },
        IpcAction::ConsumeOrExpelWindowLeft { id: Some(id) } => {
        },
        IpcAction::ConsumeOrExpelWindowRight { id: None } => {
        },
        IpcAction::ConsumeOrExpelWindowRight { id: Some(id) } => {
        },
        IpcAction::ConsumeWindowIntoColumn {} => {
        },
        IpcAction::ExpelWindowFromColumn {} => {
        },
        IpcAction::SwapWindowRight {} => {
        },
        IpcAction::SwapWindowLeft {} => {
        },
        IpcAction::CenterColumn {} => {
        },
        IpcAction::CenterWindow { id: None } => {
        },
        IpcAction::CenterWindow { id: Some(id) } => {
        },
        IpcAction::CenterVisibleColumns {} => {
        },
        IpcAction::FocusWorkspaceDown {} => {
        },
        IpcAction::FocusWorkspaceUp {} => {
        },
        IpcAction::FocusWorkspace { reference } => {
            lemma_workspace_round_trip(reference);
        },
        IpcAction::FocusWorkspacePrevious {} => {
        },
        IpcAction::MoveWindowToWorkspaceDown { focus } => {
        },
        IpcAction::MoveWindowToWorkspaceUp { focus } => {
        },
        IpcAction::MoveWindowToWorkspace { window_id: None, reference, focus } => {
            lemma_workspace_round_trip(reference);
        },
        IpcAction::MoveWindowToWorkspace { window_id: Some(window_id), reference, focus } => {
            lemma_workspace_round_trip(reference);
        },
        IpcAction::MoveColumnToWorkspaceDown { focus } => {
        },
        IpcAction::MoveColumnToWorkspaceUp { focus } => {
        },
        IpcAction::MoveColumnToWorkspace { reference, focus } => {
            lemma_workspace_round_trip(reference);
        },
        IpcAction::MoveWorkspaceDown {} => {
        },
        IpcAction::MoveWorkspaceUp {} => {
        },
        IpcAction::SetWorkspaceName { name, workspace: None } => {
        },
        IpcAction::SetWorkspaceName { name, workspace: Some(reference) } => {
            lemma_workspace_round_trip(reference);
        },
        IpcAction::UnsetWorkspaceName { reference: None } => {
        },
        IpcAction::UnsetWorkspaceName { reference: Some(reference) } => {
            lemma_workspace_round_trip(reference);
        },
        IpcAction::FocusMonitorLeft {} => {
        },
        IpcAction::FocusMonitorRight {} => {
        },
        IpcAction::FocusMonitorDown {} => {
        },
        IpcAction::FocusMonitorUp {} => {
        },
        IpcAction::FocusMonitorPrevious {} => {
        },
        IpcAction::FocusMonitorNext {} => {
        },
        IpcAction::FocusMonitor { output } => {
        },
        IpcAction::MoveWindowToMonitorLeft {} => {
        },
        IpcAction::MoveWindowToMonitorRight {} => {
        },
        IpcAction::MoveWindowToMonitorDown {} => {
        },
        IpcAction::MoveWindowToMonitorUp {} => {
        },
        IpcAction::MoveWindowToMonitorPrevious {} => {
        },
        IpcAction::MoveWindowToMonitorNext {} => {
        },
        IpcAction::MoveWindowToMonitor { id: None, output } => {
        },
        IpcAction::MoveWindowToMonitor { id: Some(id), output } => {
        },
        IpcAction::MoveColumnToMonitorLeft {} => {
        },
        IpcAction::MoveColumnToMonitorRight {} => {
        },
        IpcAction::MoveColumnToMonitorDown {} => {
        },
        IpcAction::MoveColumnToMonitorUp {} => {
        },
        IpcAction::MoveColumnToMonitorPrevious {} => {
        },
        IpcAction::MoveColumnToMonitorNext {} => {
        },
        IpcAction::MoveColumnToMonitor { output } => {
        },
        IpcAction::SetWindowWidth { id: None, change } => {
        },
        IpcAction::SetWindowWidth { id: Some(id), change } => {
        },
        IpcAction::SetWindowHeight { id: None, change } => {
        },
        IpcAction::SetWindowHeight { id: Some(id), change } => {
        },
        IpcAction::ResetWindowHeight { id: None } => {
        },
        IpcAction::ResetWindowHeight { id: Some(id) } => {
        },
        IpcAction::SwitchPresetColumnWidth {} => {
        },
        IpcAction::SwitchPresetColumnWidthBack {} => {
        },
        IpcAction::SwitchPresetWindowWidth { id: None } => {
        },
        IpcAction::SwitchPresetWindowWidthBack { id: None } => {
        },
        IpcAction::SwitchPresetWindowWidth { id: Some(id) } => {
        },
        IpcAction::SwitchPresetWindowWidthBack { id: Some(id) } => {
        },
        IpcAction::SwitchPresetWindowHeight { id: None } => {
        },
        IpcAction::SwitchPresetWindowHeightBack { id: None } => {
        },
        IpcAction::SwitchPresetWindowHeight { id: Some(id) } => {
        },
        IpcAction::SwitchPresetWindowHeightBack { id: Some(id) } => {
        },
        IpcAction::MaximizeColumn {} => {
        },
        IpcAction::MaximizeWindowToEdges { id: None } => {
        },
        IpcAction::MaximizeWindowToEdges { id: Some(id) } => {
        },
        IpcAction::SetColumnWidth { change } => {
        },
        IpcAction::ExpandColumnToAvailableWidth {} => {
        },
        IpcAction::SwitchLayout { layout } => {
        },
        IpcAction::ShowHotkeyOverlay {} => {
        },
        IpcAction::MoveWorkspaceToMonitorLeft {} => {
        },
        IpcAction::MoveWorkspaceToMonitorRight {} => {
        },
        IpcAction::MoveWorkspaceToMonitorDown {} => {
        },
        IpcAction::MoveWorkspaceToMonitorUp {} => {
        },
        IpcAction::MoveWorkspaceToMonitorPrevious {} => {
        },
        IpcAction::MoveWorkspaceToIndex { index, reference: Some(reference) } => {
            lemma_workspace_round_trip(reference);
        },
        IpcAction::MoveWorkspaceToIndex { index, reference: None } => {
        },
        IpcAction::MoveWorkspaceToMonitor { output, reference: Some(reference) } => {
            lemma_workspace_round_trip(reference);
        },
        IpcAction::MoveWorkspaceToMonitor { output, reference: None } => {
        },
        IpcAction::MoveWorkspaceToMonitorNext {} => {
        },
        IpcAction::ToggleDebugTint {} => {
        },
        IpcAction::DebugToggleOpaqueRegions {} => {
        },
        IpcAction::DebugToggleDamage {} => {
        },
        IpcAction::ToggleWindowFloating { id: None } => {
        },
        IpcAction::ToggleWindowFloating { id: Some(id) } => {
        },
        IpcAction::MoveWindowToFloating { id: None } => {
        },
        IpcAction::MoveWindowToFloating { id: Some(id) } => {
        },
        IpcAction::MoveWindowToTiling { id: None } => {
        },
        IpcAction::MoveWindowToTiling { id: Some(id) } => {
        },
        IpcAction::FocusFloating {} => {
        },
        IpcAction::FocusTiling {} => {
        },
        IpcAction::SwitchFocusBetweenFloatingAndTiling {} => {
        },
        IpcAction::MoveFloatingWindow { id, x, y } => {
        },
        IpcAction::ToggleWindowRuleOpacity { id: None } => {
        },
        IpcAction::ToggleWindowRuleOpacity { id: Some(id) } => {
        },
        IpcAction::SetDynamicCastWindow { id: None } => {
        },
        IpcAction::SetDynamicCastWindow { id: Some(id) } => {
        },
        IpcAction::SetDynamicCastMonitor { output } => {
        },
        IpcAction::ClearDynamicCastTarget {} => {
        },
        IpcAction::ToggleOverview {} => {
        },
        IpcAction::OpenOverview {} => {
        },
        IpcAction::CloseOverview {} => {
        },
        IpcAction::ToggleWindowUrgent { id } => {
        },
        IpcAction::SetWindowUrgent { id } => {
        },
        IpcAction::UnsetWindowUrgent { id } => {
        },
        IpcAction::LoadConfigFile {} => {
        },
    }
}

proof fn lemma_workspace_round_trip(r: WorkspaceReferenceArg)
    ensures
        workspace_arg_of(workspace_ref_of(r)) == r,
{
}

} // verus!
