use vstd::prelude::*;

use crate::modifiers::ModKey;
use crate::text::{eq_ignore_case, str_eq, str_eq_ignore_ascii_case};

verus! {

/// A way for a touchpad to tell clicks apart.
#[derive(Debug, Clone, Copy, PartialEq, Eq, Structural)]
pub enum ClickMethod {
    Clickfinger,
    ButtonAreas,
}

/// The ClickMethod that a name of the document stands for; names are matched exactly.
pub open spec fn click_method_named(s: Seq<char>) -> Option<ClickMethod> {
    if s == "clickfinger"@ {
        Some(ClickMethod::Clickfinger)
    } else if s == "button-areas"@ {
        Some(ClickMethod::ButtonAreas)
    } else {
        None
    }
}

impl ClickMethod {
    /// Reads the name of the document; an unknown name gets an error that
    /// lists the known ones.
    pub fn from_name(s: &str) -> (r: Result<ClickMethod, String>)
        ensures
            r is Ok <==> click_method_named(s@) is Some,
            r matches Ok(v) ==> click_method_named(s@) == Some(v),
            r matches Err(m) ==> m@ == "invalid click method, can be \"button-areas\" or \"clickfinger\""@,
    {
        if str_eq(s, "clickfinger") {
            Ok(ClickMethod::Clickfinger)
        } else if str_eq(s, "button-areas") {
            Ok(ClickMethod::ButtonAreas)
        } else {
            Err(String::from_str("invalid click method, can be \"button-areas\" or \"clickfinger\""))
        }
    }
}

/// A pointer acceleration profile.
#[derive(Debug, Clone, Copy, PartialEq, Eq, Structural)]
pub enum AccelProfile {
    Adaptive,
    Flat,
}

/// The AccelProfile that a name of the document stands for; names are matched exactly.
pub open spec fn accel_profile_named(s: Seq<char>) -> Option<AccelProfile> {
    if s == "adaptive"@ {
        Some(AccelProfile::Adaptive)
    } else if s == "flat"@ {
        Some(AccelProfile::Flat)
    } else {
        None
    }
}

impl AccelProfile {
    /// Reads the name of the document; an unknown name gets an error that
    /// lists the known ones.
    pub fn from_name(s: &str) -> (r: Result<AccelProfile, String>)
        ensures
            r is Ok <==> accel_profile_named(s@) is Some,
            r matches Ok(v) ==> accel_profile_named(s@) == Some(v),
            r matches Err(m) ==> m@ == "invalid accel profile, can be \"adaptive\" or \"flat\""@,
    {
        if str_eq(s, "adaptive") {
            Ok(AccelProfile::Adaptive)
        } else if str_eq(s, "flat") {
            Ok(AccelProfile::Flat)
        } else {
            Err(String::from_str("invalid accel profile, can be \"adaptive\" or \"flat\""))
        }
    }
}

/// A way to scroll with a pointing device.
#[derive(Debug, Clone, Copy, PartialEq, Eq, Structural)]
pub enum ScrollMethod {
    NoScroll,
    TwoFinger,
    Edge,
    OnButtonDown,
}

/// The ScrollMethod that a name of the document stands for; names are matched exactly.
pub open spec fn scroll_method_named(s: Seq<char>) -> Option<ScrollMethod> {
    if s == "no-scroll"@ {
        Some(ScrollMethod::NoScroll)
    } else if s == "two-finger"@ {
        Some(ScrollMethod::TwoFinger)
    } else if s == "edge"@ {
        Some(ScrollMethod::Edge)
    } else if s == "on-button-down"@ {
        Some(ScrollMethod::OnButtonDown)
    } else {
        None
    }
}

impl ScrollMethod {
    /// Reads the name of the document; an unknown name gets an error that
    /// lists the known ones.
    pub fn from_name(s: &str) -> (r: Result<ScrollMethod, String>)
        ensures
            r is Ok <==> scroll_method_named(s@) is Some,
            r matches Ok(v) ==> scroll_method_named(s@) == Some(v),
            r matches Err(m) ==> m@ == "invalid scroll method, can be \"no-scroll\", \"two-finger\", \"edge\", or \"on-button-down\""@,
    {
        if str_eq(s, "no-scroll") {
            Ok(ScrollMethod::NoScroll)
        } else if str_eq(s, "two-finger") {
            Ok(ScrollMethod::TwoFinger)
        } else if str_eq(s, "edge") {
            Ok(ScrollMethod::Edge)
        } else if str_eq(s, "on-button-down") {
            Ok(ScrollMethod::OnButtonDown)
        } else {
            Err(String::from_str("invalid scroll method, can be \"no-scroll\", \"two-finger\", \"edge\", or \"on-button-down\""))
        }
    }
}

/// Which buttons one, two and three finger taps press.
#[derive(Debug, Clone, Copy, PartialEq, Eq, Structural)]
pub enum TapButtonMap {
    LeftRightMiddle,
    LeftMiddleRight,
}

/// The TapButtonMap that a name of the document stands for; names are matched exactly.
pub open spec fn tap_button_map_named(s: Seq<char>) -> Option<TapButtonMap> {
    if s == "left-right-middle"@ {
        Some(TapButtonMap::LeftRightMiddle)
    } else if s == "left-middle-right"@ {
        Some(TapButtonMap::LeftMiddleRight)
    } else {
        None
    }
}

impl TapButtonMap {
    /// Reads the name of the document; an unknown name gets an error that
    /// lists the known ones.
    pub fn from_name(s: &str) -> (r: Result<TapButtonMap, String>)
        ensures
            r is Ok <==> tap_button_map_named(s@) is Some,
            r matches Ok(v) ==> tap_button_map_named(s@) == Some(v),
            r matches Err(m) ==> m@ == "invalid tap button map, can be \"left-right-middle\" or \"left-middle-right\""@,
    {
        if str_eq(s, "left-right-middle") {
            Ok(TapButtonMap::LeftRightMiddle)
        } else if str_eq(s, "left-middle-right") {
            Ok(TapButtonMap::LeftMiddleRight)
        } else {
            Err(String::from_str("invalid tap button map, can be \"left-right-middle\" or \"left-middle-right\""))
        }
    }
}

/// How the pointer is moved onto a newly focused window.
#[derive(Debug, Clone, Copy, PartialEq, Eq, Structural)]
pub enum WarpMouseToFocusMode {
    CenterXy,
    CenterXyAlways,
}

/// The WarpMouseToFocusMode that a name of the document stands for; names are matched exactly.
pub open spec fn warp_mouse_to_focus_mode_named(s: Seq<char>) -> Option<WarpMouseToFocusMode> {
    if s == "center-xy"@ {
        Some(WarpMouseToFocusMode::CenterXy)
    } else if s == "center-xy-always"@ {
        Some(WarpMouseToFocusMode::CenterXyAlways)
    } else {
        None
    }
}

impl WarpMouseToFocusMode {
    /// Reads the name of the document; an unknown name gets an error that
    /// lists the known ones.
    pub fn from_name(s: &str) -> (r: Result<WarpMouseToFocusMode, String>)
        ensures
            r is Ok <==> warp_mouse_to_focus_mode_named(s@) is Some,
            r matches Ok(v) ==> warp_mouse_to_focus_mode_named(s@) == Some(v),
            r matches Err(m) ==> m@ == "invalid mode for warp-mouse-to-focus, can be \"center-xy\" or \"center-xy-always\" (or leave unset for separate centering)"@,
    {
        if str_eq(s, "center-xy") {
            Ok(WarpMouseToFocusMode::CenterXy)
        } else if str_eq(s, "center-xy-always") {
            Ok(WarpMouseToFocusMode::CenterXyAlways)
        } else {
            Err(String::from_str("invalid mode for warp-mouse-to-focus, can be \"center-xy\" or \"center-xy-always\" (or leave unset for separate centering)"))
        }
    }
}

/// Where a keyboard layout change applies.
#[derive(Debug, Clone, Copy, PartialEq, Eq, Structural)]
pub enum TrackLayout {
    Global,
    Window,
}

/// The TrackLayout that a name of the document stands for; names are matched exactly.
pub open spec fn track_layout_named(s: Seq<char>) -> Option<TrackLayout> {
    if s == "global"@ {
        Some(TrackLayout::Global)
    } else if s == "window"@ {
        Some(TrackLayout::Window)
    } else {
        None
    }
}

impl TrackLayout {
    /// Reads the name of the document; an unknown name gets an error that
    /// lists the known ones.
    pub fn from_name(s: &str) -> (r: Result<TrackLayout, String>)
        ensures
            r is Ok <==> track_layout_named(s@) is Some,
            r matches Ok(v) ==> track_layout_named(s@) == Some(v),
            r matches Err(m) ==> m@ == "invalid track layout, can be \"global\" or \"window\""@,
    {
        if str_eq(s, "global") {
            Ok(TrackLayout::Global)
        } else if str_eq(s, "window") {
            Ok(TrackLayout::Window)
        } else {
            Err(String::from_str("invalid track layout, can be \"global\" or \"window\""))
        }
    }

    /// The value where the document says nothing.
    pub fn default_value() -> (r: TrackLayout)
        ensures
            r == TrackLayout::Global,
    {
        TrackLayout::Global
    }
}

/// When the focused column is centered.
#[derive(Debug, Clone, Copy, PartialEq, Eq, Structural)]
pub enum CenterFocusedColumn {
    Never,
    Always,
    OnOverflow,
}

/// The CenterFocusedColumn that a name of the document stands for; names are matched exactly.
pub open spec fn center_focused_column_named(s: Seq<char>) -> Option<CenterFocusedColumn> {
    if s == "never"@ {
        Some(CenterFocusedColumn::Never)
    } else if s == "always"@ {
        Some(CenterFocusedColumn::Always)
    } else if s == "on-overflow"@ {
        Some(CenterFocusedColumn::OnOverflow)
    } else {
        None
    }
}

impl CenterFocusedColumn {
    /// Reads the name of the document; an unknown name gets an error that
    /// lists the known ones.
    pub fn from_name(s: &str) -> (r: Result<CenterFocusedColumn, String>)
        ensures
            r is Ok <==> center_focused_column_named(s@) is Some,
            r matches Ok(v) ==> center_focused_column_named(s@) == Some(v),
            r matches Err(m) ==> m@ == "invalid center-focused-column, can be \"never\", \"always\" or \"on-overflow\""@,
    {
        if str_eq(s, "never") {
            Ok(CenterFocusedColumn::Never)
        } else if str_eq(s, "always") {
            Ok(CenterFocusedColumn::Always)
        } else if str_eq(s, "on-overflow") {
            Ok(CenterFocusedColumn::OnOverflow)
        } else {
            Err(String::from_str("invalid center-focused-column, can be \"never\", \"always\" or \"on-overflow\""))
        }
    }

    /// The value where the document says nothing.
    pub fn default_value() -> (r: CenterFocusedColumn)
        ensures
            r == CenterFocusedColumn::Never,
    {
        CenterFocusedColumn::Never
    }
}

/// The Mod key that a name stands for, ignoring ASCII case. `mod5` names
/// the third shift level and `mod3` the fifth, as the X modifier numbering
/// has them.
pub open spec fn mod_key_named(s: Seq<char>) -> Option<ModKey> {
    if eq_ignore_case(s, "ctrl"@) || eq_ignore_case(s, "control"@) {
        Some(ModKey::Ctrl)
    } else if eq_ignore_case(s, "shift"@) {
        Some(ModKey::Shift)
    } else if eq_ignore_case(s, "alt"@) {
        Some(ModKey::Alt)
    } else if eq_ignore_case(s, "super"@) || eq_ignore_case(s, "win"@) {
        Some(ModKey::Super)
    } else if eq_ignore_case(s, "iso_level3_shift"@) || eq_ignore_case(s, "mod5"@) {
        Some(ModKey::IsoLevel3Shift)
    } else if eq_ignore_case(s, "iso_level5_shift"@) || eq_ignore_case(s, "mod3"@) {
        Some(ModKey::IsoLevel5Shift)
    } else {
        None
    }
}

impl ModKey {
    /// Reads a Mod key name, ignoring ASCII case; an unknown name gets an
    /// error that quotes it.
    pub fn from_name(s: &str) -> (r: Result<ModKey, String>)
        ensures
            r is Ok <==> mod_key_named(s@) is Some,
            r matches Ok(v) ==> mod_key_named(s@) == Some(v),
            r matches Err(m) ==> m@ == "invalid Mod key: "@ + s@,
    {
        if str_eq_ignore_ascii_case(s, "ctrl") || str_eq_ignore_ascii_case(s, "control") {
            Ok(ModKey::Ctrl)
        } else if str_eq_ignore_ascii_case(s, "shift") {
            Ok(ModKey::Shift)
        } else if str_eq_ignore_ascii_case(s, "alt") {
            Ok(ModKey::Alt)
        } else if str_eq_ignore_ascii_case(s, "super") || str_eq_ignore_ascii_case(s, "win") {
            Ok(ModKey::Super)
        } else if str_eq_ignore_ascii_case(s, "iso_level3_shift") || str_eq_ignore_ascii_case(
            s,
            "mod5",
        ) {
            Ok(ModKey::IsoLevel3Shift)
        } else if str_eq_ignore_ascii_case(s, "iso_level5_shift") || str_eq_ignore_ascii_case(
            s,
            "mod3",
        ) {
            Ok(ModKey::IsoLevel5Shift)
        } else {
            let mut m = String::from_str("invalid Mod key: ");
            m.append(s);
            Err(m)
        }
    }
}

/// Where the pointer is moved when focus changes; `None` centers each axis
/// on its own.
#[derive(Debug, Clone, Copy, PartialEq, Eq, Structural)]
pub struct WarpMouseToFocus {
    pub mode: Option<WarpMouseToFocusMode>,
}

/// Which screen corners start the overview when the pointer hits them.
#[derive(Debug, Clone, Copy, PartialEq, Eq, Default, Structural)]
pub struct HotCorners {
    pub off: bool,
    pub top_left: bool,
    pub top_right: bool,
    pub bottom_left: bool,
    pub bottom_right: bool,
}

} // verus!
