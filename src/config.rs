use vstd::prelude::*;

use crate::scalars::TrackLayout;

verus! {

/// A flag as a document fragment states it: `Flag(true)` turns it on.
#[derive(Debug, Clone, Copy, PartialEq, Eq, Structural)]
pub struct Flag(pub bool);

/// A flag after a fragment is merged in: a fragment can turn it on, never off.
pub open spec fn flag_merged(cur: bool, part: Option<Flag>) -> bool {
    cur || part == Some(Flag(true))
}

/// A field after a fragment is merged in: what the fragment states wins.
pub open spec fn field_merged<T>(cur: T, part: Option<T>) -> T {
    match part {
        Some(x) => x,
        None => cur,
    }
}

/// Merging a fragment never turns a flag off: only rebuilding the section
/// from its defaults does.
pub proof fn merged_flag_stays_on(cur: bool, part: Option<Flag>)
    ensures
        cur ==> flag_merged(cur, part),
        part == Some(Flag(true)) ==> flag_merged(cur, part),
        part != Some(Flag(true)) ==> flag_merged(cur, part) == cur,
{
}

/// Merges one field: what the fragment states replaces the old value.
pub fn merge_field<T>(cur: &mut T, part: Option<T>)
    ensures
        *final(cur) == field_merged(*old(cur), part),
{
    if let Some(x) = part {
        *cur = x;
    }
}

/// Merges one flag: a fragment can turn it on, never off.
pub fn merge_flag(cur: &mut bool, part: Option<Flag>)
    ensures
        *final(cur) == flag_merged(*old(cur), part),
{
    if let Some(Flag(true)) = part {
        *cur = true;
    }
}

fn copy_opt_string(s: &Option<String>) -> (r: Option<String>)
    ensures
        r == *s,
{
    match s {
        Some(x) => Some(x.clone()),
        None => None,
    }
}

fn copy_strings(v: &Vec<String>) -> (r: Vec<String>)
    ensures
        r@ == v@,
{
    let mut out: Vec<String> = Vec::new();
    let mut i: usize = 0;
    while i < v.len()
        invariant
            i <= v@.len(),
            out@ == v@.subrange(0, i as int),
        decreases v@.len() - i,
    {
        out.push(v[i].clone());
        i += 1;
        proof {
            assert(out@ =~= v@.subrange(0, i as int));
        }
    }
    proof {
        assert(v@.subrange(0, v@.len() as int) =~= v@);
    }
    out
}

/// A list of presets after a fragment is merged in: the fragment's list if
/// it states one; then, if the list is empty, the built-in `default` list.
pub open spec fn preset_list_merged<T>(cur: Seq<T>, part: Option<Seq<T>>, default: Seq<T>) -> Seq<T> {
    let m = field_merged(cur, part);
    if m.len() == 0 {
        default
    } else {
        m
    }
}

/// Replaces a list of presets with the one a fragment states, if any; a
/// list left empty reverts to the built-in `default` list.
pub fn merge_preset_list<T>(current: &mut Vec<T>, part: Option<Vec<T>>, default: Vec<T>)
    ensures
        final(current)@ == preset_list_merged(
            old(current)@,
            match part {
                Some(p) => Some(p@),
                None => None,
            },
            default@,
        ),
{
    if let Some(p) = part {
        *current = p;
    }
    if current.len() == 0 {
        *current = default;
    }
}

/// Merging a fragment that states no list leaves a non-empty list as it
/// was; merging one that states an empty list brings back the built-in
/// default list, whatever the list was.
pub proof fn preset_list_merge_laws<T>(cur: Seq<T>, default: Seq<T>)
    ensures
        cur.len() > 0 ==> preset_list_merged(cur, None, default) == cur,
        preset_list_merged(cur, Some(Seq::<T>::empty()), default) == default,
{
}

/// The keymap to build with xkbcommon.
#[derive(Debug, Clone, PartialEq, Eq)]
pub struct Xkb {
    pub rules: String,
    pub model: String,
    pub layout: String,
    pub variant: String,
    pub options: Option<String>,
    pub file: Option<String>,
}

impl Xkb {
    /// An empty keymap description: the system defaults.
    pub fn empty() -> (r: Xkb)
        ensures
            r.rules@.len() == 0 && r.model@.len() == 0 && r.layout@.len() == 0 && r.variant@.len()
                == 0,
            r.options is None && r.file is None,
    {
        Xkb {
            rules: String::new(),
            model: String::new(),
            layout: String::new(),
            variant: String::new(),
            options: None,
            file: None,
        }
    }

    pub fn copy(&self) -> (r: Xkb)
        ensures
            r == *self,
    {
        Xkb {
            rules: self.rules.clone(),
            model: self.model.clone(),
            layout: self.layout.clone(),
            variant: self.variant.clone(),
            options: copy_opt_string(&self.options),
            file: copy_opt_string(&self.file),
        }
    }
}

#[derive(Debug, PartialEq, Eq)]
pub struct Keyboard {
    pub xkb: Xkb,
    pub repeat_delay: u16,
    pub repeat_rate: u8,
    pub track_layout: TrackLayout,
    pub numlock: bool,
}

#[derive(Debug, PartialEq, Eq)]
pub struct KeyboardPart {
    pub xkb: Option<Xkb>,
    pub repeat_delay: Option<u16>,
    pub repeat_rate: Option<u8>,
    pub track_layout: Option<TrackLayout>,
    pub numlock: Option<Flag>,
}

impl Keyboard {
    /// The defaults: a 600 ms delay and 25 repeats a second.
    pub fn new() -> (r: Keyboard)
        ensures
            r.xkb.rules@.len() == 0 && r.xkb.layout@.len() == 0 && r.xkb.options is None,
            r.repeat_delay == 600,
            r.repeat_rate == 25,
            r.track_layout == TrackLayout::Global,
            !r.numlock,
    {
        Keyboard {
            xkb: Xkb::empty(),
            repeat_delay: 600,
            repeat_rate: 25,
            track_layout: TrackLayout::Global,
            numlock: false,
        }
    }

    pub fn merge_with(&mut self, part: &KeyboardPart)
        ensures
            final(self).xkb == field_merged(old(self).xkb, part.xkb),
            final(self).repeat_delay == field_merged(old(self).repeat_delay, part.repeat_delay),
            final(self).repeat_rate == field_merged(old(self).repeat_rate, part.repeat_rate),
            final(self).track_layout == field_merged(old(self).track_layout, part.track_layout),
            final(self).numlock == flag_merged(old(self).numlock, part.numlock),
    {
        if let Some(x) = &part.xkb {
            self.xkb = x.copy();
        }
        if let Some(d) = part.repeat_delay {
            self.repeat_delay = d;
        }
        if let Some(r) = part.repeat_rate {
            self.repeat_rate = r;
        }
        if let Some(t) = part.track_layout {
            self.track_layout = t;
        }
        merge_flag(&mut self.numlock, part.numlock);
    }
}

#[derive(Debug, PartialEq, Eq)]
pub struct Cursor {
    pub xcursor_theme: String,
    pub xcursor_size: u8,
    pub hide_when_typing: bool,
    pub hide_after_inactive_ms: Option<u32>,
}

#[derive(Debug, PartialEq, Eq)]
pub struct CursorPart {
    pub xcursor_theme: Option<String>,
    pub xcursor_size: Option<u8>,
    pub hide_when_typing: Option<Flag>,
    pub hide_after_inactive_ms: Option<u32>,
}

impl Cursor {
    /// The defaults: the `default` theme at size 24.
    pub fn new() -> (r: Cursor)
        ensures
            r.xcursor_theme@ == "default"@,
            r.xcursor_size == 24,
            !r.hide_when_typing,
            r.hide_after_inactive_ms is None,
    {
        Cursor {
            xcursor_theme: String::from_str("default"),
            xcursor_size: 24,
            hide_when_typing: false,
            hide_after_inactive_ms: None,
        }
    }

    pub fn merge_with(&mut self, part: &CursorPart)
        ensures
            final(self).xcursor_theme == field_merged(old(self).xcursor_theme, part.xcursor_theme),
            final(self).xcursor_size == field_merged(old(self).xcursor_size, part.xcursor_size),
            final(self).hide_when_typing == flag_merged(
                old(self).hide_when_typing,
                part.hide_when_typing,
            ),
            final(self).hide_after_inactive_ms == (match part.hide_after_inactive_ms {
                Some(x) => Some(x),
                None => old(self).hide_after_inactive_ms,
            }),
    {
        if let Some(t) = &part.xcursor_theme {
            self.xcursor_theme = t.clone();
        }
        if let Some(s) = part.xcursor_size {
            self.xcursor_size = s;
        }
        merge_flag(&mut self.hide_when_typing, part.hide_when_typing);
        if let Some(ms) = part.hide_after_inactive_ms {
            self.hide_after_inactive_ms = Some(ms);
        }
    }
}

/// Where screenshots are saved; `None` keeps them off the disk.
#[derive(Debug, Clone, PartialEq, Eq)]
pub struct ScreenshotPath(pub Option<String>);

impl ScreenshotPath {
    pub fn new() -> (r: ScreenshotPath)
        ensures
            r.0 matches Some(p) && p@ == "~/Pictures/Screenshots/Screenshot from %Y-%m-%d %H-%M-%S.png"@,
    {
        ScreenshotPath(Some(String::from_str("~/Pictures/Screenshots/Screenshot from %Y-%m-%d %H-%M-%S.png")))
    }
}

#[derive(Debug, Default, Clone, Copy, PartialEq, Eq, Structural)]
pub struct HotkeyOverlay {
    pub skip_at_startup: bool,
    pub hide_not_bound: bool,
}

#[derive(Debug, Default, Clone, Copy, PartialEq, Eq, Structural)]
pub struct HotkeyOverlayPart {
    pub skip_at_startup: Option<Flag>,
    pub hide_not_bound: Option<Flag>,
}

impl HotkeyOverlay {
    pub fn merge_with(&mut self, part: &HotkeyOverlayPart)
        ensures
            final(self).skip_at_startup == flag_merged(old(self).skip_at_startup, part.skip_at_startup),
            final(self).hide_not_bound == flag_merged(old(self).hide_not_bound, part.hide_not_bound),
    {
        merge_flag(&mut self.skip_at_startup, part.skip_at_startup);
        merge_flag(&mut self.hide_not_bound, part.hide_not_bound);
    }
}

#[derive(Debug, Default, Clone, Copy, PartialEq, Eq, Structural)]
pub struct ConfigNotification {
    pub disable_failed: bool,
}

#[derive(Debug, Default, Clone, Copy, PartialEq, Eq, Structural)]
pub struct ConfigNotificationPart {
    pub disable_failed: Option<Flag>,
}

impl ConfigNotification {
    pub fn merge_with(&mut self, part: &ConfigNotificationPart)
        ensures
            final(self).disable_failed == flag_merged(old(self).disable_failed, part.disable_failed),
    {
        merge_flag(&mut self.disable_failed, part.disable_failed);
    }
}

#[derive(Debug, Default, Clone, Copy, PartialEq, Eq, Structural)]
pub struct Clipboard {
    pub disable_primary: bool,
}

#[derive(Debug, Default, Clone, Copy, PartialEq, Eq, Structural)]
pub struct ClipboardPart {
    pub disable_primary: Option<Flag>,
}

impl Clipboard {
    pub fn merge_with(&mut self, part: &ClipboardPart)
        ensures
            final(self).disable_primary == flag_merged(old(self).disable_primary, part.disable_primary),
    {
        merge_flag(&mut self.disable_primary, part.disable_primary);
    }
}

#[derive(Debug, Clone, PartialEq, Eq)]
pub struct XwaylandSatellite {
    pub off: bool,
    pub path: String,
}

#[derive(Debug, Clone, PartialEq, Eq)]
pub struct XwaylandSatellitePart {
    pub off: bool,
    pub on: bool,
    pub path: Option<String>,
}

impl XwaylandSatellite {
    pub fn new() -> (r: XwaylandSatellite)
        ensures
            !r.off,
            r.path@ == "xwayland-satellite"@,
    {
        XwaylandSatellite { off: false, path: String::from_str("xwayland-satellite") }
    }

    /// `off` in a fragment turns it off and `on` back on, `on` winning.
    pub fn merge_with(&mut self, part: &XwaylandSatellitePart)
        ensures
            final(self).off == ((old(self).off || part.off) && !part.on),
            final(self).path == field_merged(old(self).path, part.path),
    {
        self.off = self.off || part.off;
        if part.on {
            self.off = false;
        }
        if let Some(p) = &part.path {
            self.path = p.clone();
        }
    }
}

/// A command to run when a switch changes.
#[derive(Debug, Clone, PartialEq, Eq)]
pub struct SwitchAction {
    pub spawn: Vec<String>,
}

impl SwitchAction {
    pub fn copy(&self) -> (r: SwitchAction)
        ensures
            r.spawn@ == self.spawn@,
    {
        SwitchAction { spawn: copy_strings(&self.spawn) }
    }
}

/// The commands run when the lid or the tablet mode switch changes.
#[derive(Debug, Default, Clone, PartialEq, Eq)]
pub struct SwitchBinds {
    pub lid_open: Option<SwitchAction>,
    pub lid_close: Option<SwitchAction>,
    pub tablet_mode_on: Option<SwitchAction>,
    pub tablet_mode_off: Option<SwitchAction>,
}

pub open spec fn switch_merged(cur: Option<SwitchAction>, part: Option<SwitchAction>) -> Option<
    Seq<String>,
> {
    match part {
        Some(p) => Some(p.spawn@),
        None => match cur {
            Some(c) => Some(c.spawn@),
            None => None,
        },
    }
}

pub open spec fn switch_view(a: Option<SwitchAction>) -> Option<Seq<String>> {
    match a {
        Some(c) => Some(c.spawn@),
        None => None,
    }
}

fn merge_switch(cur: &mut Option<SwitchAction>, part: &Option<SwitchAction>)
    ensures
        switch_view(*final(cur)) == switch_merged(*old(cur), *part),
{
    if let Some(p) = part {
        *cur = Some(p.copy());
    }
}

impl SwitchBinds {
    pub fn merge_with(&mut self, part: &SwitchBinds)
        ensures
            switch_view(final(self).lid_open) == switch_merged(old(self).lid_open, part.lid_open),
            switch_view(final(self).lid_close) == switch_merged(old(self).lid_close, part.lid_close),
            switch_view(final(self).tablet_mode_on) == switch_merged(
                old(self).tablet_mode_on,
                part.tablet_mode_on,
            ),
            switch_view(final(self).tablet_mode_off) == switch_merged(
                old(self).tablet_mode_off,
                part.tablet_mode_off,
            ),
    {
        merge_switch(&mut self.lid_open, &part.lid_open);
        merge_switch(&mut self.lid_close, &part.lid_close);
        merge_switch(&mut self.tablet_mode_on, &part.tablet_mode_on);
        merge_switch(&mut self.tablet_mode_off, &part.tablet_mode_off);
    }
}

/// A command to run at startup, as its arguments.
#[derive(Debug, Clone, PartialEq, Eq)]
pub struct SpawnAtStartup {
    pub command: Vec<String>,
}

/// A shell command to run at startup.
#[derive(Debug, Clone, PartialEq, Eq)]
pub struct SpawnShAtStartup {
    pub command: String,
}

/// An environment variable to set, or with `None` to unset, for spawned
/// processes.
#[derive(Debug, Clone, PartialEq, Eq)]
pub struct EnvironmentVariable {
    pub name: String,
    pub value: Option<String>,
}

#[derive(Debug, Default, Clone, PartialEq, Eq)]
pub struct Environment(pub Vec<EnvironmentVariable>);

} // verus!
