use vstd::prelude::*;

use crate::config::{
    ClipboardPart, ConfigNotificationPart, CursorPart, Environment, EnvironmentVariable, Flag,
    HotkeyOverlayPart, KeyboardPart, ScreenshotPath, SpawnAtStartup, SpawnShAtStartup,
    SwitchAction, SwitchBinds, XwaylandSatellitePart, Xkb,
};
use crate::layer_rule::Match as LayerMatch;
use crate::action::{
    decode_opt_str, decode_str, decode_strings, opt_str_fits, opt_str_ok, str_fits, str_ok,
    strings_fit, strings_ok,
};
use crate::node::{
    find_prop, is_bare, last_prop, lemma_last_prop_in_range, one_argument, props_within, str_of,
    DecodeError, Node, Value,
};
use crate::scalars::{
    track_layout_named, warp_mouse_to_focus_mode_named, HotCorners, TrackLayout, WarpMouseToFocus,
    WarpMouseToFocusMode,
};
use crate::window_rule::{regex_find, regex_search, Match as WindowMatch, RegexEq};
use crate::text::str_eq;

verus! {

/// The index of the last child with this name.
pub open spec fn last_child(cs: Seq<Node>, name: Seq<char>) -> Option<int>
    decreases cs.len(),
{
    if cs.len() == 0 {
        None
    } else if cs.last().name@ == name {
        Some(cs.len() - 1)
    } else {
        last_child(cs.drop_last(), name)
    }
}

/// No two children share a name.
pub open spec fn names_distinct(cs: Seq<Node>) -> bool {
    forall|i: int, j: int|
        #![trigger cs[i], cs[j]]
        0 <= i < j < cs.len() ==> cs[i].name@ != cs[j].name@
}

/// Every child has one of the allowed names.
pub open spec fn names_known(cs: Seq<Node>, allowed: Seq<Seq<char>>) -> bool {
    forall|i: int| 0 <= i < cs.len() ==> allowed.contains(#[trigger] cs[i].name@)
}

/// A section node: no arguments or properties, and children of known names,
/// each at most once.
pub open spec fn section_ok(n: Node, allowed: Seq<Seq<char>>) -> bool {
    n.arguments@.len() == 0 && n.properties@.len() == 0 && names_known(n.children@, allowed)
        && names_distinct(n.children@)
}

pub open spec fn views(v: Seq<&str>) -> Seq<Seq<char>> {
    v.map_values(|a: &str| a@)
}

/// A flag node: bare means on, or one boolean argument.
pub open spec fn flag_value(c: Node) -> Option<bool> {
    if c.properties@.len() != 0 || c.children@.len() != 0 {
        None
    } else if c.arguments@.len() == 0 {
        Some(true)
    } else if c.arguments@.len() == 1 {
        match c.arguments@[0] {
            Value::Bool(b) => Some(b),
            _ => None,
        }
    } else {
        None
    }
}

/// A node with one integer argument in `0..=max` and nothing else.
pub open spec fn int_value(c: Node, max: int) -> Option<int> {
    if one_argument(c) && c.properties@.len() == 0 {
        match c.arguments@[0] {
            Value::Int(v) => if 0 <= v <= max {
                Some(v as int)
            } else {
                None
            },
            _ => None,
        }
    } else {
        None
    }
}

/// A node with one string argument and nothing else.
pub open spec fn string_value(c: Node) -> Option<Seq<char>> {
    if one_argument(c) && c.properties@.len() == 0 {
        str_of(c.arguments@[0])
    } else {
        None
    }
}

/// An optional child read by `value`: absent is fine; present, it must read.
pub open spec fn child_int_ok(n: Node, name: Seq<char>, max: int) -> bool {
    match last_child(n.children@, name) {
        None => true,
        Some(i) => int_value(n.children@[i], max) is Some,
    }
}

pub open spec fn child_int(n: Node, name: Seq<char>, max: int) -> Option<int> {
    match last_child(n.children@, name) {
        None => None,
        Some(i) => int_value(n.children@[i], max),
    }
}

pub open spec fn child_string_ok(n: Node, name: Seq<char>) -> bool {
    match last_child(n.children@, name) {
        None => true,
        Some(i) => string_value(n.children@[i]) is Some,
    }
}

pub open spec fn child_string(n: Node, name: Seq<char>) -> Option<Seq<char>> {
    match last_child(n.children@, name) {
        None => None,
        Some(i) => string_value(n.children@[i]),
    }
}

pub open spec fn child_flag_ok(n: Node, name: Seq<char>) -> bool {
    match last_child(n.children@, name) {
        None => true,
        Some(i) => flag_value(n.children@[i]) is Some,
    }
}

pub open spec fn child_flag(n: Node, name: Seq<char>) -> Option<Flag> {
    match last_child(n.children@, name) {
        None => None,
        Some(i) => match flag_value(n.children@[i]) {
            Some(b) => Some(Flag(b)),
            None => None,
        },
    }
}

/// A child whose presence is the value; it must be bare.
pub open spec fn child_present_ok(n: Node, name: Seq<char>) -> bool {
    match last_child(n.children@, name) {
        None => true,
        Some(i) => is_bare(n.children@[i]),
    }
}

pub open spec fn child_present(n: Node, name: Seq<char>) -> bool {
    last_child(n.children@, name) is Some
}

pub open spec fn opt_view(s: Option<String>) -> Option<Seq<char>> {
    match s {
        Some(x) => Some(x@),
        None => None,
    }
}

pub proof fn lemma_last_child_in_range(cs: Seq<Node>, name: Seq<char>)
    ensures
        last_child(cs, name) matches Some(i) ==> 0 <= i < cs.len() && cs[i].name@ == name,
    decreases cs.len(),
{
    if cs.len() > 0 {
        lemma_last_child_in_range(cs.drop_last(), name);
    }
}

/// Finds the last child with this name.
pub fn find_child(n: &Node, name: &str) -> (r: Option<usize>)
    ensures
        r matches Some(i) ==> last_child(n.children@, name@) == Some(i as int),
        r is None ==> last_child(n.children@, name@) is None,
{
    let mut i: usize = n.children.len();
    proof {
        assert(n.children@.subrange(0, i as int) =~= n.children@);
    }
    while i > 0
        invariant
            i <= n.children@.len(),
            last_child(n.children@, name@) == last_child(n.children@.subrange(0, i as int), name@),
        decreases i,
    {
        let ghost pre = n.children@.subrange(0, i as int);
        if str_eq(n.children[i - 1].name.as_str(), name) {
            return Some(i - 1);
        }
        proof {
            assert(pre.drop_last() =~= n.children@.subrange(0, i - 1));
        }
        i -= 1;
    }
    None
}

fn is_allowed(name: &str, allowed: &Vec<&str>) -> (r: bool)
    ensures
        r == views(allowed@).contains(name@),
{
    let mut k: usize = 0;
    while k < allowed.len()
        invariant
            k <= allowed@.len(),
            forall|j: int| 0 <= j < k ==> allowed@[j]@ != name@,
        decreases allowed@.len() - k,
    {
        if str_eq(allowed[k], name) {
            proof {
                assert(views(allowed@)[k as int] == name@);
            }
            return true;
        }
        k += 1;
    }
    proof {
        if views(allowed@).contains(name@) {
            let j = choose|j: int| 0 <= j < views(allowed@).len() && views(allowed@)[j] == name@;
            assert(allowed@[j]@ == name@);
        }
    }
    false
}

/// Checks the shape of a section node: no arguments or properties, and
/// children with allowed names, each at most once.
pub fn check_section(n: &Node, allowed: &Vec<&str>) -> (r: Result<(), DecodeError>)
    ensures
        r is Ok <==> section_ok(*n, views(allowed@)),
{
    if n.arguments.len() > 0 {
        return Err(DecodeError::UnexpectedArgument);
    }
    if n.properties.len() > 0 {
        return Err(DecodeError::UnexpectedProperty(n.properties[0].name.clone()));
    }
    let ghost cs = n.children@;
    let mut i: usize = 0;
    while i < n.children.len()
        invariant
            cs == n.children@,
            i <= cs.len(),
            forall|k: int| 0 <= k < i ==> views(allowed@).contains(#[trigger] cs[k].name@),
            forall|a: int, b: int| #![trigger cs[a], cs[b]] 0 <= a < b < i ==> cs[a].name@ != cs[b].name@,
        decreases cs.len() - i,
    {
        let name = n.children[i].name.as_str();
        if !is_allowed(name, allowed) {
            return Err(DecodeError::UnknownNode(n.children[i].name.clone()));
        }
        let mut j: usize = 0;
        while j < i
            invariant
                cs == n.children@,
                j <= i < cs.len(),
                name@ == cs[i as int].name@,
                forall|a: int| 0 <= a < j ==> #[trigger] cs[a].name@ != cs[i as int].name@,
            decreases i - j,
        {
            if str_eq(n.children[j].name.as_str(), name) {
                proof {
                    assert(cs[j as int].name@ == cs[i as int].name@);
                }
                return Err(DecodeError::DuplicateNode(n.children[i].name.clone()));
            }
            j += 1;
        }
        proof {
            assert forall|a: int, b: int| #![trigger cs[a], cs[b]] 0 <= a < b < i + 1 implies cs[a].name@
                != cs[b].name@ by {
                if b == i {
                    assert(cs[a].name@ != cs[i as int].name@);
                }
            }
        }
        i += 1;
    }
    Ok(())
}

fn read_flag(c: &Node) -> (r: Result<bool, DecodeError>)
    ensures
        r is Ok <==> flag_value(*c) is Some,
        r matches Ok(b) ==> flag_value(*c) == Some(b),
{
    if c.properties.len() > 0 {
        Err(DecodeError::UnexpectedProperty(c.properties[0].name.clone()))
    } else if c.children.len() > 0 {
        Err(DecodeError::UnexpectedChild)
    } else if c.arguments.len() == 0 {
        Ok(true)
    } else if c.arguments.len() > 1 {
        Err(DecodeError::UnexpectedArgument)
    } else {
        match &c.arguments[0] {
            Value::Bool(b) => Ok(*b),
            _ => Err(DecodeError::InvalidValue),
        }
    }
}

fn read_int(c: &Node, max: u64) -> (r: Result<u64, DecodeError>)
    ensures
        r is Ok <==> int_value(*c, max as int) is Some,
        r matches Ok(v) ==> int_value(*c, max as int) == Some(v as int) && v <= max,
{
    if c.arguments.len() != 1 || c.children.len() != 0 || c.properties.len() != 0 {
        return Err(DecodeError::InvalidValue);
    }
    match &c.arguments[0] {
        Value::Int(v) => {
            if 0 <= *v && *v <= max as i128 {
                Ok(*v as u64)
            } else {
                Err(DecodeError::InvalidValue)
            }
        },
        _ => Err(DecodeError::InvalidValue),
    }
}

fn read_string(c: &Node) -> (r: Result<String, DecodeError>)
    ensures
        r is Ok <==> string_value(*c) is Some,
        r matches Ok(s) ==> string_value(*c) == Some(s@),
{
    if c.arguments.len() != 1 || c.children.len() != 0 || c.properties.len() != 0 {
        return Err(DecodeError::InvalidValue);
    }
    match &c.arguments[0] {
        Value::Str(s) => Ok(s.clone()),
        _ => Err(DecodeError::InvalidValue),
    }
}

fn child_int_of(n: &Node, name: &str, max: u64) -> (r: Result<Option<u64>, DecodeError>)
    ensures
        r is Ok <==> child_int_ok(*n, name@, max as int),
        r matches Ok(v) ==> child_int(*n, name@, max as int) == (match v {
            Some(x) => Some(x as int),
            None => None::<int>,
        }) && (v matches Some(x) ==> x <= max),
{
    proof {
        lemma_last_child_in_range(n.children@, name@);
    }
    match find_child(n, name) {
        None => Ok(None),
        Some(i) => match read_int(&n.children[i], max) {
            Ok(v) => Ok(Some(v)),
            Err(e) => Err(e),
        },
    }
}

fn child_string_of(n: &Node, name: &str) -> (r: Result<Option<String>, DecodeError>)
    ensures
        r is Ok <==> child_string_ok(*n, name@),
        r matches Ok(v) ==> child_string(*n, name@) == opt_view(v),
{
    proof {
        lemma_last_child_in_range(n.children@, name@);
    }
    match find_child(n, name) {
        None => Ok(None),
        Some(i) => match read_string(&n.children[i]) {
            Ok(s) => Ok(Some(s)),
            Err(e) => Err(e),
        },
    }
}

fn child_flag_of(n: &Node, name: &str) -> (r: Result<Option<Flag>, DecodeError>)
    ensures
        r is Ok <==> child_flag_ok(*n, name@),
        r matches Ok(v) ==> child_flag(*n, name@) == v,
{
    proof {
        lemma_last_child_in_range(n.children@, name@);
    }
    match find_child(n, name) {
        None => Ok(None),
        Some(i) => match read_flag(&n.children[i]) {
            Ok(b) => Ok(Some(Flag(b))),
            Err(e) => Err(e),
        },
    }
}

fn child_present_of(n: &Node, name: &str) -> (r: Result<bool, DecodeError>)
    ensures
        r is Ok <==> child_present_ok(*n, name@),
        r matches Ok(b) ==> b == child_present(*n, name@),
{
    proof {
        lemma_last_child_in_range(n.children@, name@);
    }
    match find_child(n, name) {
        None => Ok(false),
        Some(i) => {
            let c = &n.children[i];
            if c.arguments.len() == 0 && c.properties.len() == 0 && c.children.len() == 0 {
                Ok(true)
            } else {
                Err(DecodeError::InvalidValue)
            }
        },
    }
}


/// A string, or the empty string where there is none.
pub open spec fn or_empty(o: Option<Seq<char>>) -> Seq<char> {
    match o {
        Some(s) => s,
        None => Seq::<char>::empty(),
    }
}

fn string_or_empty(v: Option<String>) -> (r: String)
    ensures
        r@ == or_empty(opt_view(v)),
{
    match v {
        Some(s) => s,
        None => String::new(),
    }
}

/// The `spawn` child of a switch node: a command with its arguments.
pub open spec fn switch_action_ok(c: Node) -> bool {
    section_ok(c, seq!["spawn"@]) && match last_child(c.children@, "spawn"@) {
        Some(i) => strings_ok(c.children@[i]),
        None => false,
    }
}

pub open spec fn switch_action_fits(c: Node, a: SwitchAction) -> bool {
    switch_action_ok(c) && match last_child(c.children@, "spawn"@) {
        Some(i) => strings_fit(c.children@[i], a.spawn@),
        None => false,
    }
}

/// Reads a switch node such as `lid-close { spawn "cmd" "arg"; }`.
pub fn decode_switch_action(c: &Node) -> (r: Result<SwitchAction, DecodeError>)
    ensures
        r is Ok <==> switch_action_ok(*c),
        r matches Ok(a) ==> switch_action_fits(*c, a),
{
    let allowed = vec!["spawn"];
    proof {
        assert(views(allowed@) =~= seq!["spawn"@]);
        lemma_last_child_in_range(c.children@, "spawn"@);
    }
    match check_section(c, &allowed) {
        Err(e) => {
            return Err(e);
        },
        Ok(()) => {},
    }
    match find_child(c, "spawn") {
        None => Err(DecodeError::MissingArgument),
        Some(i) => match decode_strings(&c.children[i]) {
            Ok(v) => Ok(SwitchAction { spawn: v }),
            Err(e) => Err(e),
        },
    }
}

/// The `xkb` section of `keyboard`; unset strings are empty is well formed.
pub open spec fn xkb_ok(n: Node) -> bool {
    &&& section_ok(n, seq!["rules"@, "model"@, "layout"@, "variant"@, "options"@, "file"@])
    &&& child_string_ok(n, "rules"@)
    &&& child_string_ok(n, "model"@)
    &&& child_string_ok(n, "layout"@)
    &&& child_string_ok(n, "variant"@)
    &&& child_string_ok(n, "options"@)
    &&& child_string_ok(n, "file"@)
}

/// `p` is what the section node `n` states.
pub open spec fn xkb_fits(n: Node, p: Xkb) -> bool {
    &&& xkb_ok(n)
    &&& p.rules@ == or_empty(child_string(n, "rules"@))
    &&& p.model@ == or_empty(child_string(n, "model"@))
    &&& p.layout@ == or_empty(child_string(n, "layout"@))
    &&& p.variant@ == or_empty(child_string(n, "variant"@))
    &&& opt_view(p.options) == child_string(n, "options"@)
    &&& opt_view(p.file) == child_string(n, "file"@)
}

/// Reads the `xkb` section of `keyboard`; unset strings are empty: each field from the child node of its name.
pub fn decode_xkb(n: &Node) -> (r: Result<Xkb, DecodeError>)
    ensures
        r is Ok <==> xkb_ok(*n),
        r matches Ok(p) ==> xkb_fits(*n, p),
{
    let allowed = vec!["rules", "model", "layout", "variant", "options", "file"];
    proof {
        assert(views(allowed@) =~= seq!["rules"@, "model"@, "layout"@, "variant"@, "options"@, "file"@]);
    }
    match check_section(n, &allowed) {
        Err(e) => {
            return Err(e);
        },
        Ok(()) => {},
    }
    let rules = match child_string_of(n, "rules") {
        Err(e) => {
            return Err(e);
        },
        Ok(v) => string_or_empty(v),
    };
    let model = match child_string_of(n, "model") {
        Err(e) => {
            return Err(e);
        },
        Ok(v) => string_or_empty(v),
    };
    let layout = match child_string_of(n, "layout") {
        Err(e) => {
            return Err(e);
        },
        Ok(v) => string_or_empty(v),
    };
    let variant = match child_string_of(n, "variant") {
        Err(e) => {
            return Err(e);
        },
        Ok(v) => string_or_empty(v),
    };
    let options = match child_string_of(n, "options") {
        Err(e) => {
            return Err(e);
        },
        Ok(v) => v,
    };
    let file = match child_string_of(n, "file") {
        Err(e) => {
            return Err(e);
        },
        Ok(v) => v,
    };
    Ok(Xkb { rules, model, layout, variant, options, file })
}

/// The `keyboard` section is well formed.
pub open spec fn keyboard_part_ok(n: Node) -> bool {
    &&& section_ok(n, seq!["xkb"@, "repeat-delay"@, "repeat-rate"@, "track-layout"@, "numlock"@])
    &&& match last_child(n.children@, "xkb"@) {
        None => true,
        Some(i) => xkb_ok(n.children@[i]),
    }
    &&& child_int_ok(n, "repeat-delay"@, 65535)
    &&& child_int_ok(n, "repeat-rate"@, 255)
    &&& child_string_ok(n, "track-layout"@) && match child_string(n, "track-layout"@) {
        Some(s) => track_layout_named(s) is Some,
        None => true,
    }
    &&& child_flag_ok(n, "numlock"@)
}

/// `p` is what the section node `n` states.
pub open spec fn keyboard_part_fits(n: Node, p: KeyboardPart) -> bool {
    &&& keyboard_part_ok(n)
    &&& match last_child(n.children@, "xkb"@) {
        None => p.xkb is None,
        Some(i) => p.xkb matches Some(x) && xkb_fits(n.children@[i], x),
    }
    &&& child_int(n, "repeat-delay"@, 65535) == match p.repeat_delay {
        Some(x) => Some(x as int),
        None => None::<int>,
    }
    &&& child_int(n, "repeat-rate"@, 255) == match p.repeat_rate {
        Some(x) => Some(x as int),
        None => None::<int>,
    }
    &&& match child_string(n, "track-layout"@) {
        Some(s) => p.track_layout == track_layout_named(s),
        None => p.track_layout is None,
    }
    &&& p.numlock == child_flag(n, "numlock"@)
}

/// Reads the `keyboard` section: each field from the child node of its name.
pub fn decode_keyboard_part(n: &Node) -> (r: Result<KeyboardPart, DecodeError>)
    ensures
        r is Ok <==> keyboard_part_ok(*n),
        r matches Ok(p) ==> keyboard_part_fits(*n, p),
{
    let allowed = vec!["xkb", "repeat-delay", "repeat-rate", "track-layout", "numlock"];
    proof {
        assert(views(allowed@) =~= seq!["xkb"@, "repeat-delay"@, "repeat-rate"@, "track-layout"@, "numlock"@]);
    }
    match check_section(n, &allowed) {
        Err(e) => {
            return Err(e);
        },
        Ok(()) => {},
    }
    proof {
        lemma_last_child_in_range(n.children@, "xkb"@);
    }
    let xkb = match find_child(n, "xkb") {
        None => None,
        Some(i) => match decode_xkb(&n.children[i]) {
            Err(e) => {
                return Err(e);
            },
            Ok(v) => Some(v),
        },
    };
    let repeat_delay: Option<u16> = match child_int_of(n, "repeat-delay", 65535) {
        Err(e) => {
            return Err(e);
        },
        Ok(Some(v)) => Some(v as u16),
        Ok(None) => None,
    };
    let repeat_rate: Option<u8> = match child_int_of(n, "repeat-rate", 255) {
        Err(e) => {
            return Err(e);
        },
        Ok(Some(v)) => Some(v as u8),
        Ok(None) => None,
    };
    let track_layout = match child_string_of(n, "track-layout") {
        Err(e) => {
            return Err(e);
        },
        Ok(None) => None,
        Ok(Some(s)) => match TrackLayout::from_name(s.as_str()) {
            Err(_) => {
                return Err(DecodeError::InvalidValue);
            },
            Ok(t) => Some(t),
        },
    };
    let numlock = match child_flag_of(n, "numlock") {
        Err(e) => {
            return Err(e);
        },
        Ok(v) => v,
    };
    Ok(KeyboardPart { xkb, repeat_delay, repeat_rate, track_layout, numlock })
}

/// The `cursor` section is well formed.
pub open spec fn cursor_part_ok(n: Node) -> bool {
    &&& section_ok(n, seq!["xcursor-theme"@, "xcursor-size"@, "hide-when-typing"@, "hide-after-inactive-ms"@])
    &&& child_string_ok(n, "xcursor-theme"@)
    &&& child_int_ok(n, "xcursor-size"@, 255)
    &&& child_flag_ok(n, "hide-when-typing"@)
    &&& child_int_ok(n, "hide-after-inactive-ms"@, 4294967295)
}

/// `p` is what the section node `n` states.
pub open spec fn cursor_part_fits(n: Node, p: CursorPart) -> bool {
    &&& cursor_part_ok(n)
    &&& opt_view(p.xcursor_theme) == child_string(n, "xcursor-theme"@)
    &&& child_int(n, "xcursor-size"@, 255) == match p.xcursor_size {
        Some(x) => Some(x as int),
        None => None::<int>,
    }
    &&& p.hide_when_typing == child_flag(n, "hide-when-typing"@)
    &&& child_int(n, "hide-after-inactive-ms"@, 4294967295) == match p.hide_after_inactive_ms {
        Some(x) => Some(x as int),
        None => None::<int>,
    }
}

/// Reads the `cursor` section: each field from the child node of its name.
pub fn decode_cursor_part(n: &Node) -> (r: Result<CursorPart, DecodeError>)
    ensures
        r is Ok <==> cursor_part_ok(*n),
        r matches Ok(p) ==> cursor_part_fits(*n, p),
{
    let allowed = vec!["xcursor-theme", "xcursor-size", "hide-when-typing", "hide-after-inactive-ms"];
    proof {
        assert(views(allowed@) =~= seq!["xcursor-theme"@, "xcursor-size"@, "hide-when-typing"@, "hide-after-inactive-ms"@]);
    }
    match check_section(n, &allowed) {
        Err(e) => {
            return Err(e);
        },
        Ok(()) => {},
    }
    let xcursor_theme = match child_string_of(n, "xcursor-theme") {
        Err(e) => {
            return Err(e);
        },
        Ok(v) => v,
    };
    let xcursor_size: Option<u8> = match child_int_of(n, "xcursor-size", 255) {
        Err(e) => {
            return Err(e);
        },
        Ok(Some(v)) => Some(v as u8),
        Ok(None) => None,
    };
    let hide_when_typing = match child_flag_of(n, "hide-when-typing") {
        Err(e) => {
            return Err(e);
        },
        Ok(v) => v,
    };
    let hide_after_inactive_ms: Option<u32> = match child_int_of(n, "hide-after-inactive-ms", 4294967295) {
        Err(e) => {
            return Err(e);
        },
        Ok(Some(v)) => Some(v as u32),
        Ok(None) => None,
    };
    Ok(CursorPart { xcursor_theme, xcursor_size, hide_when_typing, hide_after_inactive_ms })
}

/// The `hotkey-overlay` section is well formed.
pub open spec fn hotkey_overlay_part_ok(n: Node) -> bool {
    &&& section_ok(n, seq!["skip-at-startup"@, "hide-not-bound"@])
    &&& child_flag_ok(n, "skip-at-startup"@)
    &&& child_flag_ok(n, "hide-not-bound"@)
}

/// `p` is what the section node `n` states.
pub open spec fn hotkey_overlay_part_fits(n: Node, p: HotkeyOverlayPart) -> bool {
    &&& hotkey_overlay_part_ok(n)
    &&& p.skip_at_startup == child_flag(n, "skip-at-startup"@)
    &&& p.hide_not_bound == child_flag(n, "hide-not-bound"@)
}

/// Reads the `hotkey-overlay` section: each field from the child node of its name.
pub fn decode_hotkey_overlay_part(n: &Node) -> (r: Result<HotkeyOverlayPart, DecodeError>)
    ensures
        r is Ok <==> hotkey_overlay_part_ok(*n),
        r matches Ok(p) ==> hotkey_overlay_part_fits(*n, p),
{
    let allowed = vec!["skip-at-startup", "hide-not-bound"];
    proof {
        assert(views(allowed@) =~= seq!["skip-at-startup"@, "hide-not-bound"@]);
    }
    match check_section(n, &allowed) {
        Err(e) => {
            return Err(e);
        },
        Ok(()) => {},
    }
    let skip_at_startup = match child_flag_of(n, "skip-at-startup") {
        Err(e) => {
            return Err(e);
        },
        Ok(v) => v,
    };
    let hide_not_bound = match child_flag_of(n, "hide-not-bound") {
        Err(e) => {
            return Err(e);
        },
        Ok(v) => v,
    };
    Ok(HotkeyOverlayPart { skip_at_startup, hide_not_bound })
}

/// The `config-notification` section is well formed.
pub open spec fn config_notification_part_ok(n: Node) -> bool {
    &&& section_ok(n, seq!["disable-failed"@])
    &&& child_flag_ok(n, "disable-failed"@)
}

/// `p` is what the section node `n` states.
pub open spec fn config_notification_part_fits(n: Node, p: ConfigNotificationPart) -> bool {
    &&& config_notification_part_ok(n)
    &&& p.disable_failed == child_flag(n, "disable-failed"@)
}

/// Reads the `config-notification` section: each field from the child node of its name.
pub fn decode_config_notification_part(n: &Node) -> (r: Result<ConfigNotificationPart, DecodeError>)
    ensures
        r is Ok <==> config_notification_part_ok(*n),
        r matches Ok(p) ==> config_notification_part_fits(*n, p),
{
    let allowed = vec!["disable-failed"];
    proof {
        assert(views(allowed@) =~= seq!["disable-failed"@]);
    }
    match check_section(n, &allowed) {
        Err(e) => {
            return Err(e);
        },
        Ok(()) => {},
    }
    let disable_failed = match child_flag_of(n, "disable-failed") {
        Err(e) => {
            return Err(e);
        },
        Ok(v) => v,
    };
    Ok(ConfigNotificationPart { disable_failed })
}

/// The `clipboard` section is well formed.
pub open spec fn clipboard_part_ok(n: Node) -> bool {
    &&& section_ok(n, seq!["disable-primary"@])
    &&& child_flag_ok(n, "disable-primary"@)
}

/// `p` is what the section node `n` states.
pub open spec fn clipboard_part_fits(n: Node, p: ClipboardPart) -> bool {
    &&& clipboard_part_ok(n)
    &&& p.disable_primary == child_flag(n, "disable-primary"@)
}

/// Reads the `clipboard` section: each field from the child node of its name.
pub fn decode_clipboard_part(n: &Node) -> (r: Result<ClipboardPart, DecodeError>)
    ensures
        r is Ok <==> clipboard_part_ok(*n),
        r matches Ok(p) ==> clipboard_part_fits(*n, p),
{
    let allowed = vec!["disable-primary"];
    proof {
        assert(views(allowed@) =~= seq!["disable-primary"@]);
    }
    match check_section(n, &allowed) {
        Err(e) => {
            return Err(e);
        },
        Ok(()) => {},
    }
    let disable_primary = match child_flag_of(n, "disable-primary") {
        Err(e) => {
            return Err(e);
        },
        Ok(v) => v,
    };
    Ok(ClipboardPart { disable_primary })
}

/// The `xwayland-satellite` section is well formed.
pub open spec fn xwayland_satellite_part_ok(n: Node) -> bool {
    &&& section_ok(n, seq!["off"@, "on"@, "path"@])
    &&& child_present_ok(n, "off"@)
    &&& child_present_ok(n, "on"@)
    &&& child_string_ok(n, "path"@)
}

/// `p` is what the section node `n` states.
pub open spec fn xwayland_satellite_part_fits(n: Node, p: XwaylandSatellitePart) -> bool {
    &&& xwayland_satellite_part_ok(n)
    &&& p.off == child_present(n, "off"@)
    &&& p.on == child_present(n, "on"@)
    &&& opt_view(p.path) == child_string(n, "path"@)
}

/// Reads the `xwayland-satellite` section: each field from the child node of its name.
pub fn decode_xwayland_satellite_part(n: &Node) -> (r: Result<XwaylandSatellitePart, DecodeError>)
    ensures
        r is Ok <==> xwayland_satellite_part_ok(*n),
        r matches Ok(p) ==> xwayland_satellite_part_fits(*n, p),
{
    let allowed = vec!["off", "on", "path"];
    proof {
        assert(views(allowed@) =~= seq!["off"@, "on"@, "path"@]);
    }
    match check_section(n, &allowed) {
        Err(e) => {
            return Err(e);
        },
        Ok(()) => {},
    }
    let off = match child_present_of(n, "off") {
        Err(e) => {
            return Err(e);
        },
        Ok(v) => v,
    };
    let on = match child_present_of(n, "on") {
        Err(e) => {
            return Err(e);
        },
        Ok(v) => v,
    };
    let path = match child_string_of(n, "path") {
        Err(e) => {
            return Err(e);
        },
        Ok(v) => v,
    };
    Ok(XwaylandSatellitePart { off, on, path })
}

/// The `hot-corners` section is well formed.
pub open spec fn hot_corners_ok(n: Node) -> bool {
    &&& section_ok(n, seq!["off"@, "top-left"@, "top-right"@, "bottom-left"@, "bottom-right"@])
    &&& child_present_ok(n, "off"@)
    &&& child_present_ok(n, "top-left"@)
    &&& child_present_ok(n, "top-right"@)
    &&& child_present_ok(n, "bottom-left"@)
    &&& child_present_ok(n, "bottom-right"@)
}

/// `p` is what the section node `n` states.
pub open spec fn hot_corners_fits(n: Node, p: HotCorners) -> bool {
    &&& hot_corners_ok(n)
    &&& p.off == child_present(n, "off"@)
    &&& p.top_left == child_present(n, "top-left"@)
    &&& p.top_right == child_present(n, "top-right"@)
    &&& p.bottom_left == child_present(n, "bottom-left"@)
    &&& p.bottom_right == child_present(n, "bottom-right"@)
}

/// Reads the `hot-corners` section: each field from the child node of its name.
pub fn decode_hot_corners(n: &Node) -> (r: Result<HotCorners, DecodeError>)
    ensures
        r is Ok <==> hot_corners_ok(*n),
        r matches Ok(p) ==> hot_corners_fits(*n, p),
{
    let allowed = vec!["off", "top-left", "top-right", "bottom-left", "bottom-right"];
    proof {
        assert(views(allowed@) =~= seq!["off"@, "top-left"@, "top-right"@, "bottom-left"@, "bottom-right"@]);
    }
    match check_section(n, &allowed) {
        Err(e) => {
            return Err(e);
        },
        Ok(()) => {},
    }
    let off = match child_present_of(n, "off") {
        Err(e) => {
            return Err(e);
        },
        Ok(v) => v,
    };
    let top_left = match child_present_of(n, "top-left") {
        Err(e) => {
            return Err(e);
        },
        Ok(v) => v,
    };
    let top_right = match child_present_of(n, "top-right") {
        Err(e) => {
            return Err(e);
        },
        Ok(v) => v,
    };
    let bottom_left = match child_present_of(n, "bottom-left") {
        Err(e) => {
            return Err(e);
        },
        Ok(v) => v,
    };
    let bottom_right = match child_present_of(n, "bottom-right") {
        Err(e) => {
            return Err(e);
        },
        Ok(v) => v,
    };
    Ok(HotCorners { off, top_left, top_right, bottom_left, bottom_right })
}

/// The `switch-events` section is well formed.
pub open spec fn switch_binds_ok(n: Node) -> bool {
    &&& section_ok(n, seq!["lid-open"@, "lid-close"@, "tablet-mode-on"@, "tablet-mode-off"@])
    &&& match last_child(n.children@, "lid-open"@) {
        None => true,
        Some(i) => switch_action_ok(n.children@[i]),
    }
    &&& match last_child(n.children@, "lid-close"@) {
        None => true,
        Some(i) => switch_action_ok(n.children@[i]),
    }
    &&& match last_child(n.children@, "tablet-mode-on"@) {
        None => true,
        Some(i) => switch_action_ok(n.children@[i]),
    }
    &&& match last_child(n.children@, "tablet-mode-off"@) {
        None => true,
        Some(i) => switch_action_ok(n.children@[i]),
    }
}

/// `p` is what the section node `n` states.
pub open spec fn switch_binds_fits(n: Node, p: SwitchBinds) -> bool {
    &&& switch_binds_ok(n)
    &&& match last_child(n.children@, "lid-open"@) {
        None => p.lid_open is None,
        Some(i) => p.lid_open matches Some(x) && switch_action_fits(n.children@[i], x),
    }
    &&& match last_child(n.children@, "lid-close"@) {
        None => p.lid_close is None,
        Some(i) => p.lid_close matches Some(x) && switch_action_fits(n.children@[i], x),
    }
    &&& match last_child(n.children@, "tablet-mode-on"@) {
        None => p.tablet_mode_on is None,
        Some(i) => p.tablet_mode_on matches Some(x) && switch_action_fits(n.children@[i], x),
    }
    &&& match last_child(n.children@, "tablet-mode-off"@) {
        None => p.tablet_mode_off is None,
        Some(i) => p.tablet_mode_off matches Some(x) && switch_action_fits(n.children@[i], x),
    }
}

/// Reads the `switch-events` section: each field from the child node of its name.
pub fn decode_switch_binds(n: &Node) -> (r: Result<SwitchBinds, DecodeError>)
    ensures
        r is Ok <==> switch_binds_ok(*n),
        r matches Ok(p) ==> switch_binds_fits(*n, p),
{
    let allowed = vec!["lid-open", "lid-close", "tablet-mode-on", "tablet-mode-off"];
    proof {
        assert(views(allowed@) =~= seq!["lid-open"@, "lid-close"@, "tablet-mode-on"@, "tablet-mode-off"@]);
    }
    match check_section(n, &allowed) {
        Err(e) => {
            return Err(e);
        },
        Ok(()) => {},
    }
    proof {
        lemma_last_child_in_range(n.children@, "lid-open"@);
    }
    let lid_open = match find_child(n, "lid-open") {
        None => None,
        Some(i) => match decode_switch_action(&n.children[i]) {
            Err(e) => {
                return Err(e);
            },
            Ok(v) => Some(v),
        },
    };
    proof {
        lemma_last_child_in_range(n.children@, "lid-close"@);
    }
    let lid_close = match find_child(n, "lid-close") {
        None => None,
        Some(i) => match decode_switch_action(&n.children[i]) {
            Err(e) => {
                return Err(e);
            },
            Ok(v) => Some(v),
        },
    };
    proof {
        lemma_last_child_in_range(n.children@, "tablet-mode-on"@);
    }
    let tablet_mode_on = match find_child(n, "tablet-mode-on") {
        None => None,
        Some(i) => match decode_switch_action(&n.children[i]) {
            Err(e) => {
                return Err(e);
            },
            Ok(v) => Some(v),
        },
    };
    proof {
        lemma_last_child_in_range(n.children@, "tablet-mode-off"@);
    }
    let tablet_mode_off = match find_child(n, "tablet-mode-off") {
        None => None,
        Some(i) => match decode_switch_action(&n.children[i]) {
            Err(e) => {
                return Err(e);
            },
            Ok(v) => Some(v),
        },
    };
    Ok(SwitchBinds { lid_open, lid_close, tablet_mode_on, tablet_mode_off })
}


/// Every property of the node is one of the allowed names.
pub fn check_props_in(n: &Node, allowed: &Vec<&str>) -> (r: Result<(), DecodeError>)
    ensures
        r is Ok <==> props_within(*n, views(allowed@)),
{
    let mut i: usize = 0;
    while i < n.properties.len()
        invariant
            i <= n.properties@.len(),
            forall|k: int| 0 <= k < i ==> views(allowed@).contains(#[trigger] n.properties@[k].name@),
        decreases n.properties@.len() - i,
    {
        if !is_allowed(n.properties[i].name.as_str(), allowed) {
            return Err(DecodeError::UnexpectedProperty(n.properties[i].name.clone()));
        }
        i += 1;
    }
    Ok(())
}

/// An optional string property: `Some(None)` where absent, `None` where the
/// value is no string.
pub open spec fn str_prop(n: Node, name: Seq<char>) -> Option<Option<Seq<char>>> {
    match last_prop(n.properties@, name) {
        None => Some(None),
        Some(i) => match str_of(n.properties@[i].value) {
            Some(s) => Some(Some(s)),
            None => None,
        },
    }
}

/// An optional boolean property, in the same way.
pub open spec fn opt_bool_prop(n: Node, name: Seq<char>) -> Option<Option<bool>> {
    match last_prop(n.properties@, name) {
        None => Some(None),
        Some(i) => match n.properties@[i].value {
            Value::Bool(b) => Some(Some(b)),
            _ => None,
        },
    }
}

fn read_str_prop(n: &Node, name: &str) -> (r: Result<Option<String>, DecodeError>)
    ensures
        r is Ok <==> str_prop(*n, name@) is Some,
        r matches Ok(v) ==> str_prop(*n, name@) == Some(opt_view(v)),
{
    proof {
        lemma_last_prop_in_range(n.properties@, name@);
    }
    match find_prop(n, name) {
        None => Ok(None),
        Some(i) => match &n.properties[i].value {
            Value::Str(s) => Ok(Some(s.clone())),
            _ => Err(DecodeError::InvalidValue),
        },
    }
}

fn read_bool_prop(n: &Node, name: &str) -> (r: Result<Option<bool>, DecodeError>)
    ensures
        r is Ok <==> opt_bool_prop(*n, name@) is Some,
        r matches Ok(v) ==> opt_bool_prop(*n, name@) == Some(v),
{
    proof {
        lemma_last_prop_in_range(n.properties@, name@);
    }
    match find_prop(n, name) {
        None => Ok(None),
        Some(i) => match &n.properties[i].value {
            Value::Bool(b) => Ok(Some(*b)),
            _ => Err(DecodeError::InvalidValue),
        },
    }
}

pub open spec fn regex_view(r: Option<RegexEq>) -> Option<Seq<char>> {
    match r {
        Some(x) => Some(x.0@),
        None => None,
    }
}

/// A `match` or `exclude` node of a window rule is well formed: no arguments or children, known properties.
pub open spec fn window_match_ok(n: Node) -> bool {
    &&& n.arguments@.len() == 0
    &&& n.children@.len() == 0
    &&& props_within(n, seq!["app-id"@, "title"@, "is-active"@, "is-focused"@, "is-active-in-column"@, "is-floating"@, "is-window-cast-target"@, "is-urgent"@, "at-startup"@])
    &&& str_prop(n, "app-id"@) is Some
    &&& (str_prop(n, "app-id"@) matches Some(Some(pat)) ==> regex_search(pat, ""@) is Some)
    &&& str_prop(n, "title"@) is Some
    &&& (str_prop(n, "title"@) matches Some(Some(pat)) ==> regex_search(pat, ""@) is Some)
    &&& opt_bool_prop(n, "is-active"@) is Some
    &&& opt_bool_prop(n, "is-focused"@) is Some
    &&& opt_bool_prop(n, "is-active-in-column"@) is Some
    &&& opt_bool_prop(n, "is-floating"@) is Some
    &&& opt_bool_prop(n, "is-window-cast-target"@) is Some
    &&& opt_bool_prop(n, "is-urgent"@) is Some
    &&& opt_bool_prop(n, "at-startup"@) is Some
}

/// `m` is what the node `n` states.
pub open spec fn window_match_fits(n: Node, m: WindowMatch) -> bool {
    &&& window_match_ok(n)
    &&& str_prop(n, "app-id"@) == Some(regex_view(m.app_id))
    &&& str_prop(n, "title"@) == Some(regex_view(m.title))
    &&& opt_bool_prop(n, "is-active"@) == Some(m.is_active)
    &&& opt_bool_prop(n, "is-focused"@) == Some(m.is_focused)
    &&& opt_bool_prop(n, "is-active-in-column"@) == Some(m.is_active_in_column)
    &&& opt_bool_prop(n, "is-floating"@) == Some(m.is_floating)
    &&& opt_bool_prop(n, "is-window-cast-target"@) == Some(m.is_window_cast_target)
    &&& opt_bool_prop(n, "is-urgent"@) == Some(m.is_urgent)
    &&& opt_bool_prop(n, "at-startup"@) == Some(m.at_startup)
}

/// Reads a `match` or `exclude` node of a window rule from its properties.
pub fn decode_window_match(n: &Node) -> (r: Result<WindowMatch, DecodeError>)
    ensures
        r is Ok <==> window_match_ok(*n),
        r matches Ok(m) ==> window_match_fits(*n, m),
{
    if n.arguments.len() > 0 {
        return Err(DecodeError::UnexpectedArgument);
    }
    if n.children.len() > 0 {
        return Err(DecodeError::UnexpectedChild);
    }
    let allowed = vec!["app-id", "title", "is-active", "is-focused", "is-active-in-column", "is-floating", "is-window-cast-target", "is-urgent", "at-startup"];
    proof {
        assert(views(allowed@) =~= seq!["app-id"@, "title"@, "is-active"@, "is-focused"@, "is-active-in-column"@, "is-floating"@, "is-window-cast-target"@, "is-urgent"@, "at-startup"@]);
    }
    match check_props_in(n, &allowed) {
        Err(e) => {
            return Err(e);
        },
        Ok(()) => {},
    }
    let app_id = match read_str_prop(n, "app-id") {
        Err(e) => {
            return Err(e);
        },
        Ok(Some(s)) => {
            if regex_find(s.as_str(), "").is_none() {
                return Err(DecodeError::InvalidValue);
            }
            Some(RegexEq(s))
        },
        Ok(None) => None,
    };
    let title = match read_str_prop(n, "title") {
        Err(e) => {
            return Err(e);
        },
        Ok(Some(s)) => {
            if regex_find(s.as_str(), "").is_none() {
                return Err(DecodeError::InvalidValue);
            }
            Some(RegexEq(s))
        },
        Ok(None) => None,
    };
    let is_active = match read_bool_prop(n, "is-active") {
        Err(e) => {
            return Err(e);
        },
        Ok(v) => v,
    };
    let is_focused = match read_bool_prop(n, "is-focused") {
        Err(e) => {
            return Err(e);
        },
        Ok(v) => v,
    };
    let is_active_in_column = match read_bool_prop(n, "is-active-in-column") {
        Err(e) => {
            return Err(e);
        },
        Ok(v) => v,
    };
    let is_floating = match read_bool_prop(n, "is-floating") {
        Err(e) => {
            return Err(e);
        },
        Ok(v) => v,
    };
    let is_window_cast_target = match read_bool_prop(n, "is-window-cast-target") {
        Err(e) => {
            return Err(e);
        },
        Ok(v) => v,
    };
    let is_urgent = match read_bool_prop(n, "is-urgent") {
        Err(e) => {
            return Err(e);
        },
        Ok(v) => v,
    };
    let at_startup = match read_bool_prop(n, "at-startup") {
        Err(e) => {
            return Err(e);
        },
        Ok(v) => v,
    };
    Ok(WindowMatch { app_id, title, is_active, is_focused, is_active_in_column, is_floating, is_window_cast_target, is_urgent, at_startup })
}

/// A `match` or `exclude` node of a layer rule is well formed: no arguments or children, known properties.
pub open spec fn layer_match_ok(n: Node) -> bool {
    &&& n.arguments@.len() == 0
    &&& n.children@.len() == 0
    &&& props_within(n, seq!["namespace"@, "at-startup"@])
    &&& str_prop(n, "namespace"@) is Some
    &&& (str_prop(n, "namespace"@) matches Some(Some(pat)) ==> regex_search(pat, ""@) is Some)
    &&& opt_bool_prop(n, "at-startup"@) is Some
}

/// `m` is what the node `n` states.
pub open spec fn layer_match_fits(n: Node, m: LayerMatch) -> bool {
    &&& layer_match_ok(n)
    &&& str_prop(n, "namespace"@) == Some(regex_view(m.namespace))
    &&& opt_bool_prop(n, "at-startup"@) == Some(m.at_startup)
}

/// Reads a `match` or `exclude` node of a layer rule from its properties.
pub fn decode_layer_match(n: &Node) -> (r: Result<LayerMatch, DecodeError>)
    ensures
        r is Ok <==> layer_match_ok(*n),
        r matches Ok(m) ==> layer_match_fits(*n, m),
{
    if n.arguments.len() > 0 {
        return Err(DecodeError::UnexpectedArgument);
    }
    if n.children.len() > 0 {
        return Err(DecodeError::UnexpectedChild);
    }
    let allowed = vec!["namespace", "at-startup"];
    proof {
        assert(views(allowed@) =~= seq!["namespace"@, "at-startup"@]);
    }
    match check_props_in(n, &allowed) {
        Err(e) => {
            return Err(e);
        },
        Ok(()) => {},
    }
    let namespace = match read_str_prop(n, "namespace") {
        Err(e) => {
            return Err(e);
        },
        Ok(Some(s)) => {
            if regex_find(s.as_str(), "").is_none() {
                return Err(DecodeError::InvalidValue);
            }
            Some(RegexEq(s))
        },
        Ok(None) => None,
    };
    let at_startup = match read_bool_prop(n, "at-startup") {
        Err(e) => {
            return Err(e);
        },
        Ok(v) => v,
    };
    Ok(LayerMatch { namespace, at_startup })
}

/// The `warp-mouse-to-focus` node is well formed: no arguments or children, known properties.
pub open spec fn warp_mouse_to_focus_ok(n: Node) -> bool {
    &&& n.arguments@.len() == 0
    &&& n.children@.len() == 0
    &&& props_within(n, seq!["mode"@])
    &&& match str_prop(n, "mode"@) {
        Some(Some(s)) => warp_mouse_to_focus_mode_named(s) is Some,
        Some(None) => true,
        None => false,
    }
}

/// `m` is what the node `n` states.
pub open spec fn warp_mouse_to_focus_fits(n: Node, m: WarpMouseToFocus) -> bool {
    &&& warp_mouse_to_focus_ok(n)
    &&& match str_prop(n, "mode"@) {
        Some(Some(s)) => m.mode == warp_mouse_to_focus_mode_named(s),
        _ => m.mode is None,
    }
}

/// Reads the `warp-mouse-to-focus` node from its properties.
pub fn decode_warp_mouse_to_focus(n: &Node) -> (r: Result<WarpMouseToFocus, DecodeError>)
    ensures
        r is Ok <==> warp_mouse_to_focus_ok(*n),
        r matches Ok(m) ==> warp_mouse_to_focus_fits(*n, m),
{
    if n.arguments.len() > 0 {
        return Err(DecodeError::UnexpectedArgument);
    }
    if n.children.len() > 0 {
        return Err(DecodeError::UnexpectedChild);
    }
    let allowed = vec!["mode"];
    proof {
        assert(views(allowed@) =~= seq!["mode"@]);
    }
    match check_props_in(n, &allowed) {
        Err(e) => {
            return Err(e);
        },
        Ok(()) => {},
    }
    let mode = match read_str_prop(n, "mode") {
        Err(e) => {
            return Err(e);
        },
        Ok(None) => None,
        Ok(Some(s)) => match WarpMouseToFocusMode::from_name(s.as_str()) {
            Err(_) => {
                return Err(DecodeError::InvalidValue);
            },
            Ok(v) => Some(v),
        },
    };
    Ok(WarpMouseToFocus { mode })
}

/// Reads a `spawn-at-startup` node: the command and its arguments.
pub fn decode_spawn_at_startup(n: &Node) -> (r: Result<SpawnAtStartup, DecodeError>)
    ensures
        r is Ok <==> strings_ok(*n),
        r matches Ok(s) ==> strings_fit(*n, s.command@),
{
    match decode_strings(n) {
        Ok(v) => Ok(SpawnAtStartup { command: v }),
        Err(e) => Err(e),
    }
}

/// Reads a `spawn-sh-at-startup` node: one shell command.
pub fn decode_spawn_sh_at_startup(n: &Node) -> (r: Result<SpawnShAtStartup, DecodeError>)
    ensures
        r is Ok <==> str_ok(*n),
        r matches Ok(s) ==> str_fits(*n, s.command@),
{
    match decode_str(n) {
        Ok(c) => Ok(SpawnShAtStartup { command: c }),
        Err(e) => Err(e),
    }
}

/// Reads a `screenshot-path` node: a path, or `null` to keep screenshots off
/// the disk.
pub fn decode_screenshot_path(n: &Node) -> (r: Result<ScreenshotPath, DecodeError>)
    ensures
        r is Ok <==> opt_str_ok(*n),
        r matches Ok(p) ==> opt_str_fits(*n, p.0),
{
    match decode_opt_str(n) {
        Ok(o) => Ok(ScreenshotPath(o)),
        Err(e) => Err(e),
    }
}

/// Reads one variable of the `environment` section: its node name, and a
/// value or `null` to unset it.
pub fn decode_environment_variable(n: &Node) -> (r: Result<EnvironmentVariable, DecodeError>)
    ensures
        r is Ok <==> opt_str_ok(*n),
        r matches Ok(v) ==> v.name@ == n.name@ && opt_str_fits(*n, v.value),
{
    match decode_opt_str(n) {
        Ok(o) => Ok(EnvironmentVariable { name: n.name.clone(), value: o }),
        Err(e) => Err(e),
    }
}

/// Reads the `environment` section: one variable per child, in order.
pub fn decode_environment(n: &Node) -> (r: Result<Environment, DecodeError>)
    ensures
        r is Ok <==> n.arguments@.len() == 0 && n.properties@.len() == 0 && forall|i: int|
            0 <= i < n.children@.len() ==> opt_str_ok(#[trigger] n.children@[i]),
        r matches Ok(e) ==> e.0@.len() == n.children@.len() && forall|i: int|
            0 <= i < e.0@.len() ==> (#[trigger] e.0@[i]).name@ == n.children@[i].name@
                && opt_str_fits(n.children@[i], e.0@[i].value),
{
    if n.arguments.len() > 0 {
        return Err(DecodeError::UnexpectedArgument);
    }
    if n.properties.len() > 0 {
        return Err(DecodeError::UnexpectedProperty(n.properties[0].name.clone()));
    }
    let mut vars: Vec<EnvironmentVariable> = Vec::new();
    let mut i: usize = 0;
    while i < n.children.len()
        invariant
            i <= n.children@.len(),
            vars@.len() == i,
            forall|k: int| 0 <= k < i ==> opt_str_ok(#[trigger] n.children@[k]),
            forall|k: int|
                0 <= k < i ==> (#[trigger] vars@[k]).name@ == n.children@[k].name@ && opt_str_fits(
                    n.children@[k],
                    vars@[k].value,
                ),
        decreases n.children@.len() - i,
    {
        match decode_environment_variable(&n.children[i]) {
            Ok(v) => {
                vars.push(v);
            },
            Err(e) => {
                return Err(e);
            },
        }
        i += 1;
    }
    Ok(Environment(vars))
}

} // verus!
