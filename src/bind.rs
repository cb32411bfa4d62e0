use vstd::prelude::*;

use crate::action::{decode_action, decodable, decoded_as, workspace_note, Action};
use crate::key::{
    key_token_of, modifier_tokens_of, modifiers_of, parses_to, trigger_of, Key, KeyError,
    KeysymLookup,
};
use crate::node::{
    bool_prop, find_prop, get_bool_prop, get_int_prop, int_prop, last_prop,
    lemma_last_prop_in_range, DecodeError, Node, Property, Value,
};
use crate::text::str_eq;

verus! {

/// One binding: a key, the action it runs, and how it behaves.
#[derive(Debug, Clone, PartialEq)]
pub struct Bind {
    pub key: Key,
    pub action: Action,
    /// Whether holding the key repeats the action.
    pub repeat: bool,
    /// The least time between two runs, in milliseconds.
    pub cooldown: Option<u64>,
    /// Whether the binding works on the lock screen; only spawn actions may.
    pub allow_when_locked: bool,
    /// Whether an inhibitor of keyboard shortcuts holds this binding back.
    pub allow_inhibiting: bool,
    /// Unset, hidden (`Some(None)`), or a title for the hotkey overlay.
    pub hotkey_overlay_title: Option<Option<String>>,
}

/// What went wrong in a binding, or in the list of bindings.
#[derive(Debug, Clone, PartialEq)]
pub enum BindError {
    UnexpectedAnnotation,
    UnexpectedArgument,
    InvalidKeybind(KeyError),
    /// A known property with a value of the wrong kind.
    InvalidProperty(String),
    UnexpectedProperty(String),
    MissingAction,
    /// Only one action is allowed per binding.
    ExtraAction,
    Action(DecodeError),
    /// `allow-when-locked` is only for spawn actions.
    AllowWhenLockedNotSpawn,
    DuplicateKeybind,
}

/// A binding node read on its own: the binding, or why there is none, and
/// the diagnostics met on the way.
#[derive(Debug)]
pub struct BindDecode {
    pub bind: Result<Bind, BindError>,
    pub errors: Vec<BindError>,
}

pub open spec fn is_spawn(a: Action) -> bool {
    a is Spawn || a is SpawnSh
}

/// The names of the properties that a binding node may carry.
pub open spec fn is_bind_prop(s: Seq<char>) -> bool {
    s == "repeat"@ || s == "cooldown-ms"@ || s == "allow-when-locked"@ || s == "allow-inhibiting"@
        || s == "hotkey-overlay-title"@
}

/// The value of a binding property is of the kind its name asks for.
pub open spec fn bind_prop_ok(p: Property) -> bool {
    if p.name@ == "repeat"@ || p.name@ == "allow-when-locked"@ || p.name@ == "allow-inhibiting"@ {
        p.value is Bool
    } else if p.name@ == "cooldown-ms"@ {
        p.value matches Value::Int(v) && 0 <= v <= u64::MAX
    } else if p.name@ == "hotkey-overlay-title"@ {
        p.value is Str || p.value is Null
    } else {
        true
    }
}

pub open spec fn bind_props_ok(n: Node) -> bool {
    forall|i: int| 0 <= i < n.properties@.len() ==> bind_prop_ok(#[trigger] n.properties@[i])
}

/// The overlay title that the node asks for.
pub open spec fn title_fits(n: Node, t: Option<Option<String>>) -> bool {
    match last_prop(n.properties@, "hotkey-overlay-title"@) {
        None => t is None,
        Some(i) => match n.properties@[i].value {
            Value::Str(s) => t matches Some(Some(x)) && x@ == s@,
            _ => t == Some(None::<String>),
        },
    }
}

/// The binding that stands in for one whose action is missing or broken, so
/// that its key still takes part in finding duplicates.
pub open spec fn is_placeholder(b: Bind, k: Key) -> bool {
    &&& b.key == k
    &&& (b.action matches Action::Spawn(v) && v@.len() == 0)
    &&& b.repeat
    &&& b.cooldown is None
    &&& !b.allow_when_locked
    &&& b.allow_inhibiting
    &&& b.hotkey_overlay_title is None
}

/// `b` is the binding that node `n` describes with action `a`.
pub open spec fn bind_fits(n: Node, b: Bind) -> bool {
    &&& bool_prop(n, "repeat"@, true) == Some(b.repeat)
    &&& int_prop(n, "cooldown-ms"@, u64::MAX as int) == Some(
        match b.cooldown {
            Some(x) => Some(x as int),
            None => None::<int>,
        },
    )
    &&& b.allow_when_locked == (bool_prop(n, "allow-when-locked"@, false) == Some(true) && is_spawn(
        b.action,
    ))
    &&& b.allow_inhibiting == (bool_prop(n, "allow-inhibiting"@, true) == Some(true)
        && !(b.action is ToggleKeyboardShortcutsInhibit))
    &&& title_fits(n, b.hotkey_overlay_title)
}

/// What reading the binding node `n` gives, with `l` the keysym table's
/// answers for the key token of its name.
pub open spec fn bind_result_fits(n: Node, l: KeysymLookup, r: Result<Bind, BindError>) -> bool {
    match r {
        Err(BindError::InvalidKeybind(e)) => parses_to(n.name@, l, Err(e)),
        Err(BindError::InvalidProperty(name)) => (exists|k: Key| parses_to(n.name@, l, Ok(k)))
            && !bind_props_ok(n) && name == n.properties@[first_bad_prop(n.properties@)].name,
        Err(_) => false,
        Ok(b) => parses_to(n.name@, l, Ok(b.key)) && bind_props_ok(n) && if n.children@.len() > 0
            && decodable(n.children@[0]) {
            decoded_as(n.children@[0], b.action) && bind_fits(n, b)
        } else {
            is_placeholder(b, b.key)
        },
    }
}

fn placeholder(key: Key) -> (b: Bind)
    ensures
        is_placeholder(b, key),
{
    Bind {
        key,
        action: Action::Spawn(Vec::new()),
        repeat: true,
        cooldown: None,
        allow_when_locked: false,
        allow_inhibiting: true,
        hotkey_overlay_title: None,
    }
}

fn is_bind_prop_name(s: &str) -> (r: bool)
    ensures
        r == is_bind_prop(s@),
{
    str_eq(s, "repeat") || str_eq(s, "cooldown-ms") || str_eq(s, "allow-when-locked") || str_eq(
        s,
        "allow-inhibiting",
    ) || str_eq(s, "hotkey-overlay-title")
}

fn bind_prop_value_ok(p: &Property) -> (r: bool)
    ensures
        r == bind_prop_ok(*p),
{
    let name = p.name.as_str();
    if str_eq(name, "repeat") || str_eq(name, "allow-when-locked") || str_eq(
        name,
        "allow-inhibiting",
    ) {
        matches!(p.value, Value::Bool(_))
    } else if str_eq(name, "cooldown-ms") {
        match &p.value {
            Value::Int(v) => 0 <= *v && *v <= u64::MAX as i128,
            _ => false,
        }
    } else if str_eq(name, "hotkey-overlay-title") {
        matches!(p.value, Value::Str(_) | Value::Null)
    } else {
        true
    }
}

fn valid_bool_prop(n: &Node, name: &str, default: bool) -> (r: bool)
    requires
        bind_props_ok(*n),
        name@ == "repeat"@ || name@ == "allow-when-locked"@ || name@ == "allow-inhibiting"@,
    ensures
        bool_prop(*n, name@, default) == Some(r),
{
    proof {
        lemma_last_prop_in_range(n.properties@, name@);
        if let Some(i) = last_prop(n.properties@, name@) {
            assert(bind_prop_ok(n.properties@[i]));
        }
    }
    match get_bool_prop(n, name, default) {
        Ok(b) => b,
        Err(_) => default,
    }
}

fn valid_cooldown(n: &Node) -> (r: Option<u64>)
    requires
        bind_props_ok(*n),
    ensures
        int_prop(*n, "cooldown-ms"@, u64::MAX as int) == Some(
            match r {
                Some(x) => Some(x as int),
                None => None::<int>,
            },
        ),
{
    proof {
        reveal_strlit("cooldown-ms");
        reveal_strlit("repeat");
        reveal_strlit("allow-when-locked");
        reveal_strlit("allow-inhibiting");
        assert("cooldown-ms"@.len() == 11);
        assert("cooldown-ms"@ != "repeat"@);
        assert("cooldown-ms"@ != "allow-when-locked"@);
        assert("cooldown-ms"@ != "allow-inhibiting"@);
        lemma_last_prop_in_range(n.properties@, "cooldown-ms"@);
        if let Some(i) = last_prop(n.properties@, "cooldown-ms"@) {
            assert(bind_prop_ok(n.properties@[i]));
            assert(n.properties@[i].name@ == "cooldown-ms"@);
            assert(n.properties@[i].value is Int);
        }
    }
    match get_int_prop(n, "cooldown-ms", u64::MAX) {
        Ok(v) => v,
        Err(_) => None,
    }
}

fn valid_title(n: &Node) -> (r: Option<Option<String>>)
    requires
        bind_props_ok(*n),
    ensures
        title_fits(*n, r),
{
    proof {
        lemma_last_prop_in_range(n.properties@, "hotkey-overlay-title"@);
    }
    match find_prop(n, "hotkey-overlay-title") {
        None => None,
        Some(i) => match &n.properties[i].value {
            Value::Str(s) => Some(Some(s.clone())),
            _ => Some(None),
        },
    }
}

/// `k` copies of one diagnostic.
pub open spec fn repeated(e: BindError, k: nat) -> Seq<BindError> {
    Seq::new(k, |_i: int| e)
}

/// The key combo `s` parses, with `l` the table's answers for its key token.
pub open spec fn key_parses(s: Seq<char>, l: KeysymLookup) -> bool {
    modifiers_of(modifier_tokens_of(s)) is Ok && trigger_of(key_token_of(s), l) is Some
}

/// One `UnexpectedProperty` for each property of `ps` that a binding does not
/// know, in order.
pub open spec fn unknown_prop_errors(ps: Seq<Property>) -> Seq<BindError>
    decreases ps.len(),
{
    if ps.len() == 0 {
        Seq::empty()
    } else if is_bind_prop(ps.last().name@) {
        unknown_prop_errors(ps.drop_last())
    } else {
        unknown_prop_errors(ps.drop_last()).push(BindError::UnexpectedProperty(ps.last().name))
    }
}

/// The index of the first known property with a value of the wrong kind, or
/// the number of properties where there is none.
pub open spec fn first_bad_prop(ps: Seq<Property>) -> int
    decreases ps.len(),
{
    if ps.len() == 0 {
        0
    } else if !bind_prop_ok(ps[0]) {
        0
    } else {
        1 + first_bad_prop(ps.drop_first())
    }
}

/// The diagnostics a binding node gets before its key is read: one for a
/// type annotation, one for each positional argument.
pub open spec fn lead_errors(n: Node) -> Seq<BindError> {
    (if n.annotation is Some {
        seq![BindError::UnexpectedAnnotation]
    } else {
        Seq::<BindError>::empty()
    }) + repeated(BindError::UnexpectedArgument, n.arguments@.len())
}

/// The diagnostics that reading the binding node `n` emits, in order, with
/// `l` the table's answers for its key token and `act` what reading its
/// first child as an action gave.
pub open spec fn bind_errors(n: Node, l: KeysymLookup, act: Result<Action, DecodeError>) -> Seq<
    BindError,
> {
    let ps = n.properties@;
    if !key_parses(n.name@, l) {
        lead_errors(n)
    } else if !bind_props_ok(n) {
        lead_errors(n) + unknown_prop_errors(ps.subrange(0, first_bad_prop(ps)))
    } else if n.children@.len() == 0 {
        (lead_errors(n) + unknown_prop_errors(ps)).push(BindError::MissingAction)
    } else {
        let extra = lead_errors(n) + unknown_prop_errors(ps) + repeated(
            BindError::ExtraAction,
            (n.children@.len() - 1) as nat,
        ) + note_errors(n.children@[0]);
        match act {
            Err(e) => extra.push(BindError::Action(e)),
            Ok(a) => if last_prop(ps, "allow-when-locked"@) is Some && !is_spawn(a) {
                extra.push(BindError::AllowWhenLockedNotSpawn)
            } else {
                extra
            },
        }
    }
}

/// The diagnostic that reading an action node reports without failing.
pub open spec fn note_errors(c: Node) -> Seq<BindError> {
    match workspace_note(c) {
        Some(e) => seq![BindError::Action(e)],
        None => Seq::<BindError>::empty(),
    }
}

/// The node's key parses, its known properties are well formed and it has a
/// child to read as the action.
pub open spec fn reaches_action(n: Node, l: KeysymLookup) -> bool {
    key_parses(n.name@, l) && bind_props_ok(n) && n.children@.len() > 0
}

/// `act` is what reading the first child of `n` as an action gives, and the
/// binding, where there is one, carries that action.
pub open spec fn action_outcome(n: Node, act: Result<Action, DecodeError>, r: Result<Bind, BindError>) -> bool {
    &&& (act is Ok <==> decodable(n.children@[0]))
    &&& (act matches Ok(a) ==> decoded_as(n.children@[0], a) && (r matches Ok(b) && b.action == a))
}

/// `bind` and `errors` are what reading the binding node `n` gives: the
/// binding, or why there is none, and every diagnostic, in order.
pub open spec fn bind_decode_fits(
    n: Node,
    l: KeysymLookup,
    bind: Result<Bind, BindError>,
    errors: Seq<BindError>,
) -> bool {
    &&& bind_result_fits(n, l, bind)
    &&& !reaches_action(n, l) ==> errors == bind_errors(n, l, Err(DecodeError::MissingArgument))
    &&& reaches_action(n, l) ==> exists|act: Result<Action, DecodeError>|
        action_outcome(n, act, bind) && errors == bind_errors(n, l, act)
}

proof fn lemma_first_bad_prop(ps: Seq<Property>, i: int)
    requires
        0 <= i <= ps.len(),
        forall|k: int| 0 <= k < i ==> bind_prop_ok(#[trigger] ps[k]),
        i < ps.len() ==> !bind_prop_ok(ps[i]),
    ensures
        first_bad_prop(ps) == i,
    decreases i,
{
    if i > 0 {
        assert(bind_prop_ok(ps[0]));
        assert forall|k: int| 0 <= k < i - 1 implies bind_prop_ok(#[trigger] ps.drop_first()[k]) by {
            assert(bind_prop_ok(ps[k + 1]));
        }
        lemma_first_bad_prop(ps.drop_first(), i - 1);
    }
}

/// Reads one binding node: its name is the key combo, its properties the
/// binding's options and its one child the action.
///
/// A broken key, or a known property with a value of the wrong kind, gives
/// no binding. A missing or broken action gives a placeholder binding, so
/// that the key still takes part in finding duplicates. `allow-when-locked`
/// on an action other than a spawn is reported and has no effect; the action
/// that toggles the shortcut inhibitor is never held back by it.
pub fn decode_bind(n: &Node, l: KeysymLookup) -> (r: BindDecode)
    ensures
        bind_decode_fits(*n, l, r.bind, r.errors@),
{
    let mut errors: Vec<BindError> = Vec::new();
    if n.annotation.is_some() {
        errors.push(BindError::UnexpectedAnnotation);
    }
    let ghost head = errors@;
    let mut a: usize = 0;
    proof {
        assert(errors@ =~= head + repeated(BindError::UnexpectedArgument, 0));
    }
    while a < n.arguments.len()
        invariant
            a <= n.arguments@.len(),
            errors@ == head + repeated(BindError::UnexpectedArgument, a as nat),
        decreases n.arguments@.len() - a,
    {
        errors.push(BindError::UnexpectedArgument);
        a += 1;
        proof {
            assert(errors@ =~= head + repeated(BindError::UnexpectedArgument, a as nat));
        }
    }
    let ghost lead = errors@;
    proof {
        assert(lead =~= lead_errors(*n));
    }
    let key = match Key::parse(n.name.as_str(), l) {
        Ok(k) => k,
        Err(e) => {
            return BindDecode { bind: Err(BindError::InvalidKeybind(e)), errors };
        },
    };
    let ghost ps = n.properties@;
    let mut i: usize = 0;
    proof {
        assert(ps.subrange(0, 0) =~= Seq::<Property>::empty());
        assert(errors@ =~= lead + unknown_prop_errors(ps.subrange(0, 0)));
    }
    while i < n.properties.len()
        invariant
            ps == n.properties@,
            i <= ps.len(),
            forall|k: int| 0 <= k < i ==> bind_prop_ok(#[trigger] ps[k]),
            errors@ == lead + unknown_prop_errors(ps.subrange(0, i as int)),
            lead == lead_errors(*n),
            parses_to(n.name@, l, Ok(key)),
        decreases ps.len() - i,
    {
        let p = &n.properties[i];
        proof {
            assert(ps.subrange(0, i + 1).drop_last() =~= ps.subrange(0, i as int));
            assert(ps.subrange(0, i + 1).last() == ps[i as int]);
        }
        if is_bind_prop_name(p.name.as_str()) {
            if !bind_prop_value_ok(p) {
                proof {
                    assert(exists|k: Key| parses_to(n.name@, l, Ok(k))) by {
                        assert(parses_to(n.name@, l, Ok(key)));
                    }
                    lemma_first_bad_prop(ps, i as int);
                    assert(!bind_prop_ok(n.properties@[i as int]));
                    assert(!bind_props_ok(*n));
                    assert(key_parses(n.name@, l));
                    assert(errors@ == bind_errors(*n, l, Err(DecodeError::MissingArgument)));
                }
                return BindDecode { bind: Err(BindError::InvalidProperty(p.name.clone())), errors };
            }
        } else {
            errors.push(BindError::UnexpectedProperty(p.name.clone()));
        }
        i += 1;
    }
    proof {
        assert(ps.subrange(0, ps.len() as int) =~= ps);
    }
    let repeat = valid_bool_prop(n, "repeat", true);
    let cooldown = valid_cooldown(n);
    let locked = valid_bool_prop(n, "allow-when-locked", false);
    let locked_set = find_prop(n, "allow-when-locked").is_some();
    let inhibiting = valid_bool_prop(n, "allow-inhibiting", true);
    let title = valid_title(n);
    if n.children.len() == 0 {
        errors.push(BindError::MissingAction);
        return BindDecode { bind: Ok(placeholder(key)), errors };
    }
    let ghost mid = errors@;
    let mut c: usize = 1;
    proof {
        assert(errors@ =~= mid + repeated(BindError::ExtraAction, 0));
    }
    while c < n.children.len()
        invariant
            1 <= c <= n.children@.len(),
            errors@ == mid + repeated(BindError::ExtraAction, (c - 1) as nat),
        decreases n.children@.len() - c,
    {
        errors.push(BindError::ExtraAction);
        c += 1;
        proof {
            assert(errors@ =~= mid + repeated(BindError::ExtraAction, (c - 1) as nat));
        }
    }
    let decoded = decode_action(&n.children[0]);
    let ghost before_note = errors@;
    if let Some(e) = decoded.note {
        errors.push(BindError::Action(e));
    }
    proof {
        assert(errors@ =~= before_note + note_errors(n.children@[0]));
    }
    let ghost act = decoded.action;
    let bind = match decoded.action {
        Err(e) => {
            errors.push(BindError::Action(e));
            placeholder(key)
        },
        Ok(action) => {
            let spawn = matches!(action, Action::Spawn(_) | Action::SpawnSh(_));
            if locked_set && !spawn {
                errors.push(BindError::AllowWhenLockedNotSpawn);
            }
            let toggle = matches!(action, Action::ToggleKeyboardShortcutsInhibit);
            Bind {
                key,
                action,
                repeat,
                cooldown,
                allow_when_locked: locked && spawn,
                allow_inhibiting: inhibiting && !toggle,
                hotkey_overlay_title: title,
            }
        },
    };
    let r = BindDecode { bind: Ok(bind), errors };
    proof {
        assert(action_outcome(*n, act, r.bind));
    }
    r
}

/// A diagnostic, on the list node itself (`child` is `None`) or on one of
/// its children.
#[derive(Debug, Clone, PartialEq)]
pub struct Diagnostic {
    pub child: Option<usize>,
    pub error: BindError,
}

/// The bindings of one list, no two with the same key.
#[derive(Debug, PartialEq)]
pub struct Binds(pub Vec<Bind>);

/// A list of bindings read, with every diagnostic met on the way.
#[derive(Debug)]
pub struct BindsDecode {
    pub binds: Binds,
    pub errors: Vec<Diagnostic>,
}

pub open spec fn has_key(bs: Seq<Bind>, k: Key) -> bool {
    exists|j: int| 0 <= j < bs.len() && (#[trigger] bs[j]).key == k
}

/// The bindings kept from the results of reading each child in order: each
/// binding whose key no earlier kept binding has.
pub open spec fn keep_first(rs: Seq<Result<Bind, BindError>>) -> Seq<Bind>
    decreases rs.len(),
{
    if rs.len() == 0 {
        Seq::<Bind>::empty()
    } else {
        let prev = keep_first(rs.drop_last());
        match rs.last() {
            Ok(b) => if has_key(prev, b.key) {
                prev
            } else {
                prev.push(b)
            },
            Err(_) => prev,
        }
    }
}

/// The child at `i` read as a binding whose key an earlier one holds.
pub open spec fn is_duplicate(rs: Seq<Result<Bind, BindError>>, i: int) -> bool {
    rs[i] matches Ok(b) && has_key(keep_first(rs.subrange(0, i)), b.key)
}

fn holds_key(binds: &Vec<Bind>, key: &Key) -> (r: bool)
    ensures
        r == has_key(binds@, *key),
{
    let mut j: usize = 0;
    while j < binds.len()
        invariant
            j <= binds@.len(),
            forall|t: int| 0 <= t < j ==> (#[trigger] binds@[t]).key != *key,
        decreases binds@.len() - j,
    {
        if binds[j].key == *key {
            return true;
        }
        j += 1;
    }
    false
}

/// The diagnostics on the list node itself: one for a type annotation, one
/// for each positional argument and one for each property.
pub open spec fn list_node_errors(n: Node) -> Seq<Diagnostic> {
    (if n.annotation is Some {
        seq![Diagnostic { child: None, error: BindError::UnexpectedAnnotation }]
    } else {
        Seq::<Diagnostic>::empty()
    }) + Seq::new(
        n.arguments@.len(),
        |_i: int| Diagnostic { child: None, error: BindError::UnexpectedArgument },
    ) + Seq::new(
        n.properties@.len(),
        |i: int| Diagnostic { child: None, error: BindError::UnexpectedProperty(n.properties@[i].name) },
    )
}

/// A child's own diagnostics, placed on that child.
pub open spec fn tagged(i: int, es: Seq<BindError>) -> Seq<Diagnostic> {
    es.map_values(|e: BindError| Diagnostic { child: Some(i as usize), error: e })
}

/// What the list reports of the child at `i` after reading it: its error
/// where it gave no binding, a duplicate where its key is already held.
pub open spec fn child_outcome(rs: Seq<Result<Bind, BindError>>, i: int) -> Seq<Diagnostic> {
    match rs[i] {
        Err(e) => seq![Diagnostic { child: Some(i as usize), error: e }],
        Ok(b) => if has_key(keep_first(rs.subrange(0, i)), b.key) {
            seq![Diagnostic { child: Some(i as usize), error: BindError::DuplicateKeybind }]
        } else {
            Seq::<Diagnostic>::empty()
        },
    }
}

/// The diagnostics of the children, in document order: each child's own,
/// then what the list reports of it.
pub open spec fn children_errors(rs: Seq<Result<Bind, BindError>>, es: Seq<Seq<BindError>>) -> Seq<
    Diagnostic,
>
    decreases rs.len(),
{
    if rs.len() == 0 || es.len() != rs.len() {
        Seq::empty()
    } else {
        let k = rs.len() - 1;
        children_errors(rs.drop_last(), es.drop_last()) + tagged(k, es[k]) + child_outcome(rs, k)
    }
}

impl Binds {
    /// Reads a list of bindings: each child independently, in order, with its
    /// keysym answers at the same index of `lookups`. A binding whose key an
    /// earlier one already holds is dropped and reported on its own child.
    pub fn decode_node(n: &Node, lookups: &Vec<KeysymLookup>) -> (r: BindsDecode)
        requires
            lookups@.len() == n.children@.len(),
        ensures
            exists|rs: Seq<Result<Bind, BindError>>, es: Seq<Seq<BindError>>|
                {
                    &&& rs.len() == n.children@.len()
                    &&& es.len() == n.children@.len()
                    &&& forall|i: int|
                        0 <= i < rs.len() ==> bind_decode_fits(
                            n.children@[i],
                            lookups@[i],
                            #[trigger] rs[i],
                            es[i],
                        )
                    &&& r.binds.0@ == keep_first(rs)
                    &&& r.errors@ == list_node_errors(*n) + children_errors(rs, es)
                },
    {
        let mut errors: Vec<Diagnostic> = Vec::new();
        if n.annotation.is_some() {
            errors.push(Diagnostic { child: None, error: BindError::UnexpectedAnnotation });
        }
        let ghost head = errors@;
        let mut a: usize = 0;
        proof {
            assert(errors@ =~= head + Seq::new(
                0,
                |_i: int| Diagnostic { child: None, error: BindError::UnexpectedArgument },
            ));
        }
        while a < n.arguments.len()
            invariant
                a <= n.arguments@.len(),
                errors@ == head + Seq::new(
                    a as nat,
                    |_i: int| Diagnostic { child: None, error: BindError::UnexpectedArgument },
                ),
            decreases n.arguments@.len() - a,
        {
            errors.push(Diagnostic { child: None, error: BindError::UnexpectedArgument });
            a += 1;
            proof {
                assert(errors@ =~= head + Seq::new(
                    a as nat,
                    |_i: int| Diagnostic { child: None, error: BindError::UnexpectedArgument },
                ));
            }
        }
        let ghost head2 = errors@;
        let mut p: usize = 0;
        proof {
            assert(errors@ =~= head2 + Seq::new(
                0,
                |i: int|
                    Diagnostic {
                        child: None,
                        error: BindError::UnexpectedProperty(n.properties@[i].name),
                    },
            ));
        }
        while p < n.properties.len()
            invariant
                p <= n.properties@.len(),
                errors@ == head2 + Seq::new(
                    p as nat,
                    |i: int|
                        Diagnostic {
                            child: None,
                            error: BindError::UnexpectedProperty(n.properties@[i].name),
                        },
                ),
            decreases n.properties@.len() - p,
        {
            errors.push(
                Diagnostic {
                    child: None,
                    error: BindError::UnexpectedProperty(n.properties[p].name.clone()),
                },
            );
            p += 1;
            proof {
                assert(errors@ =~= head2 + Seq::new(
                    p as nat,
                    |i: int|
                        Diagnostic {
                            child: None,
                            error: BindError::UnexpectedProperty(n.properties@[i].name),
                        },
                ));
            }
        }
        let ghost list_errs = errors@;
        proof {
            assert(list_errs =~= list_node_errors(*n));
        }
        let mut binds: Vec<Bind> = Vec::new();
        let ghost mut rs: Seq<Result<Bind, BindError>> = Seq::empty();
        let ghost mut es: Seq<Seq<BindError>> = Seq::empty();
        let mut i: usize = 0;
        proof {
            assert(errors@ =~= list_errs + children_errors(rs, es));
        }
        while i < n.children.len()
            invariant
                i <= n.children@.len(),
                lookups@.len() == n.children@.len(),
                rs.len() == i,
                es.len() == i,
                forall|k: int|
                    0 <= k < i ==> bind_decode_fits(
                        n.children@[k],
                        lookups@[k],
                        #[trigger] rs[k],
                        es[k],
                    ),
                binds@ == keep_first(rs),
                list_errs == list_node_errors(*n),
                errors@ == list_errs + children_errors(rs, es),
            decreases n.children@.len() - i,
        {
            let d = decode_bind(&n.children[i], lookups[i]);
            let ghost res = d.bind;
            let ghost own = d.errors@;
            let ghost old_rs = rs;
            let ghost old_es = es;
            let ghost base = errors@;
            let mut own_left = d.errors;
            while own_left.len() > 0
                invariant
                    own_left@.len() <= own.len(),
                    own_left@ == own.subrange(own.len() - own_left@.len(), own.len() as int),
                    errors@ == base + tagged(i as int, own.subrange(0, own.len() - own_left@.len())),
                decreases own_left@.len(),
            {
                let ghost done = own.len() - own_left@.len();
                let e = own_left.remove(0);
                errors.push(Diagnostic { child: Some(i), error: e });
                proof {
                    assert(e == own[done]);
                    assert(own_left@ =~= own.subrange(own.len() - own_left@.len(), own.len() as int));
                    assert(own.subrange(0, done + 1) =~= own.subrange(0, done).push(own[done]));
                    assert(errors@ =~= base + tagged(i as int, own.subrange(0, done + 1)));
                }
            }
            proof {
                assert(own.subrange(0, own.len() as int) =~= own);
                rs = rs.push(res);
                es = es.push(own);
                assert(rs.drop_last() =~= old_rs);
                assert(es.drop_last() =~= old_es);
                assert(rs.subrange(0, i as int) =~= old_rs);
                assert forall|k: int| 0 <= k < i + 1 implies bind_decode_fits(
                    n.children@[k],
                    lookups@[k],
                    #[trigger] rs[k],
                    es[k],
                ) by {
                    if k < i {
                        assert(rs[k] == old_rs[k]);
                        assert(es[k] == old_es[k]);
                    }
                }
            }
            let ghost with_own = errors@;
            match d.bind {
                Err(err) => {
                    errors.push(Diagnostic { child: Some(i), error: err });
                },
                Ok(b) => {
                    if holds_key(&binds, &b.key) {
                        errors.push(Diagnostic { child: Some(i), error: BindError::DuplicateKeybind });
                    } else {
                        binds.push(b);
                    }
                },
            }
            proof {
                assert(errors@ =~= with_own + child_outcome(rs, i as int));
                assert(children_errors(rs, es) == children_errors(old_rs, old_es) + tagged(
                    i as int,
                    own,
                ) + child_outcome(rs, i as int));
                assert(errors@ =~= list_errs + children_errors(rs, es));
            }
            i += 1;
        }
        BindsDecode { binds: Binds(binds), errors }
    }
}

/// How many diagnostics of the list are duplicate keys.
pub open spec fn duplicate_count(ds: Seq<Diagnostic>) -> nat
    decreases ds.len(),
{
    if ds.len() == 0 {
        0
    } else {
        duplicate_count(ds.drop_last()) + if ds.last().error is DuplicateKeybind {
            1nat
        } else {
            0nat
        }
    }
}

/// How many children read to a binding.
pub open spec fn readable_count(rs: Seq<Result<Bind, BindError>>) -> nat
    decreases rs.len(),
{
    if rs.len() == 0 {
        0
    } else {
        readable_count(rs.drop_last()) + if rs.last() is Ok {
            1nat
        } else {
            0nat
        }
    }
}

pub open spec fn no_duplicate(es: Seq<BindError>) -> bool {
    forall|k: int| 0 <= k < es.len() ==> !(#[trigger] es[k] is DuplicateKeybind)
}

proof fn lemma_duplicate_count_concat(a: Seq<Diagnostic>, b: Seq<Diagnostic>)
    ensures
        duplicate_count(a + b) == duplicate_count(a) + duplicate_count(b),
    decreases b.len(),
{
    if b.len() == 0 {
        assert(a + b =~= a);
    } else {
        assert((a + b).drop_last() =~= a + b.drop_last());
        lemma_duplicate_count_concat(a, b.drop_last());
    }
}

proof fn lemma_no_duplicate_count(ds: Seq<Diagnostic>)
    requires
        forall|k: int| 0 <= k < ds.len() ==> !(#[trigger] ds[k].error is DuplicateKeybind),
    ensures
        duplicate_count(ds) == 0,
    decreases ds.len(),
{
    if ds.len() > 0 {
        assert forall|k: int| 0 <= k < ds.drop_last().len() implies !(
        #[trigger] ds.drop_last()[k].error is DuplicateKeybind) by {
            assert(ds.drop_last()[k] == ds[k]);
        }
        lemma_no_duplicate_count(ds.drop_last());
    }
}

proof fn lemma_unknown_props_no_duplicate(ps: Seq<Property>)
    ensures
        no_duplicate(unknown_prop_errors(ps)),
    decreases ps.len(),
{
    if ps.len() > 0 {
        lemma_unknown_props_no_duplicate(ps.drop_last());
    }
}

proof fn lemma_bind_errors_no_duplicate(n: Node, l: KeysymLookup, act: Result<Action, DecodeError>)
    ensures
        no_duplicate(bind_errors(n, l, act)),
{
    let ps = n.properties@;
    lemma_unknown_props_no_duplicate(ps);
    lemma_unknown_props_no_duplicate(ps.subrange(0, first_bad_prop(ps)));
    let lead = lead_errors(n);
    assert(no_duplicate(lead));
    let all = bind_errors(n, l, act);
    assert forall|k: int| 0 <= k < all.len() implies !(#[trigger] all[k] is DuplicateKeybind) by {
        let u1 = unknown_prop_errors(ps);
        let u0 = unknown_prop_errors(ps.subrange(0, first_bad_prop(ps)));
        if k < lead.len() {
            assert(all[k] == lead[k]);
        } else if !key_parses(n.name@, l) {
        } else if !bind_props_ok(n) {
            assert(all[k] == u0[k - lead.len()]);
        } else if k < lead.len() + u1.len() {
            assert(all[k] == u1[k - lead.len()]);
        }
    }
}

/// Each child whose key is already held gets exactly one duplicate
/// diagnostic, and nothing else does: the duplicates reported are as many
/// as the bindings read but not kept.
pub proof fn duplicates_reported_once(
    n: Node,
    lookups: Seq<KeysymLookup>,
    rs: Seq<Result<Bind, BindError>>,
    es: Seq<Seq<BindError>>,
)
    requires
        rs.len() == n.children@.len(),
        es.len() == rs.len(),
        lookups.len() == rs.len(),
        forall|i: int|
            0 <= i < rs.len() ==> bind_decode_fits(n.children@[i], lookups[i], #[trigger] rs[i], es[i]),
    ensures
        duplicate_count(list_node_errors(n) + children_errors(rs, es)) + keep_first(rs).len()
            == readable_count(rs),
{
    lemma_duplicate_count_concat(list_node_errors(n), children_errors(rs, es));
    lemma_no_duplicate_count(list_node_errors(n));
    lemma_children_duplicates(n, lookups, rs, es);
}

proof fn lemma_children_duplicates(
    n: Node,
    lookups: Seq<KeysymLookup>,
    rs: Seq<Result<Bind, BindError>>,
    es: Seq<Seq<BindError>>,
)
    requires
        rs.len() <= n.children@.len(),
        es.len() == rs.len(),
        lookups.len() >= rs.len(),
        forall|i: int|
            0 <= i < rs.len() ==> bind_decode_fits(n.children@[i], lookups[i], #[trigger] rs[i], es[i]),
    ensures
        duplicate_count(children_errors(rs, es)) + keep_first(rs).len() == readable_count(rs),
    decreases rs.len(),
{
    if rs.len() > 0 {
        let k = rs.len() - 1;
        assert forall|i: int| 0 <= i < rs.drop_last().len() implies bind_decode_fits(
            n.children@[i],
            lookups[i],
            #[trigger] rs.drop_last()[i],
            es.drop_last()[i],
        ) by {
            assert(rs.drop_last()[i] == rs[i]);
            assert(es.drop_last()[i] == es[i]);
        }
        lemma_children_duplicates(n, lookups, rs.drop_last(), es.drop_last());
        let prev = children_errors(rs.drop_last(), es.drop_last());
        let own = tagged(k, es[k]);
        let out = child_outcome(rs, k);
        assert(bind_decode_fits(n.children@[k], lookups[k], rs[k], es[k]));
        let c = n.children@[k];
        if reaches_action(c, lookups[k]) {
            let act = choose|act: Result<Action, DecodeError>|
                action_outcome(c, act, rs[k]) && es[k] == bind_errors(c, lookups[k], act);
            lemma_bind_errors_no_duplicate(c, lookups[k], act);
        } else {
            lemma_bind_errors_no_duplicate(c, lookups[k], Err(DecodeError::MissingArgument));
        }
        assert forall|j: int| 0 <= j < own.len() implies !(#[trigger] own[j].error is DuplicateKeybind) by {
            assert(own[j].error == es[k][j]);
        }
        lemma_no_duplicate_count(own);
        lemma_duplicate_count_concat(prev, own);
        lemma_duplicate_count_concat(prev + own, out);
        assert(rs.subrange(0, k) =~= rs.drop_last());
        match rs[k] {
            Err(e) => {
                assert(bind_result_fits(c, lookups[k], rs[k]));
                assert(!(e is DuplicateKeybind));
                assert(out.drop_last() =~= Seq::<Diagnostic>::empty());
                assert(duplicate_count(Seq::<Diagnostic>::empty()) == 0);
                assert(out.last().error == e);
                assert(duplicate_count(out) == 0);
            },
            Ok(b) => {
                if has_key(keep_first(rs.drop_last()), b.key) {
                    assert(out.drop_last() =~= Seq::<Diagnostic>::empty());
                    assert(duplicate_count(Seq::<Diagnostic>::empty()) == 0);
                    assert(out.last().error == BindError::DuplicateKeybind);
                    assert(duplicate_count(out) == 1);
                } else {
                    assert(out =~= Seq::<Diagnostic>::empty());
                }
            },
        }
    }
}

proof fn lemma_keep_first_prefix(rs: Seq<Result<Bind, BindError>>, m: int)
    requires
        0 <= m <= rs.len(),
    ensures
        keep_first(rs.subrange(0, m)).len() <= keep_first(rs).len(),
        forall|t: int|
            0 <= t < keep_first(rs.subrange(0, m)).len() ==> #[trigger] keep_first(
                rs.subrange(0, m),
            )[t] == keep_first(rs)[t],
    decreases rs.len() - m,
{
    if m == rs.len() {
        assert(rs.subrange(0, m) =~= rs);
    } else {
        lemma_keep_first_prefix(rs, m + 1);
        assert(rs.subrange(0, m + 1).drop_last() =~= rs.subrange(0, m));
        let a = keep_first(rs.subrange(0, m));
        let b = keep_first(rs.subrange(0, m + 1));
        assert(a.len() <= b.len());
        assert forall|t: int| 0 <= t < a.len() implies #[trigger] a[t] == keep_first(rs)[t] by {
            assert(a[t] == b[t]);
        }
    }
}

proof fn lemma_keep_first_origin(rs: Seq<Result<Bind, BindError>>, k: Key)
    requires
        has_key(keep_first(rs), k),
    ensures
        exists|i: int| 0 <= i < rs.len() && (#[trigger] rs[i] matches Ok(b) && b.key == k),
    decreases rs.len(),
{
    let prev = keep_first(rs.drop_last());
    if has_key(prev, k) {
        lemma_keep_first_origin(rs.drop_last(), k);
        let i = choose|i: int|
            0 <= i < rs.drop_last().len() && (#[trigger] rs.drop_last()[i] matches Ok(b) && b.key
                == k);
        assert(rs[i] == rs.drop_last()[i]);
    } else {
        assert(rs[rs.len() - 1] matches Ok(b) && b.key == k);
    }
}

/// No two bindings of a decoded list share a key.
pub proof fn kept_keys_unique(rs: Seq<Result<Bind, BindError>>)
    ensures
        forall|a: int, b: int|
            0 <= a < b < keep_first(rs).len() ==> (#[trigger] keep_first(rs)[a]).key != (
            #[trigger] keep_first(rs)[b]).key,
    decreases rs.len(),
{
    if rs.len() > 0 {
        kept_keys_unique(rs.drop_last());
    }
}

/// Of the children that read to bindings with the same key, the first one
/// in document order is kept, and it alone: each later one is a duplicate,
/// and the kept list holds that key once.
pub proof fn duplicate_keys_keep_first(rs: Seq<Result<Bind, BindError>>, i: int, j: int)
    requires
        0 <= i < j < rs.len(),
        rs[i] is Ok,
        rs[j] is Ok,
        rs[i]->Ok_0.key == rs[j]->Ok_0.key,
        forall|h: int| 0 <= h < i ==> !(#[trigger] rs[h] matches Ok(b) && b.key == rs[i]->Ok_0.key),
    ensures
        is_duplicate(rs, j),
        exists|t: int| 0 <= t < keep_first(rs).len() && keep_first(rs)[t] == rs[i]->Ok_0,
        forall|t: int|
            0 <= t < keep_first(rs).len() && (#[trigger] keep_first(rs)[t]).key == rs[i]->Ok_0.key
                ==> keep_first(rs)[t] == rs[i]->Ok_0,
{
    let b = rs[i]->Ok_0;
    let pre = rs.subrange(0, i);
    if has_key(keep_first(pre), b.key) {
        lemma_keep_first_origin(pre, b.key);
        let h = choose|h: int| 0 <= h < pre.len() && (#[trigger] pre[h] matches Ok(c) && c.key == b.key);
        assert(rs[h] == pre[h]);
    }
    let upto = rs.subrange(0, i + 1);
    assert(upto.drop_last() =~= pre);
    assert(keep_first(upto) == keep_first(pre).push(b));
    let kt = keep_first(pre).len() as int;
    assert(keep_first(upto)[kt] == b);
    lemma_keep_first_prefix(rs, i + 1);
    assert(keep_first(rs)[kt] == b);
    let before_j = rs.subrange(0, j);
    assert(before_j.subrange(0, i + 1) =~= upto);
    lemma_keep_first_prefix(before_j, i + 1);
    assert(keep_first(before_j)[kt] == b);
    kept_keys_unique(rs);
}

/// A binding read from the document works on the lock screen only if its
/// action is a spawn.
pub proof fn locked_only_for_spawn(n: Node, l: KeysymLookup, r: Result<Bind, BindError>)
    requires
        bind_result_fits(n, l, r),
        r matches Ok(b) && b.allow_when_locked,
    ensures
        is_spawn(r->Ok_0.action),
{
}

/// A binding whose action toggles the shortcut inhibitor is never held back
/// by it, whatever the document says.
pub proof fn inhibitor_toggle_never_inhibited(n: Node, l: KeysymLookup, r: Result<Bind, BindError>)
    requires
        bind_result_fits(n, l, r),
        r matches Ok(b) && b.action is ToggleKeyboardShortcutsInhibit,
    ensures
        !r->Ok_0.allow_inhibiting,
{
}

} // verus!
