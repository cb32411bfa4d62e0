use vstd::prelude::*;

use crate::modifiers::{
    Modifiers, ALT, COMPOSITOR, CTRL, ISO_LEVEL3_SHIFT, ISO_LEVEL5_SHIFT, SHIFT, SUPER,
};
use crate::text::{
    eq_ignore_case, split_on, split_str, str_eq_ignore_ascii_case, trim, trim_str,
    lemma_eq_ignore_case_equiv, lemma_split_ignore_case, lemma_split_on_nonempty,
    lemma_trim_ignore_case,
};

verus! {

/// The keysym table's answer for a name it does not know.
pub const KEY_NO_SYMBOL: u32 = 0;

/// `XF86ScreenSaver`, the spelling that the keysym table ranks first.
pub const KEY_XF86_SCREEN_SAVER: u32 = 0x1008ff2d;

/// `XF86Screensaver`, which a case-insensitive lookup prefers.
pub const KEY_XF86_SCREENSAVER: u32 = 0x10081245;

/// What sets off a binding: a keysym, a mouse button or a scroll direction.
#[derive(Debug, Clone, Copy, PartialEq, Eq, Hash, Structural)]
pub enum Trigger {
    Keysym(u32),
    MouseLeft,
    MouseRight,
    MouseMiddle,
    MouseBack,
    MouseForward,
    WheelScrollDown,
    WheelScrollUp,
    WheelScrollLeft,
    WheelScrollRight,
    TouchpadScrollDown,
    TouchpadScrollUp,
    TouchpadScrollLeft,
    TouchpadScrollRight,
}

/// A trigger together with the modifiers held with it.
#[derive(Debug, Clone, Copy, PartialEq, Eq, Hash, Structural)]
pub struct Key {
    pub trigger: Trigger,
    pub modifiers: Modifiers,
}

/// The keysym table's answers for the key token of a combo: once ignoring
/// case, once matching it exactly. Each is `KEY_NO_SYMBOL` where the name is
/// unknown.
#[derive(Debug, Clone, Copy, PartialEq, Eq, Structural)]
pub struct KeysymLookup {
    pub case_insensitive: u32,
    pub case_sensitive: u32,
}

/// Why a key combo was refused; each carries the offending token.
#[derive(Debug, Clone, PartialEq, Eq)]
pub enum KeyError {
    InvalidModifier(String),
    InvalidKey(String),
}

/// The modifier bit that a token names, ignoring ASCII case.
pub open spec fn modifier_bit(t: Seq<char>) -> Option<u8> {
    if eq_ignore_case(t, "mod"@) {
        Some(COMPOSITOR)
    } else if eq_ignore_case(t, "ctrl"@) || eq_ignore_case(t, "control"@) {
        Some(CTRL)
    } else if eq_ignore_case(t, "shift"@) {
        Some(SHIFT)
    } else if eq_ignore_case(t, "alt"@) {
        Some(ALT)
    } else if eq_ignore_case(t, "super"@) || eq_ignore_case(t, "win"@) {
        Some(SUPER)
    } else if eq_ignore_case(t, "iso_level3_shift"@) || eq_ignore_case(t, "mod5"@) {
        Some(ISO_LEVEL3_SHIFT)
    } else if eq_ignore_case(t, "iso_level5_shift"@) || eq_ignore_case(t, "mod3"@) {
        Some(ISO_LEVEL5_SHIFT)
    } else {
        None
    }
}

/// The mouse and scroll triggers, by name, ignoring ASCII case.
pub open spec fn named_trigger(t: Seq<char>) -> Option<Trigger> {
    if eq_ignore_case(t, "MouseLeft"@) {
        Some(Trigger::MouseLeft)
    } else if eq_ignore_case(t, "MouseRight"@) {
        Some(Trigger::MouseRight)
    } else if eq_ignore_case(t, "MouseMiddle"@) {
        Some(Trigger::MouseMiddle)
    } else if eq_ignore_case(t, "MouseBack"@) {
        Some(Trigger::MouseBack)
    } else if eq_ignore_case(t, "MouseForward"@) {
        Some(Trigger::MouseForward)
    } else if eq_ignore_case(t, "WheelScrollDown"@) {
        Some(Trigger::WheelScrollDown)
    } else if eq_ignore_case(t, "WheelScrollUp"@) {
        Some(Trigger::WheelScrollUp)
    } else if eq_ignore_case(t, "WheelScrollLeft"@) {
        Some(Trigger::WheelScrollLeft)
    } else if eq_ignore_case(t, "WheelScrollRight"@) {
        Some(Trigger::WheelScrollRight)
    } else if eq_ignore_case(t, "TouchpadScrollDown"@) {
        Some(Trigger::TouchpadScrollDown)
    } else if eq_ignore_case(t, "TouchpadScrollUp"@) {
        Some(Trigger::TouchpadScrollUp)
    } else if eq_ignore_case(t, "TouchpadScrollLeft"@) {
        Some(Trigger::TouchpadScrollLeft)
    } else if eq_ignore_case(t, "TouchpadScrollRight"@) {
        Some(Trigger::TouchpadScrollRight)
    } else {
        None
    }
}

/// The keysym that a lookup settles on. The case-insensitive answer stands,
/// except where it is the lower-case screensaver spelling: then the exact
/// answer stands, and failing that the upper-case spelling.
pub open spec fn chosen_keysym(l: KeysymLookup) -> Option<u32> {
    let k = if l.case_insensitive == KEY_XF86_SCREENSAVER {
        if l.case_sensitive == KEY_NO_SYMBOL {
            KEY_XF86_SCREEN_SAVER
        } else {
            l.case_sensitive
        }
    } else {
        l.case_insensitive
    };
    if k == KEY_NO_SYMBOL {
        None
    } else {
        Some(k)
    }
}

/// The trigger that a key token stands for.
pub open spec fn trigger_of(t: Seq<char>, l: KeysymLookup) -> Option<Trigger> {
    match named_trigger(t) {
        Some(tr) => Some(tr),
        None => match chosen_keysym(l) {
            Some(k) => Some(Trigger::Keysym(k)),
            None => None,
        },
    }
}

/// The modifiers that a list of tokens names, each trimmed; or the first
/// token that names none.
pub open spec fn modifiers_of(toks: Seq<Seq<char>>) -> Result<u8, Seq<char>>
    decreases toks.len(),
{
    if toks.len() == 0 {
        Ok(0u8)
    } else {
        match modifiers_of(toks.drop_last()) {
            Err(e) => Err(e),
            Ok(m) => match modifier_bit(trim(toks.last())) {
                Some(b) => Ok(m | b),
                None => Err(trim(toks.last())),
            },
        }
    }
}

/// The last `+`-separated piece of a combo: the key.
pub open spec fn key_token_of(s: Seq<char>) -> Seq<char> {
    split_on(s, '+').last()
}

/// The pieces before the key: the modifiers.
pub open spec fn modifier_tokens_of(s: Seq<char>) -> Seq<Seq<char>> {
    split_on(s, '+').drop_last()
}

/// `r` is what parsing the combo `s` gives, with `l` the keysym table's
/// answers for its key token.
pub open spec fn parses_to(s: Seq<char>, l: KeysymLookup, r: Result<Key, KeyError>) -> bool {
    match modifiers_of(modifier_tokens_of(s)) {
        Err(t) => match r {
            Err(KeyError::InvalidModifier(m)) => m@ == t,
            _ => false,
        },
        Ok(m) => match trigger_of(key_token_of(s), l) {
            None => match r {
                Err(KeyError::InvalidKey(k)) => k@ == key_token_of(s),
                _ => false,
            },
            Some(tr) => match r {
                Ok(k) => k.trigger == tr && k.modifiers@ == m && k.modifiers.wf(),
                _ => false,
            },
        },
    }
}

fn modifier_bit_of(t: &str) -> (r: Option<u8>)
    ensures
        r == modifier_bit(t@),
{
    if str_eq_ignore_ascii_case(t, "mod") {
        Some(COMPOSITOR)
    } else if str_eq_ignore_ascii_case(t, "ctrl") || str_eq_ignore_ascii_case(t, "control") {
        Some(CTRL)
    } else if str_eq_ignore_ascii_case(t, "shift") {
        Some(SHIFT)
    } else if str_eq_ignore_ascii_case(t, "alt") {
        Some(ALT)
    } else if str_eq_ignore_ascii_case(t, "super") || str_eq_ignore_ascii_case(t, "win") {
        Some(SUPER)
    } else if str_eq_ignore_ascii_case(t, "iso_level3_shift") || str_eq_ignore_ascii_case(
        t,
        "mod5",
    ) {
        Some(ISO_LEVEL3_SHIFT)
    } else if str_eq_ignore_ascii_case(t, "iso_level5_shift") || str_eq_ignore_ascii_case(
        t,
        "mod3",
    ) {
        Some(ISO_LEVEL5_SHIFT)
    } else {
        None
    }
}

fn named_trigger_of(t: &str) -> (r: Option<Trigger>)
    ensures
        r == named_trigger(t@),
{
    if str_eq_ignore_ascii_case(t, "MouseLeft") {
        Some(Trigger::MouseLeft)
    } else if str_eq_ignore_ascii_case(t, "MouseRight") {
        Some(Trigger::MouseRight)
    } else if str_eq_ignore_ascii_case(t, "MouseMiddle") {
        Some(Trigger::MouseMiddle)
    } else if str_eq_ignore_ascii_case(t, "MouseBack") {
        Some(Trigger::MouseBack)
    } else if str_eq_ignore_ascii_case(t, "MouseForward") {
        Some(Trigger::MouseForward)
    } else if str_eq_ignore_ascii_case(t, "WheelScrollDown") {
        Some(Trigger::WheelScrollDown)
    } else if str_eq_ignore_ascii_case(t, "WheelScrollUp") {
        Some(Trigger::WheelScrollUp)
    } else if str_eq_ignore_ascii_case(t, "WheelScrollLeft") {
        Some(Trigger::WheelScrollLeft)
    } else if str_eq_ignore_ascii_case(t, "WheelScrollRight") {
        Some(Trigger::WheelScrollRight)
    } else if str_eq_ignore_ascii_case(t, "TouchpadScrollDown") {
        Some(Trigger::TouchpadScrollDown)
    } else if str_eq_ignore_ascii_case(t, "TouchpadScrollUp") {
        Some(Trigger::TouchpadScrollUp)
    } else if str_eq_ignore_ascii_case(t, "TouchpadScrollLeft") {
        Some(Trigger::TouchpadScrollLeft)
    } else if str_eq_ignore_ascii_case(t, "TouchpadScrollRight") {
        Some(Trigger::TouchpadScrollRight)
    } else {
        None
    }
}

/// The keysym that the table's answers settle on, if any.
pub fn resolve_keysym(l: KeysymLookup) -> (r: Option<u32>)
    ensures
        r == chosen_keysym(l),
{
    let k = if l.case_insensitive == KEY_XF86_SCREENSAVER {
        if l.case_sensitive == KEY_NO_SYMBOL {
            KEY_XF86_SCREEN_SAVER
        } else {
            l.case_sensitive
        }
    } else {
        l.case_insensitive
    };
    if k == KEY_NO_SYMBOL {
        None
    } else {
        Some(k)
    }
}

/// The key token of a combo: what follows its last `+`. This is the name to
/// look up in the keysym table before parsing the combo.
pub fn key_token(s: &str) -> (r: &str)
    ensures
        r@ == key_token_of(s@),
{
    let parts = split_str(s, '+');
    proof {
        lemma_split_on_nonempty(s@, '+');
    }
    parts[parts.len() - 1]
}

impl Key {
    /// Parses a combo such as `Mod+Shift+Left`: modifier names, then the key,
    /// joined by `+`. Names are matched ignoring ASCII case; `l` holds the
    /// keysym table's answers for the key token (see `key_token`).
    pub fn parse(s: &str, l: KeysymLookup) -> (r: Result<Key, KeyError>)
        ensures
            parses_to(s@, l, r),
    {
        let parts = split_str(s, '+');
        let ghost sp = split_on(s@, '+');
        proof {
            lemma_split_on_nonempty(s@, '+');
        }
        let n = parts.len() - 1;
        let mut mods = Modifiers::empty();
        let mut i: usize = 0;
        while i < n
            invariant
                n + 1 == parts@.len(),
                parts@.len() == sp.len(),
                sp == split_on(s@, '+'),
                forall|k: int| 0 <= k < parts@.len() ==> (#[trigger] parts@[k])@ == sp[k],
                i <= n,
                mods.wf(),
                modifiers_of(sp.subrange(0, i as int)) == Ok::<u8, Seq<char>>(mods@),
            decreases n - i,
        {
            let part = trim_str(parts[i]);
            proof {
                assert(sp.subrange(0, i + 1).drop_last() =~= sp.subrange(0, i as int));
                assert(sp.subrange(0, i + 1).last() == sp[i as int]);
            }
            match modifier_bit_of(part) {
                Some(b) => {
                    let add = Modifiers::from_bits_truncate(b);
                    proof {
                        assert(b <= 127u8 ==> b & 127u8 == b) by (bit_vector);
                    }
                    mods = mods.union(&add);
                },
                None => {
                    proof {
                        assert(sp.subrange(0, n as int).subrange(0, i + 1) =~= sp.subrange(
                            0,
                            i + 1,
                        ));
                        lemma_modifiers_prefix_err(sp.subrange(0, n as int), i + 1);
                        assert(sp.subrange(0, n as int) =~= modifier_tokens_of(s@));
                    }
                    return Err(KeyError::InvalidModifier(String::from_str(part)));
                },
            }
            i += 1;
        }
        proof {
            assert(sp.subrange(0, n as int) =~= modifier_tokens_of(s@));
        }
        let key = parts[n];
        let trigger = match named_trigger_of(key) {
            Some(t) => t,
            None => match resolve_keysym(l) {
                Some(k) => Trigger::Keysym(k),
                None => {
                    return Err(KeyError::InvalidKey(String::from_str(key)));
                },
            },
        };
        Ok(Key { trigger, modifiers: mods })
    }
}

/// Once a prefix of the tokens names an invalid modifier, so does the whole.
proof fn lemma_modifiers_prefix_err(toks: Seq<Seq<char>>, i: int)
    requires
        0 <= i <= toks.len(),
        modifiers_of(toks.subrange(0, i)) is Err,
    ensures
        modifiers_of(toks) == modifiers_of(toks.subrange(0, i)),
    decreases toks.len() - i,
{
    if i < toks.len() {
        assert(toks.subrange(0, i + 1).drop_last() =~= toks.subrange(0, i));
        lemma_modifiers_prefix_err(toks, i + 1);
    } else {
        assert(toks.subrange(0, i) =~= toks);
    }
}

proof fn lemma_same_against(a: Seq<char>, b: Seq<char>, lit: Seq<char>)
    requires
        eq_ignore_case(a, b),
    ensures
        eq_ignore_case(a, lit) == eq_ignore_case(b, lit),
{
    lemma_eq_ignore_case_equiv(a, b, lit);
    lemma_eq_ignore_case_equiv(b, a, lit);
}

proof fn lemma_modifier_bit_ignore_case(a: Seq<char>, b: Seq<char>)
    requires
        eq_ignore_case(a, b),
    ensures
        modifier_bit(a) == modifier_bit(b),
{
    lemma_same_against(a, b, "mod"@);
    lemma_same_against(a, b, "ctrl"@);
    lemma_same_against(a, b, "control"@);
    lemma_same_against(a, b, "shift"@);
    lemma_same_against(a, b, "alt"@);
    lemma_same_against(a, b, "super"@);
    lemma_same_against(a, b, "win"@);
    lemma_same_against(a, b, "iso_level3_shift"@);
    lemma_same_against(a, b, "mod5"@);
    lemma_same_against(a, b, "iso_level5_shift"@);
    lemma_same_against(a, b, "mod3"@);
}

proof fn lemma_named_trigger_ignore_case(a: Seq<char>, b: Seq<char>)
    requires
        eq_ignore_case(a, b),
    ensures
        named_trigger(a) == named_trigger(b),
{
    lemma_same_against(a, b, "MouseLeft"@);
    lemma_same_against(a, b, "MouseRight"@);
    lemma_same_against(a, b, "MouseMiddle"@);
    lemma_same_against(a, b, "MouseBack"@);
    lemma_same_against(a, b, "MouseForward"@);
    lemma_same_against(a, b, "WheelScrollDown"@);
    lemma_same_against(a, b, "WheelScrollUp"@);
    lemma_same_against(a, b, "WheelScrollLeft"@);
    lemma_same_against(a, b, "WheelScrollRight"@);
    lemma_same_against(a, b, "TouchpadScrollDown"@);
    lemma_same_against(a, b, "TouchpadScrollUp"@);
    lemma_same_against(a, b, "TouchpadScrollLeft"@);
    lemma_same_against(a, b, "TouchpadScrollRight"@);
}

proof fn lemma_modifiers_of_ignore_case(a: Seq<Seq<char>>, b: Seq<Seq<char>>)
    requires
        a.len() == b.len(),
        forall|i: int| 0 <= i < a.len() ==> eq_ignore_case(#[trigger] a[i], b[i]),
    ensures
        (modifiers_of(a) is Ok) == (modifiers_of(b) is Ok),
        modifiers_of(a) is Ok ==> modifiers_of(a) == modifiers_of(b),
    decreases a.len(),
{
    if a.len() > 0 {
        assert forall|i: int| 0 <= i < a.drop_last().len() implies eq_ignore_case(
            #[trigger] a.drop_last()[i],
            b.drop_last()[i],
        ) by {
            assert(eq_ignore_case(a[i], b[i]));
        }
        lemma_modifiers_of_ignore_case(a.drop_last(), b.drop_last());
        assert(eq_ignore_case(a[a.len() - 1], b[b.len() - 1]));
        lemma_trim_ignore_case(a.last(), b.last());
        lemma_modifier_bit_ignore_case(trim(a.last()), trim(b.last()));
    }
}

/// Key combos that differ only in the case of ASCII letters parse alike:
/// both fail, or both give the same key. This holds wherever the keysym
/// table answers alike for the two key tokens when asked to ignore case,
/// which it does for every name but the screensaver one, whose two
/// spellings the table keeps apart.
pub proof fn parse_ignores_case(
    s1: Seq<char>,
    s2: Seq<char>,
    l1: KeysymLookup,
    l2: KeysymLookup,
    r1: Result<Key, KeyError>,
    r2: Result<Key, KeyError>,
)
    requires
        eq_ignore_case(s1, s2),
        l1.case_insensitive == l2.case_insensitive,
        l1.case_insensitive != KEY_XF86_SCREENSAVER,
        parses_to(s1, l1, r1),
        parses_to(s2, l2, r2),
    ensures
        (r1 is Ok) == (r2 is Ok),
        r1 is Ok ==> r1->Ok_0 == r2->Ok_0,
{
    lemma_split_ignore_case(s1, s2, '+');
    lemma_split_on_nonempty(s1, '+');
    let first_parts = split_on(s1, '+');
    let second_parts = split_on(s2, '+');
    assert forall|i: int| 0 <= i < first_parts.drop_last().len() implies eq_ignore_case(
        #[trigger] first_parts.drop_last()[i],
        second_parts.drop_last()[i],
    ) by {
        assert(eq_ignore_case(first_parts[i], second_parts[i]));
    }
    lemma_modifiers_of_ignore_case(first_parts.drop_last(), second_parts.drop_last());
    assert(eq_ignore_case(first_parts[first_parts.len() - 1], second_parts[second_parts.len() - 1]));
    lemma_named_trigger_ignore_case(first_parts.last(), second_parts.last());
    if r1 is Ok && r2 is Ok {
        Modifiers::lemma_view_eq(r1->Ok_0.modifiers, r2->Ok_0.modifiers);
    }
}

} // verus!
