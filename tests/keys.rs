use niri_binds::key::{
    key_token, resolve_keysym, Key, KeyError, KeysymLookup, Trigger, KEY_NO_SYMBOL,
    KEY_XF86_SCREENSAVER, KEY_XF86_SCREEN_SAVER,
};
use niri_binds::modifiers::{
    ModKey, Modifiers, ALT, COMPOSITOR, CTRL, ISO_LEVEL3_SHIFT, ISO_LEVEL5_SHIFT, SHIFT, SUPER,
};

const KEY_A_SMALL: u32 = 0x61;
const KEY_A_CAPITAL: u32 = 0x41;
const KEY_RETURN: u32 = 0xff0d;

// What libxkbcommon answers for the names used below.
fn lookup_a(exact_capital: bool) -> KeysymLookup {
    KeysymLookup {
        case_insensitive: KEY_A_SMALL,
        case_sensitive: if exact_capital { KEY_A_CAPITAL } else { KEY_A_SMALL },
    }
}

fn no_symbol() -> KeysymLookup {
    KeysymLookup { case_insensitive: KEY_NO_SYMBOL, case_sensitive: KEY_NO_SYMBOL }
}

fn key(trigger: Trigger, bits: u8) -> Key {
    Key { trigger, modifiers: Modifiers::from_bits_truncate(bits) }
}

#[test]
fn parse_xf86_screensaver() {
    // Ignoring case, the table prefers the lower-case spelling.
    let upper = KeysymLookup {
        case_insensitive: KEY_XF86_SCREENSAVER,
        case_sensitive: KEY_XF86_SCREEN_SAVER,
    };
    let lower = KeysymLookup {
        case_insensitive: KEY_XF86_SCREENSAVER,
        case_sensitive: KEY_XF86_SCREENSAVER,
    };
    let neither = KeysymLookup {
        case_insensitive: KEY_XF86_SCREENSAVER,
        case_sensitive: KEY_NO_SYMBOL,
    };
    assert_eq!(
        Key::parse("XF86ScreenSaver", upper).unwrap(),
        key(Trigger::Keysym(KEY_XF86_SCREEN_SAVER), 0),
    );
    assert_eq!(
        Key::parse("XF86Screensaver", lower).unwrap(),
        key(Trigger::Keysym(KEY_XF86_SCREENSAVER), 0),
    );
    assert_eq!(
        Key::parse("xf86screensaver", neither).unwrap(),
        key(Trigger::Keysym(KEY_XF86_SCREEN_SAVER), 0),
    );
    assert_ne!(
        Key::parse("XF86ScreenSaver", upper).unwrap(),
        Key::parse("XF86Screensaver", lower).unwrap(),
    );
}

#[test]
fn parse_iso_level_shifts() {
    assert_eq!(
        Key::parse("ISO_Level3_Shift+A", lookup_a(true)).unwrap(),
        key(Trigger::Keysym(KEY_A_SMALL), ISO_LEVEL3_SHIFT),
    );
    assert_eq!(
        Key::parse("Mod5+A", lookup_a(true)).unwrap(),
        key(Trigger::Keysym(KEY_A_SMALL), ISO_LEVEL3_SHIFT),
    );
    assert_eq!(
        Key::parse("ISO_Level5_Shift+A", lookup_a(true)).unwrap(),
        key(Trigger::Keysym(KEY_A_SMALL), ISO_LEVEL5_SHIFT),
    );
    assert_eq!(
        Key::parse("Mod3+A", lookup_a(true)).unwrap(),
        key(Trigger::Keysym(KEY_A_SMALL), ISO_LEVEL5_SHIFT),
    );
    assert_ne!(
        Key::parse("Mod5+A", lookup_a(true)).unwrap(),
        Key::parse("Mod3+A", lookup_a(true)).unwrap(),
    );
}

#[test]
fn combos_ignore_case() {
    let a = Key::parse("ctrl+a", lookup_a(false)).unwrap();
    let b = Key::parse("CTRL+A", lookup_a(true)).unwrap();
    let c = Key::parse("Ctrl+a", lookup_a(false)).unwrap();
    assert_eq!(a, b);
    assert_eq!(a, c);
    assert_eq!(a, key(Trigger::Keysym(KEY_A_SMALL), CTRL));
}

#[test]
fn modifier_aliases() {
    let k = Key::parse("Mod+Shift+Control+Alt+Win+Return", KeysymLookup {
        case_insensitive: KEY_RETURN,
        case_sensitive: KEY_RETURN,
    })
    .unwrap();
    assert_eq!(k, key(Trigger::Keysym(KEY_RETURN), COMPOSITOR | SHIFT | CTRL | ALT | SUPER));
    assert_eq!(k.modifiers.bits(), 0b100_1111);
    let spaced = Key::parse(" super +return", KeysymLookup {
        case_insensitive: KEY_RETURN,
        case_sensitive: KEY_RETURN,
    })
    .unwrap();
    assert_eq!(spaced, key(Trigger::Keysym(KEY_RETURN), SUPER));
}

#[test]
fn named_triggers() {
    assert_eq!(Key::parse("Mod+WheelScrollDown", no_symbol()).unwrap(), key(
        Trigger::WheelScrollDown,
        COMPOSITOR,
    ));
    assert_eq!(Key::parse("mouseleft", no_symbol()).unwrap(), key(Trigger::MouseLeft, 0));
    assert_eq!(Key::parse("TOUCHPADSCROLLRIGHT", no_symbol()).unwrap(), key(
        Trigger::TouchpadScrollRight,
        0,
    ));
    assert_eq!(Key::parse("Alt+MouseForward", no_symbol()).unwrap(), key(
        Trigger::MouseForward,
        ALT,
    ));
}

#[test]
fn invalid_modifier_is_reported() {
    assert_eq!(
        Key::parse("Hyper+A", lookup_a(true)),
        Err(KeyError::InvalidModifier(String::from("Hyper"))),
    );
    assert_eq!(
        Key::parse("Ctrl+Foo+Bar+A", lookup_a(true)),
        Err(KeyError::InvalidModifier(String::from("Foo"))),
    );
}

#[test]
fn invalid_key_is_reported() {
    assert_eq!(
        Key::parse("Mod+NotAKey", no_symbol()),
        Err(KeyError::InvalidKey(String::from("NotAKey"))),
    );
    assert_eq!(Key::parse("Mod+", no_symbol()), Err(KeyError::InvalidKey(String::new())));
}

#[test]
fn key_token_is_last_piece() {
    assert_eq!(key_token("Mod+Shift+Left"), "Left");
    assert_eq!(key_token("Return"), "Return");
    assert_eq!(key_token("Mod+"), "");
}

#[test]
fn resolve_keysym_rules() {
    assert_eq!(resolve_keysym(no_symbol()), None);
    assert_eq!(resolve_keysym(lookup_a(true)), Some(KEY_A_SMALL));
    assert_eq!(
        resolve_keysym(KeysymLookup {
            case_insensitive: KEY_XF86_SCREENSAVER,
            case_sensitive: KEY_NO_SYMBOL,
        }),
        Some(KEY_XF86_SCREEN_SAVER),
    );
}

#[test]
fn mod_key_to_modifiers() {
    assert_eq!(ModKey::Super.to_modifiers().bits(), SUPER);
    assert_eq!(ModKey::IsoLevel3Shift.to_modifiers().bits(), ISO_LEVEL3_SHIFT);
    assert_eq!(ModKey::IsoLevel5Shift.to_modifiers().bits(), ISO_LEVEL5_SHIFT);
    assert_eq!(ModKey::Ctrl.to_modifiers().bits(), CTRL);
}

#[test]
fn mod_key_names() {
    assert_eq!(ModKey::from_name("CONTROL"), Ok(ModKey::Ctrl));
    assert_eq!(ModKey::from_name("win"), Ok(ModKey::Super));
    assert_eq!(ModKey::from_name("Mod5"), Ok(ModKey::IsoLevel3Shift));
    assert_eq!(ModKey::from_name("mod3"), Ok(ModKey::IsoLevel5Shift));
    assert_eq!(ModKey::from_name("hyper"), Err(String::from("invalid Mod key: hyper")));
}

#[test]
fn modifier_set_operations() {
    let a = Modifiers::from_bits_truncate(CTRL | SHIFT);
    let b = Modifiers::from_bits_truncate(SHIFT | ALT);
    assert_eq!(a.union(&b).bits(), CTRL | SHIFT | ALT);
    assert!(a.contains(&Modifiers::from_bits_truncate(CTRL)));
    assert!(!a.contains(&b));
    assert_eq!(Modifiers::from_bits_truncate(0xff).bits(), 0x7f);
    assert_eq!(Modifiers::empty().bits(), 0);
}
