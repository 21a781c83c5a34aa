use npcterm::input::keys::{BaseKey, Key, Modifiers};

#[test]
fn test_parse_char() {
    assert_eq!(Key::from_str("a").unwrap(), Key::from_base(BaseKey::Char('a')));
    assert_eq!(Key::from_str("Z").unwrap(), Key::from_base(BaseKey::Char('Z')));
}

#[test]
fn test_parse_named() {
    assert_eq!(Key::from_str("Enter").unwrap().base, BaseKey::Enter);
    assert_eq!(Key::from_str("Tab").unwrap().base, BaseKey::Tab);
    assert_eq!(Key::from_str("Escape").unwrap().base, BaseKey::Escape);
    assert_eq!(Key::from_str("Delete").unwrap().base, BaseKey::Delete);
}

#[test]
fn test_parse_ctrl() {
    let key = Key::from_str("Ctrl+a").unwrap();
    assert!(key.modifiers.has_ctrl());
    assert_eq!(key.base, BaseKey::Char('a'));
}

#[test]
fn test_parse_alt() {
    let key = Key::from_str("Alt+x").unwrap();
    assert!(key.modifiers.has_alt());
    assert_eq!(key.base, BaseKey::Char('x'));
}

#[test]
fn test_parse_shift_tab() {
    let key = Key::from_str("Shift+Tab").unwrap();
    assert!(key.modifiers.has_shift());
    assert_eq!(key.base, BaseKey::Tab);
}

#[test]
fn test_parse_ctrl_shift() {
    let key = Key::from_str("Ctrl+Shift+A").unwrap();
    assert!(key.modifiers.has_ctrl());
    assert!(key.modifiers.has_shift());
    assert_eq!(key.base, BaseKey::Char('A')); // Preserves original case
}

#[test]
fn test_parse_ctrl_alt() {
    let key = Key::from_str("Ctrl+Alt+Delete").unwrap();
    assert!(key.modifiers.has_ctrl());
    assert!(key.modifiers.has_alt());
    assert_eq!(key.base, BaseKey::Delete);
}

#[test]
fn test_parse_function_keys() {
    assert_eq!(Key::from_str("F1").unwrap().base, BaseKey::F(1));
    assert_eq!(Key::from_str("F12").unwrap().base, BaseKey::F(12));
}

#[test]
fn test_escape_sequences() {
    assert_eq!(Key::from_base(BaseKey::Enter).to_escape_sequence(false), vec![b'\r']);
    assert_eq!(Key::ctrl(BaseKey::Char('c')).to_escape_sequence(false), vec![0x03]);
    assert_eq!(Key::ctrl(BaseKey::Char('d')).to_escape_sequence(false), vec![0x04]);
    assert_eq!(Key::from_base(BaseKey::Up).to_escape_sequence(false), b"\x1b[A".to_vec());
    assert_eq!(Key::from_base(BaseKey::Up).to_escape_sequence(true), b"\x1bOA".to_vec());
    assert_eq!(Key::from_base(BaseKey::F(1)).to_escape_sequence(false), b"\x1bOP".to_vec());
    assert_eq!(Key::shift(BaseKey::Tab).to_escape_sequence(false), b"\x1b[Z".to_vec());
}

#[test]
fn test_alt_char() {
    let key = Key::alt(BaseKey::Char('a'));
    let seq = key.to_escape_sequence(false);
    assert_eq!(seq, vec![0x1b, b'a']);
}

#[test]
fn test_display() {
    assert_eq!(Key::from_str("Ctrl+C").unwrap().to_string(), "Ctrl+C");
    assert_eq!(Key::from_str("Ctrl+Alt+F1").unwrap().to_string(), "Ctrl+Alt+F1");
}

#[test]
fn modifiers_join() {
    assert!((Modifiers::ctrl() | Modifiers::shift()).has_shift());
}

#[test]
fn modifiers_hold_what_was_added() {
    let mut held = Modifiers::none();
    assert!(!held.has_ctrl() && !held.has_alt() && !held.has_shift());
    held.add(Modifiers::alt());
    held.add(Modifiers::alt());
    assert!(!held.has_ctrl() && held.has_alt() && !held.has_shift());
    held.add(Modifiers::ctrl());
    assert!(held.has_ctrl() && held.has_alt() && !held.has_shift());
    assert_eq!(held, Modifiers::ctrl() | Modifiers::alt());
    assert_eq!(Modifiers::default(), Modifiers::none());
}

#[test]
fn modifier_names_are_a_set_in_any_case() {
    let key = Key::from_str("SHIFT+ctrl+Shift+aLt+x").unwrap();
    assert_eq!(key.modifiers, Modifiers::ctrl() | Modifiers::alt() | Modifiers::shift());
    assert_eq!(key.to_string(), "Ctrl+Alt+Shift+x");
    // An empty name stands for no modifier.
    assert_eq!(Key::from_str("+x").unwrap(), Key::from_base(BaseKey::Char('x')));
}

#[test]
fn same_parts_name_the_same_key() {
    let key = Key::from_str("Ctrl+Alt+PageUp").unwrap();
    for name in ["ALT+ctrl+ALT+pAgEuP", "++alt++CTRL+PAGEUP", "alt+Ctrl+pageup"] {
        assert_eq!(Key::from_str(name).unwrap(), key);
    }
    assert_ne!(Key::from_str("Ctrl+a").unwrap(), Key::from_str("Ctrl+A").unwrap());
    assert!(Key::from_str("ctrl+HYPER+x").is_err() && Key::from_str("Hyper+CTRL+x").is_err());
    // The case of ASCII letters does not matter beside other characters either.
    assert_eq!(Key::from_str("BAC\u{212a}SPACE").unwrap().base, BaseKey::Backspace);
    assert_eq!(
        Key::from_str("F\u{3a3}A\u{3a3}").unwrap_err(),
        format!("Invalid function key: {}", "F\u{3a3}A\u{3a3}".to_lowercase())
    );
}

#[test]
fn every_alias_is_read() {
    let names = [
        ("RETURN", BaseKey::Enter),
        ("esc", BaseKey::Escape),
        ("bs", BaseKey::Backspace),
        ("Backspace", BaseKey::Backspace),
        ("del", BaseKey::Delete),
        ("up", BaseKey::Up),
        ("DOWN", BaseKey::Down),
        ("Left", BaseKey::Left),
        ("right", BaseKey::Right),
        ("Home", BaseKey::Home),
        ("End", BaseKey::End),
        ("PageUp", BaseKey::PageUp),
        ("page_up", BaseKey::PageUp),
        ("PgUp", BaseKey::PageUp),
        ("PageDown", BaseKey::PageDown),
        ("page_down", BaseKey::PageDown),
        ("pgdn", BaseKey::PageDown),
        ("Space", BaseKey::Char(' ')),
        (" ", BaseKey::Char(' ')),
        ("f7", BaseKey::F(7)),
        ("F007", BaseKey::F(7)),
    ];
    for (name, base) in names {
        assert_eq!(Key::from_str(name).unwrap(), Key::from_base(base), "{}", name);
    }
}

#[test]
fn lower_case_goes_by_unicode() {
    // The Kelvin sign has the lower-case form `k`.
    assert_eq!(Key::from_str("bac\u{212a}space").unwrap().base, BaseKey::Backspace);
    assert_eq!(Key::from_str("F\u{c9}").unwrap_err(), "Invalid function key: f\u{e9}");
}

#[test]
fn unreadable_names_say_why() {
    assert_eq!(Key::from_str("Hyper+a").unwrap_err(), "Unknown modifier: Hyper");
    assert_eq!(Key::from_str("Ctrl+Hyper+Super+a").unwrap_err(), "Unknown modifier: Hyper");
    assert_eq!(Key::from_str("").unwrap_err(), "Unknown key: ");
    assert_eq!(Key::from_str("Ctrl+").unwrap_err(), "Unknown key: ");
    assert_eq!(Key::from_str("Bogus").unwrap_err(), "Unknown key: Bogus");
    assert_eq!(Key::from_str("\u{7f}").unwrap_err(), "Unknown key: \u{7f}");
    assert_eq!(Key::from_str("\u{e9}").unwrap_err(), "Unknown key: \u{e9}");
    assert_eq!(Key::from_str("F0").unwrap_err(), "Function key F0 out of range (1-12)");
    assert_eq!(Key::from_str("F13").unwrap_err(), "Function key F13 out of range (1-12)");
    assert_eq!(Key::from_str("F255").unwrap_err(), "Function key F255 out of range (1-12)");
    assert_eq!(Key::from_str("F256").unwrap_err(), "Invalid function key: f256");
    assert_eq!(Key::from_str("Foo").unwrap_err(), "Invalid function key: foo");
}

#[test]
fn all_printable_characters_name_themselves() {
    for c in ' '..='~' {
        if c != '+' {
            let key = Key::from_str(&c.to_string()).unwrap();
            assert_eq!(key, Key::from_base(BaseKey::Char(c)));
            assert_eq!(key.to_string(), c.to_string());
        }
    }
    assert_eq!(Key::from_str("+").unwrap_err(), "Unknown key: ");
}

#[test]
fn written_names_read_back() {
    let bases = [
        BaseKey::Char('q'),
        BaseKey::Char('Q'),
        BaseKey::Char(' '),
        BaseKey::Enter,
        BaseKey::Tab,
        BaseKey::Escape,
        BaseKey::Backspace,
        BaseKey::Delete,
        BaseKey::Up,
        BaseKey::Down,
        BaseKey::Left,
        BaseKey::Right,
        BaseKey::Home,
        BaseKey::End,
        BaseKey::PageUp,
        BaseKey::PageDown,
        BaseKey::F(1),
        BaseKey::F(12),
    ];
    for base in bases {
        for bits in 0..8 {
            let mut modifiers = Modifiers::none();
            if bits & 1 != 0 {
                modifiers.add(Modifiers::ctrl());
            }
            if bits & 2 != 0 {
                modifiers.add(Modifiers::alt());
            }
            if bits & 4 != 0 {
                modifiers.add(Modifiers::shift());
            }
            let key = Key { base: base.clone(), modifiers };
            assert_eq!(Key::from_str(&key.to_string()).unwrap(), key);
            assert!(!key.to_escape_sequence(false).is_empty());
        }
    }
}

#[test]
fn every_base_key_sends_its_bytes() {
    let plain: [(BaseKey, &[u8]); 14] = [
        (BaseKey::Char('a'), b"a"),
        (BaseKey::Char('\u{e9}'), b"\xc3\xa9"),
        (BaseKey::Char('\u{20ac}'), b"\xe2\x82\xac"),
        (BaseKey::Char('\u{1f600}'), b"\xf0\x9f\x98\x80"),
        (BaseKey::Enter, b"\r"),
        (BaseKey::Tab, b"\t"),
        (BaseKey::Escape, b"\x1b"),
        (BaseKey::Backspace, b"\x7f"),
        (BaseKey::Delete, b"\x1b[3~"),
        (BaseKey::Home, b"\x1b[H"),
        (BaseKey::End, b"\x1b[F"),
        (BaseKey::PageUp, b"\x1b[5~"),
        (BaseKey::PageDown, b"\x1b[6~"),
        (BaseKey::F(13), b""),
    ];
    for (base, bytes) in plain {
        let key = Key::from_base(base);
        assert_eq!(key.to_escape_sequence(false), bytes.to_vec());
        assert_eq!(key.to_escape_sequence(true), bytes.to_vec());
    }
}

#[test]
fn arrows_follow_the_cursor_mode() {
    let arrows = [
        (BaseKey::Up, b'A'),
        (BaseKey::Down, b'B'),
        (BaseKey::Right, b'C'),
        (BaseKey::Left, b'D'),
    ];
    for (base, letter) in arrows {
        let key = Key::from_base(base.clone());
        assert_eq!(key.to_escape_sequence(false), vec![0x1b, b'[', letter]);
        assert_eq!(key.to_escape_sequence(true), vec![0x1b, b'O', letter]);
        // Neither Ctrl nor Shift changes them.
        assert_eq!(Key::ctrl(base.clone()).to_escape_sequence(true), vec![0x1b, b'O', letter]);
        assert_eq!(Key::shift(base).to_escape_sequence(false), vec![0x1b, b'[', letter]);
    }
}

#[test]
fn function_keys_send_their_bytes() {
    let sequences: [&[u8]; 12] = [
        b"\x1bOP", b"\x1bOQ", b"\x1bOR", b"\x1bOS", b"\x1b[15~", b"\x1b[17~", b"\x1b[18~",
        b"\x1b[19~", b"\x1b[20~", b"\x1b[21~", b"\x1b[23~", b"\x1b[24~",
    ];
    for (i, bytes) in sequences.iter().enumerate() {
        assert_eq!(Key::from_base(BaseKey::F(i as u8 + 1)).to_escape_sequence(false), bytes.to_vec());
    }
}

#[test]
fn ctrl_counts_letters() {
    for (i, c) in ('a'..='z').enumerate() {
        let code = vec![i as u8 + 1];
        assert_eq!(Key::ctrl(BaseKey::Char(c)).to_escape_sequence(false), code);
        assert_eq!(Key::ctrl(BaseKey::Char(c.to_ascii_uppercase())).to_escape_sequence(false), code);
    }
    assert_eq!(Key::ctrl(BaseKey::Char(' ')).to_escape_sequence(false), vec![0]);
    assert_eq!(Key::ctrl(BaseKey::Char('3')).to_escape_sequence(false), vec![b'3']);
    // Any other character is cut to a byte.
    assert_eq!(Key::ctrl(BaseKey::Char('\u{20ac}')).to_escape_sequence(false), vec![0xac]);
    assert_eq!(Key::ctrl(BaseKey::Tab).to_escape_sequence(false), vec![0x09]);
    assert_eq!(Key::ctrl(BaseKey::Enter).to_escape_sequence(false), vec![0x0d]);
    assert_eq!(Key::ctrl(BaseKey::Escape).to_escape_sequence(false), vec![0x1b]);
    assert_eq!(Key::ctrl(BaseKey::Delete).to_escape_sequence(false), b"\x1b[3~".to_vec());
}

#[test]
fn shift_changes_letters_and_tab() {
    assert_eq!(Key::shift(BaseKey::Char('x')).to_escape_sequence(false), b"X".to_vec());
    assert_eq!(Key::shift(BaseKey::Char('1')).to_escape_sequence(false), b"1".to_vec());
    assert_eq!(Key::shift(BaseKey::Char('\u{e9}')).to_escape_sequence(false), b"\xc3\xa9".to_vec());
    assert_eq!(Key::shift(BaseKey::Enter).to_escape_sequence(false), b"\r".to_vec());
    // With Ctrl held Shift has no say.
    let both = Key::from_str("Ctrl+Shift+Tab").unwrap();
    assert_eq!(both.to_escape_sequence(false), vec![0x09]);
}

#[test]
fn alt_puts_an_escape_in_front() {
    for name in ["a", "Enter", "F5", "Up", "Shift+Tab", "Ctrl+c"] {
        let plain = Key::from_str(name).unwrap().to_escape_sequence(false);
        let alt = Key::from_str(&format!("Alt+{}", name)).unwrap().to_escape_sequence(false);
        assert_eq!(alt[0], 0x1b);
        assert_eq!(alt[1..].to_vec(), plain);
    }
}
