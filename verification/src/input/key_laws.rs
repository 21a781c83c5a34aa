//! What holds of key names and of the bytes that keys send, whatever the key.
use vstd::prelude::*;
use vstd::string::*;
use vstd::utf8::*;

use crate::input::keys::{
    base_text, bytes_without_alt, ctrl_code, escape_bytes, is_printable_ascii, key_named, key_text,
    modifier_named, parse_base, parse_key, parse_modifiers, with_modifier, BaseKey, KeyView,
    ModifierSet,
};
use crate::text::{
    ascii_lower, ascii_lower_char, ascii_upper_char, decimal, equals_char, is_digit,
    lemma_decimal_reads_back, lemma_split_concat, lemma_split_nonempty, lemma_split_pieces,
    lemma_split_whole, lowercase, split,
};

verus! {

/// A base key that a name stands for: a printable ASCII character other than
/// `+`, one of F1 to F12, or any of the other keys.
pub open spec fn is_nameable(base: BaseKey) -> bool {
    match base {
        BaseKey::Char(c) => is_printable_ascii(c) && c != '+',
        BaseKey::F(n) => 1 <= n <= 12,
        _ => true,
    }
}

/// No `+` in the name of a nameable key, and the name stands for the key.
proof fn lemma_base_reads_back(base: BaseKey)
    requires
        is_nameable(base),
    ensures
        forall|i: int| 0 <= i < base_text(base).len() ==> #[trigger] base_text(base)[i] != '+',
        parse_base(base_text(base), lowercase(base_text(base))) == Ok::<BaseKey, Seq<char>>(base),
{
    reveal_strlit("enter");
    reveal_strlit("return");
    reveal_strlit("tab");
    reveal_strlit("escape");
    reveal_strlit("esc");
    reveal_strlit("backspace");
    reveal_strlit("bs");
    reveal_strlit("delete");
    reveal_strlit("del");
    reveal_strlit("up");
    reveal_strlit("down");
    reveal_strlit("left");
    reveal_strlit("right");
    reveal_strlit("home");
    reveal_strlit("end");
    reveal_strlit("pageup");
    reveal_strlit("page_up");
    reveal_strlit("pgup");
    reveal_strlit("pagedown");
    reveal_strlit("page_down");
    reveal_strlit("pgdn");
    reveal_strlit("space");
    reveal_strlit("Enter");
    reveal_strlit("Tab");
    reveal_strlit("Escape");
    reveal_strlit("Backspace");
    reveal_strlit("Delete");
    reveal_strlit("Up");
    reveal_strlit("Down");
    reveal_strlit("Left");
    reveal_strlit("Right");
    reveal_strlit("Home");
    reveal_strlit("End");
    reveal_strlit("PageUp");
    reveal_strlit("PageDown");
    reveal_strlit("F");
    match base {
        BaseKey::Char(c) => {},
        BaseKey::Enter => assert(ascii_lower("Enter"@) =~= "enter"@),
        BaseKey::Tab => assert(ascii_lower("Tab"@) =~= "tab"@),
        BaseKey::Escape => assert(ascii_lower("Escape"@) =~= "escape"@),
        BaseKey::Backspace => assert(ascii_lower("Backspace"@) =~= "backspace"@),
        BaseKey::Delete => assert(ascii_lower("Delete"@) =~= "delete"@),
        BaseKey::Up => assert(ascii_lower("Up"@) =~= "up"@),
        BaseKey::Down => assert(ascii_lower("Down"@) =~= "down"@),
        BaseKey::Left => assert(ascii_lower("Left"@) =~= "left"@),
        BaseKey::Right => assert(ascii_lower("Right"@) =~= "right"@),
        BaseKey::Home => assert(ascii_lower("Home"@) =~= "home"@),
        BaseKey::End => assert(ascii_lower("End"@) =~= "end"@),
        BaseKey::PageUp => assert(ascii_lower("PageUp"@) =~= "pageup"@),
        BaseKey::PageDown => assert(ascii_lower("PageDown"@) =~= "pagedown"@),
        BaseKey::F(n) => {
            let digits = decimal(n as nat);
            let name = base_text(base);
            lemma_decimal_reads_back(n as nat);
            assert(name == "F"@ + digits);
            assert forall|i: int| 1 <= i < name.len() implies is_digit(#[trigger] name[i]) by {
                assert(name[i] == digits[i - 1]);
            }
            let lower = ascii_lower(name);
            assert(is_ascii_chars(name));
            assert(lower.len() >= 2);
            assert(lower[0] == 'f');
            assert(is_digit(name[1]));
            assert(lower[1] == name[1]);
            assert(lower.drop_first() =~= digits);
            assert(digits[0] != '+');
            assert(key_named(lower) is None);
        },
    }
}

/// The name of a modifier stands for it.
proof fn lemma_modifiers_read_back()
    ensures
        modifier_named(lowercase("Ctrl"@)) == Some(ModifierSet::only_ctrl()),
        modifier_named(lowercase("Alt"@)) == Some(ModifierSet::only_alt()),
        modifier_named(lowercase("Shift"@)) == Some(ModifierSet::only_shift()),
        forall|i: int| 0 <= i < "Ctrl"@.len() ==> #[trigger] "Ctrl"@[i] != '+',
        forall|i: int| 0 <= i < "Alt"@.len() ==> #[trigger] "Alt"@[i] != '+',
        forall|i: int| 0 <= i < "Shift"@.len() ==> #[trigger] "Shift"@[i] != '+',
{
    reveal_strlit("Ctrl");
    reveal_strlit("ctrl");
    reveal_strlit("Alt");
    reveal_strlit("alt");
    reveal_strlit("Shift");
    reveal_strlit("shift");
    assert(ascii_lower("Ctrl"@) =~= "ctrl"@);
    assert(ascii_lower("Alt"@) =~= "alt"@);
    assert(ascii_lower("Shift"@) =~= "shift"@);
}

/// The parts of a name that begins with a modifier.
proof fn lemma_split_modifier(held: bool, name: Seq<char>, rest: Seq<char>)
    requires
        forall|i: int| 0 <= i < name.len() ==> #[trigger] name[i] != '+',
    ensures
        split(with_modifier(held, name, rest), '+') == if held {
            seq![name] + split(rest, '+')
        } else {
            split(rest, '+')
        },
{
    if held {
        lemma_split_whole(name, equals_char('+'));
        lemma_split_concat(name, '+', rest, equals_char('+'));
    }
}

/// The modifier names that a key is written with, in order.
spec fn modifier_names(held: ModifierSet) -> Seq<Seq<char>> {
    let ctrl = if held.ctrl {
        seq!["Ctrl"@]
    } else {
        Seq::empty()
    };
    let alt = if held.alt {
        seq!["Alt"@]
    } else {
        Seq::empty()
    };
    let shift = if held.shift {
        seq!["Shift"@]
    } else {
        Seq::empty()
    };
    ctrl + alt + shift
}

proof fn lemma_modifier_names_read_back(held: ModifierSet)
    ensures
        parse_modifiers(modifier_names(held)) == Ok::<ModifierSet, Seq<char>>(held),
{
    lemma_modifiers_read_back();
    reveal_with_fuel(parse_modifiers, 4);
    let names = modifier_names(held);
    let n = names.len();
    if n >= 1 {
        let a = names.drop_last();
        if n >= 2 {
            let b = a.drop_last();
            if n == 3 {
                assert(b.drop_last() =~= Seq::empty());
            } else {
                assert(b =~= Seq::empty());
            }
        } else {
            assert(a =~= Seq::empty());
        }
    }
}

/// The name that is written for a nameable key stands for that key: what is
/// written can be read back.
pub proof fn law_written_names_read_back(key: KeyView)
    requires
        is_nameable(key.base),
    ensures
        parse_key(key_text(key)) == Ok::<KeyView, Seq<char>>(key),
{
    let held = key.modifiers;
    let base = base_text(key.base);
    let from_shift = with_modifier(held.shift, "Shift"@, base);
    let from_alt = with_modifier(held.alt, "Alt"@, from_shift);
    lemma_base_reads_back(key.base);
    lemma_modifiers_read_back();
    lemma_modifier_names_read_back(held);
    lemma_split_whole(base, equals_char('+'));
    lemma_split_modifier(held.shift, "Shift"@, base);
    lemma_split_modifier(held.alt, "Alt"@, from_shift);
    lemma_split_modifier(held.ctrl, "Ctrl"@, from_alt);
    let parts = split(key_text(key), '+');
    assert(parts =~= modifier_names(held).push(base));
    assert(parts.drop_last() =~= modifier_names(held));
    assert(parts.last() == base);
}

/// Every key that a name stands for is nameable, so that writing it and reading
/// that name gives it back.
pub proof fn law_read_names_write_back(s: Seq<char>)
    requires
        parse_key(s) is Ok,
    ensures
        is_nameable(parse_key(s)->Ok_0.base),
        parse_key(key_text(parse_key(s)->Ok_0)) == parse_key(s),
{
    let parts = split(s, '+');
    let name = parts.last();
    let base = parse_key(s)->Ok_0.base;
    lemma_split_nonempty(s, equals_char('+'));
    lemma_split_pieces(s, equals_char('+'));
    if name.len() == 1 {
        assert(!equals_char('+')(parts[parts.len() - 1][0]));
    }
    assert(is_nameable(base));
    law_written_names_read_back(parse_key(s)->Ok_0);
}

/// Every key that a name stands for sends at least one byte.
pub proof fn law_read_keys_send_bytes(s: Seq<char>, application_cursor_keys: bool)
    requires
        parse_key(s) is Ok,
    ensures
        escape_bytes(parse_key(s)->Ok_0, application_cursor_keys).len() > 0,
{
    law_read_names_write_back(s);
    lemma_nameable_keys_send_bytes(parse_key(s)->Ok_0, application_cursor_keys);
}

proof fn lemma_nameable_keys_send_bytes(key: KeyView, application_cursor_keys: bool)
    requires
        is_nameable(key.base),
    ensures
        bytes_without_alt(key, application_cursor_keys).len() > 0,
{
    if let BaseKey::Char(c) = key.base {
        lemma_encoding_nonempty(c);
        lemma_encoding_nonempty(ascii_upper_char(c));
    }
}

proof fn lemma_encoding_nonempty(c: char)
    ensures
        encode_utf8(seq![c]).len() > 0,
{
    assert(seq![c][0] == c);
}

/// Alt does nothing but put an `ESC` in front of what the key sends without it.
pub proof fn law_alt_prefixes_escape(key: KeyView, application_cursor_keys: bool)
    ensures
        escape_bytes(
            KeyView {
                base: key.base,
                modifiers: ModifierSet { alt: true, ..key.modifiers },
            },
            application_cursor_keys,
        ) == seq![0x1bu8] + escape_bytes(
            KeyView {
                base: key.base,
                modifiers: ModifierSet { alt: false, ..key.modifiers },
            },
            application_cursor_keys,
        ),
{
    let with_alt = KeyView {
        base: key.base,
        modifiers: ModifierSet { alt: true, ..key.modifiers },
    };
    let without_alt = KeyView {
        base: key.base,
        modifiers: ModifierSet { alt: false, ..key.modifiers },
    };
    assert(bytes_without_alt(with_alt, application_cursor_keys) == bytes_without_alt(
        without_alt,
        application_cursor_keys,
    ));
}

/// The application's choice of cursor keys changes what the arrow keys send and
/// nothing else.
pub proof fn law_cursor_mode_moves_arrows_alone(key: KeyView)
    ensures
        escape_bytes(key, true) == escape_bytes(key, false) <==> !(key.base is Up || key.base is Down
            || key.base is Left || key.base is Right),
{
    if key.base is Up || key.base is Down || key.base is Left || key.base is Right {
        let on = escape_bytes(key, true);
        let off = escape_bytes(key, false);
        if key.modifiers.alt {
            assert(on[2] == 0x4f && off[2] == 0x5b);
        } else {
            assert(on[1] == 0x4f && off[1] == 0x5b);
        }
    }
}

/// Ctrl sends the letters as 1 to 26, whatever their case.
pub proof fn law_ctrl_counts_letters(c: char)
    requires
        'a' <= c <= 'z',
    ensures
        ctrl_code(c) == c as int - 'a' as int + 1,
        ctrl_code(ascii_upper_char(c)) == ctrl_code(c),
        1 <= ctrl_code(c) <= 26,
{
    let upper = ascii_upper_char(c);
    assert(ascii_lower_char(upper) == c);
}

/// Modifier names are read when each of them stands for a modifier, and then a
/// modifier is held when one of them stands for it: neither order nor repetition
/// matters.
pub proof fn law_modifiers_are_a_set(names: Seq<Seq<char>>)
    ensures
        parse_modifiers(names) is Ok <==> forall|i: int|
            0 <= i < names.len() ==> modifier_named(lowercase(#[trigger] names[i])) is Some,
        parse_modifiers(names) matches Ok(held) ==> {
            &&& held.ctrl <==> exists|i: int|
                0 <= i < names.len() && (modifier_named(lowercase(#[trigger] names[i]))->0).ctrl
            &&& held.alt <==> exists|i: int|
                0 <= i < names.len() && (modifier_named(lowercase(#[trigger] names[i]))->0).alt
            &&& held.shift <==> exists|i: int|
                0 <= i < names.len() && (modifier_named(lowercase(#[trigger] names[i]))->0).shift
        },
    decreases names.len(),
{
    if names.len() > 0 {
        let front = names.drop_last();
        let last = names.len() - 1;
        law_modifiers_are_a_set(front);
        assert(forall|i: int| 0 <= i < last ==> front[i] == names[i]);
        assert(names.last() == names[last]);
        if parse_modifiers(names) is Ok {
            let before = parse_modifiers(front)->Ok_0;
            let held = parse_modifiers(names)->Ok_0;
            if before.ctrl {
                let i = choose|i: int|
                    0 <= i < front.len() && (modifier_named(
                        lowercase(#[trigger] front[i]),
                    )->0).ctrl;
                assert((modifier_named(lowercase(names[i]))->0).ctrl);
            }
            if before.alt {
                let i = choose|i: int|
                    0 <= i < front.len() && (modifier_named(lowercase(#[trigger] front[i]))->0).alt;
                assert((modifier_named(lowercase(names[i]))->0).alt);
            }
            if before.shift {
                let i = choose|i: int|
                    0 <= i < front.len() && (modifier_named(
                        lowercase(#[trigger] front[i]),
                    )->0).shift;
                assert((modifier_named(lowercase(names[i]))->0).shift);
            }
            if exists|i: int|
                0 <= i < names.len() && (modifier_named(lowercase(#[trigger] names[i]))->0).ctrl {
                let i = choose|i: int|
                    0 <= i < names.len() && (modifier_named(
                        lowercase(#[trigger] names[i]),
                    )->0).ctrl;
                if i < last {
                    assert((modifier_named(lowercase(front[i]))->0).ctrl);
                }
            }
            if exists|i: int|
                0 <= i < names.len() && (modifier_named(lowercase(#[trigger] names[i]))->0).alt {
                let i = choose|i: int|
                    0 <= i < names.len() && (modifier_named(lowercase(#[trigger] names[i]))->0).alt;
                if i < last {
                    assert((modifier_named(lowercase(front[i]))->0).alt);
                }
            }
            if exists|i: int|
                0 <= i < names.len() && (modifier_named(lowercase(#[trigger] names[i]))->0).shift {
                let i = choose|i: int|
                    0 <= i < names.len() && (modifier_named(
                        lowercase(#[trigger] names[i]),
                    )->0).shift;
                if i < last {
                    assert((modifier_named(lowercase(front[i]))->0).shift);
                }
            }
        } else if parse_modifiers(front) is Err {
            let i = choose|i: int|
                0 <= i < front.len() && modifier_named(lowercase(#[trigger] front[i])) is None;
            assert(modifier_named(lowercase(names[i])) is None);
        }
    }
}

/// Splitting goes by the separator alone, so that case does not move it.
proof fn lemma_split_lower(s: Seq<char>)
    ensures
        split(ascii_lower(s), '+') == split(s, '+').map_values(|p: Seq<char>| ascii_lower(p)),
    decreases s.len(),
{
    let lower = ascii_lower(s);
    let f = |p: Seq<char>| ascii_lower(p);
    if s.len() == 0 {
        assert(lower =~= Seq::empty());
        assert(ascii_lower(Seq::empty()) =~= Seq::<char>::empty());
        assert(split(lower, '+') =~= split(s, '+').map_values(f));
    } else {
        let t = s.drop_last();
        lemma_split_lower(t);
        lemma_split_nonempty(t, equals_char('+'));
        assert(lower.drop_last() =~= ascii_lower(t));
        assert(lower.last() == ascii_lower_char(s.last()));
        let head = split(t, '+');
        if s.last() == '+' {
            assert(ascii_lower(Seq::empty()) =~= Seq::<char>::empty());
        } else {
            assert(ascii_lower(head.last().push(s.last())) =~= ascii_lower(head.last()).push(
                lower.last(),
            ));
        }
        assert(split(lower, '+') =~= split(s, '+').map_values(f));
    }
}

/// Whether one of `parts` is `lower` up to the case of ASCII letters.
pub open spec fn has_part(parts: Seq<Seq<char>>, lower: Seq<char>) -> bool {
    exists|i: int| 0 <= i < parts.len() && ascii_lower(#[trigger] parts[i]) == lower
}

/// Modifier parts that are the same set up to the case of ASCII letters, whatever
/// their order, how often each stands there, and how many empty ones there are.
pub open spec fn same_modifier_parts(a: Seq<Seq<char>>, b: Seq<Seq<char>>) -> bool {
    forall|lower: Seq<char>|
        #![trigger has_part(a, lower)]
        #![trigger has_part(b, lower)]
        lower.len() > 0 ==> (has_part(a, lower) <==> has_part(b, lower))
}

/// Base parts that are equal, or longer than one character and equal up to the case
/// of ASCII letters.
pub open spec fn same_base_part(a: Seq<char>, b: Seq<char>) -> bool {
    a == b || (a.len() > 1 && ascii_lower(a) == ascii_lower(b))
}

/// A modifier that is held by one of the parts `a` stands among the parts `b` too.
proof fn lemma_same_part(a: Seq<Seq<char>>, b: Seq<Seq<char>>, i: int) -> (j: int)
    requires
        same_modifier_parts(a, b),
        0 <= i < a.len(),
        a[i].len() > 0,
    ensures
        0 <= j < b.len(),
        lowercase(b[j]) == lowercase(a[i]),
{
    let lower = ascii_lower(a[i]);
    assert(has_part(a, lower));
    assert(has_part(b, lower));
    choose|j: int| 0 <= j < b.len() && ascii_lower(#[trigger] b[j]) == lower
}

/// Nothing is wrong with the parts `b`, and they hold what the parts `a` hold.
proof fn lemma_modifiers_carry_over(a: Seq<Seq<char>>, b: Seq<Seq<char>>)
    requires
        same_modifier_parts(a, b),
        parse_modifiers(a) is Ok,
    ensures
        parse_modifiers(b) is Ok,
        parse_modifiers(a)->Ok_0.ctrl ==> parse_modifiers(b)->Ok_0.ctrl,
        parse_modifiers(a)->Ok_0.alt ==> parse_modifiers(b)->Ok_0.alt,
        parse_modifiers(a)->Ok_0.shift ==> parse_modifiers(b)->Ok_0.shift,
{
    law_modifiers_are_a_set(a);
    law_modifiers_are_a_set(b);
    lemma_empty_part();
    assert forall|j: int| 0 <= j < b.len() implies modifier_named(
        lowercase(#[trigger] b[j]),
    ) is Some by {
        if b[j].len() > 0 {
            let i = lemma_same_part(b, a, j);
            assert(modifier_named(lowercase(a[i])) is Some);
        }
    }
    let held = parse_modifiers(a)->Ok_0;
    if held.ctrl {
        let i = choose|i: int|
            0 <= i < a.len() && (modifier_named(lowercase(#[trigger] a[i]))->0).ctrl;
        let j = lemma_same_part(a, b, i);
        assert((modifier_named(lowercase(b[j]))->0).ctrl);
    }
    if held.alt {
        let i = choose|i: int|
            0 <= i < a.len() && (modifier_named(lowercase(#[trigger] a[i]))->0).alt;
        let j = lemma_same_part(a, b, i);
        assert((modifier_named(lowercase(b[j]))->0).alt);
    }
    if held.shift {
        let i = choose|i: int|
            0 <= i < a.len() && (modifier_named(lowercase(#[trigger] a[i]))->0).shift;
        let j = lemma_same_part(a, b, i);
        assert((modifier_named(lowercase(b[j]))->0).shift);
    }
}

/// The empty part holds no modifier.
proof fn lemma_empty_part()
    ensures
        forall|part: Seq<char>|
            part.len() == 0 ==> modifier_named(#[trigger] lowercase(part)) == Some(
                ModifierSet::none(),
            ),
{
    reveal_strlit("ctrl");
    reveal_strlit("alt");
    reveal_strlit("shift");
    assert forall|part: Seq<char>| part.len() == 0 implies modifier_named(
        #[trigger] lowercase(part),
    ) == Some(ModifierSet::none()) by {
        let lower = ascii_lower(part);
        assert(is_ascii_chars(lower));
        assert(lower.len() != "ctrl"@.len() && lower.len() != "alt"@.len() && lower.len()
            != "shift"@.len());
    }
}

/// The order of the modifiers in a name, repeating them, empty parts before the base
/// key and the case of ASCII letters do not matter, unless the base key is a single
/// character, which keeps its case: such names stand for the same key, or neither
/// stands for any.
pub proof fn law_same_parts_name_same_key(s: Seq<char>, t: Seq<char>)
    requires
        same_modifier_parts(split(s, '+').drop_last(), split(t, '+').drop_last()),
        same_base_part(split(s, '+').last(), split(t, '+').last()),
    ensures
        parse_key(s) is Ok <==> parse_key(t) is Ok,
        parse_key(s) is Ok ==> parse_key(t) == parse_key(s),
{
    let a = split(s, '+').drop_last();
    let b = split(t, '+').drop_last();
    if parse_modifiers(a) is Ok {
        lemma_modifiers_carry_over(a, b);
    }
    if parse_modifiers(b) is Ok {
        lemma_modifiers_carry_over(b, a);
    }
    let x = split(s, '+').last();
    let y = split(t, '+').last();
    assert(ascii_lower(x).len() == x.len() && ascii_lower(y).len() == y.len());
    assert(lowercase(x) == lowercase(y));
}

/// Names that differ only in the case of ASCII letters stand for the same key, or
/// neither stands for any, unless the base key is a single character.
pub proof fn law_names_ignore_case(s: Seq<char>, t: Seq<char>)
    requires
        ascii_lower(s) == ascii_lower(t),
        split(s, '+').last().len() != 1,
    ensures
        parse_key(s) is Ok <==> parse_key(t) is Ok,
        parse_key(s) is Ok ==> parse_key(t) == parse_key(s),
{
    let a = split(s, '+');
    let b = split(t, '+');
    let f = |p: Seq<char>| ascii_lower(p);
    lemma_split_lower(s);
    lemma_split_lower(t);
    lemma_split_nonempty(s, equals_char('+'));
    assert(a.map_values(f) == b.map_values(f));
    assert(a.len() == a.map_values(f).len() == b.len());
    assert forall|i: int| 0 <= i < a.len() implies ascii_lower(#[trigger] a[i]) == ascii_lower(
        b[i],
    ) by {
        assert(a.map_values(f)[i] == b.map_values(f)[i]);
    }
    let last = a.len() - 1;
    assert(ascii_lower(a[last]) == ascii_lower(b[last]));
    assert(ascii_lower(a[last]).len() == a[last].len());
    assert(ascii_lower(b[last]).len() == b[last].len());
    if a[last].len() == 0 {
        assert(a[last] =~= b[last]);
    }
    let c = a.drop_last();
    let d = b.drop_last();
    assert forall|lower: Seq<char>| has_part(c, lower) <==> has_part(d, lower) by {
        if has_part(c, lower) {
            let i = choose|i: int| 0 <= i < c.len() && ascii_lower(#[trigger] c[i]) == lower;
            assert(ascii_lower(a[i]) == ascii_lower(b[i]));
            assert(ascii_lower(d[i]) == lower);
        }
        if has_part(d, lower) {
            let i = choose|i: int| 0 <= i < d.len() && ascii_lower(#[trigger] d[i]) == lower;
            assert(ascii_lower(a[i]) == ascii_lower(b[i]));
            assert(ascii_lower(c[i]) == lower);
        }
    }
    law_same_parts_name_same_key(s, t);
}

/// A base key that is a single character keeps its case: names that end in different
/// ones stand for different keys.
pub proof fn law_single_characters_keep_case(s: Seq<char>, t: Seq<char>)
    requires
        parse_key(s) is Ok,
        parse_key(t) is Ok,
        split(s, '+').last().len() == 1,
        split(t, '+').last().len() == 1,
        split(s, '+').last() != split(t, '+').last(),
        is_printable_ascii(split(s, '+').last()[0]),
        is_printable_ascii(split(t, '+').last()[0]),
    ensures
        parse_key(s)->Ok_0 != parse_key(t)->Ok_0,
{
    let x = split(s, '+').last();
    let y = split(t, '+').last();
    if x[0] == y[0] {
        assert(x =~= y);
    }
}

} // verus!
