//! What the parts of a key's name do, one by one.
use vstd::prelude::*;
use vstd::string::*;
use vstd::utf8::*;

use crate::input::byte_laws::pressed;
use crate::input::key_laws::is_nameable;
use crate::input::keys::{
    key_named, key_text, modifier_named, parse_base, parse_key, parse_modifiers, BaseKey, KeyView,
    ModifierSet,
};
use crate::text::{
    ascii_lower, decimal, equals_char, lemma_split_concat, lemma_split_nonempty, lemma_split_whole,
    lowercase, split,
};
use crate::text_laws::{law_decimal_is_plain, law_decimal_reads_up_to_bound};

verus! {

// ---------------------------------------------------------------------------
// Modifiers
// ---------------------------------------------------------------------------

/// A modifier is held in a union exactly where one of the two sets holds it.
pub proof fn law_union_holds_both(a: ModifierSet, b: ModifierSet)
    ensures
        a.union(b).ctrl == (a.ctrl || b.ctrl),
        a.union(b).alt == (a.alt || b.alt),
        a.union(b).shift == (a.shift || b.shift),
{
}

proof fn lemma_part_in_front(part: Seq<char>, s: Seq<char>)
    requires
        !part.contains('+'),
    ensures
        split(part.push('+') + s, '+').drop_last() == seq![part] + split(s, '+').drop_last(),
        split(part.push('+') + s, '+').last() == split(s, '+').last(),
{
    assert forall|i: int| 0 <= i < part.len() implies !equals_char('+')(#[trigger] part[i]) by {
        assert(part.contains(part[i]));
    }
    lemma_split_whole(part, equals_char('+'));
    lemma_split_concat(part, '+', s, equals_char('+'));
    lemma_split_nonempty(s, equals_char('+'));
    let all = split(part.push('+') + s, '+');
    assert(all == seq![part] + split(s, '+'));
    assert(all.drop_last() =~= seq![part] + split(s, '+').drop_last());
}

proof fn lemma_modifier_in_front(part: Seq<char>, names: Seq<Seq<char>>)
    ensures
        parse_modifiers(seq![part] + names) == match modifier_named(lowercase(part)) {
            None => Err("Unknown modifier: "@ + part),
            Some(more) => match parse_modifiers(names) {
                Ok(held) => Ok(held.union(more)),
                Err(e) => Err(e),
            },
        },
    decreases names.len(),
{
    let all = seq![part] + names;
    reveal_with_fuel(parse_modifiers, 2);
    if names.len() == 0 {
        assert(all.drop_last() =~= Seq::empty());
        assert(all.last() == part);
    } else {
        lemma_modifier_in_front(part, names.drop_last());
        assert(all.drop_last() =~= seq![part] + names.drop_last());
        assert(all.last() == names.last());
    }
}

/// A modifier in front of a name, in any case, is held with the key that the rest
/// stands for, and changes nothing else.
pub proof fn law_modifier_in_front_is_held(part: Seq<char>, s: Seq<char>)
    requires
        ascii_lower(part) == "ctrl"@ || ascii_lower(part) == "alt"@ || ascii_lower(part) == "shift"@,
    ensures
        match parse_key(s) {
            Ok(key) => parse_key(part.push('+') + s) == Ok::<KeyView, Seq<char>>(
                pressed(
                    key.base,
                    key.modifiers.ctrl || ascii_lower(part) == "ctrl"@,
                    key.modifiers.alt || ascii_lower(part) == "alt"@,
                    key.modifiers.shift || ascii_lower(part) == "shift"@,
                ),
            ),
            Err(e) => parse_key(part.push('+') + s) == Err::<KeyView, Seq<char>>(e),
        },
{
    reveal_strlit("ctrl");
    reveal_strlit("alt");
    reveal_strlit("shift");
    assert("ctrl"@.len() == 4 && "alt"@.len() == 3 && "shift"@.len() == 5);
    let lower = ascii_lower(part);
    assert forall|i: int| 0 <= i < part.len() implies part[i] != '+' by {
        assert(lower[i] != '+');
    }
    assert(is_ascii_chars(lower));
    lemma_part_in_front(part, s);
    lemma_modifier_in_front(part, split(s, '+').drop_last());
}

/// An empty part in front of a name changes nothing.
pub proof fn law_empty_part_changes_nothing(s: Seq<char>)
    ensures
        parse_key(seq!['+'] + s) == parse_key(s),
{
    reveal_strlit("ctrl");
    reveal_strlit("alt");
    reveal_strlit("shift");
    let part = Seq::<char>::empty();
    let lower = ascii_lower(part);
    assert(lower.len() == 0);
    assert(is_ascii_chars(lower));
    assert("ctrl"@.len() == 4 && "alt"@.len() == 3 && "shift"@.len() == 5);
    assert(part.push('+') =~= seq!['+']);
    lemma_part_in_front(part, s);
    lemma_modifier_in_front(part, split(s, '+').drop_last());
}

/// Any other part of ASCII text in front of a name is refused as a modifier, as it
/// was written.
pub proof fn law_other_modifiers_are_refused(part: Seq<char>, s: Seq<char>)
    requires
        part.len() > 0,
        !part.contains('+'),
        is_ascii_chars(part),
        ascii_lower(part) != "ctrl"@,
        ascii_lower(part) != "alt"@,
        ascii_lower(part) != "shift"@,
    ensures
        parse_key(part.push('+') + s) == Err::<KeyView, Seq<char>>("Unknown modifier: "@ + part),
{
    lemma_ascii_stays(part);
    lemma_part_in_front(part, s);
    lemma_modifier_in_front(part, split(s, '+').drop_last());
}

proof fn lemma_ascii_stays(s: Seq<char>)
    requires
        is_ascii_chars(s),
    ensures
        is_ascii_chars(ascii_lower(s)),
        lowercase(s) == ascii_lower(s),
{
    let lower = ascii_lower(s);
    assert forall|i: int| 0 <= i < lower.len() implies '\0' <= #[trigger] lower[i] <= '\u{7f}' by {
        assert('\0' <= s[i] <= '\u{7f}');
    }
}

// ---------------------------------------------------------------------------
// Base keys
// ---------------------------------------------------------------------------

proof fn lemma_name_alone(name: Seq<char>)
    requires
        !name.contains('+'),
    ensures
        parse_key(name) == match parse_base(name, lowercase(name)) {
            Ok(base) => Ok(pressed(base, false, false, false)),
            Err(e) => Err(e),
        },
{
    assert forall|i: int| 0 <= i < name.len() implies !equals_char('+')(#[trigger] name[i]) by {
        assert(name.contains(name[i]));
    }
    lemma_split_whole(name, equals_char('+'));
    assert(split(name, '+').drop_last() =~= Seq::empty());
}

/// Every printable character of ASCII but the plus sign names itself, in its own
/// case, with nothing held.
pub proof fn law_characters_name_themselves(c: char)
    requires
        32 <= c as int <= 126,
        c != '+',
    ensures
        parse_key(seq![c]) == Ok::<KeyView, Seq<char>>(
            pressed(BaseKey::Char(c), false, false, false),
        ),
{
    assert(!seq![c].contains('+'));
    lemma_name_alone(seq![c]);
}

/// `F` in either case and a number from 1 to 12 name that function key; any other
/// number is refused, with the number in the message where it is at most 255.
pub proof fn law_function_keys_go_by_number(f: char, n: nat)
    requires
        f == 'F' || f == 'f',
    ensures
        1 <= n <= 12 ==> parse_key(seq![f] + decimal(n)) == Ok::<KeyView, Seq<char>>(
            pressed(BaseKey::F(n as u8), false, false, false),
        ),
        n == 0 || 12 < n <= 255 ==> parse_key(seq![f] + decimal(n)) == Err::<KeyView, Seq<char>>(
            "Function key F"@ + decimal(n) + " out of range (1-12)"@,
        ),
        n > 255 ==> parse_key(seq![f] + decimal(n)) == Err::<KeyView, Seq<char>>(
            "Invalid function key: "@ + (seq!['f'] + decimal(n)),
        ),
{
    let name = seq![f] + decimal(n);
    law_decimal_is_plain(n);
    law_decimal_reads_up_to_bound(n, u8::MAX as nat);
    assert forall|i: int| 0 <= i < name.len() implies #[trigger] name[i] != '+' && '\0' <= name[i]
        <= '\u{7f}' by {
        if i > 0 {
            assert(name[i] == decimal(n)[i - 1]);
        }
    }
    assert(!name.contains('+'));
    assert(is_ascii_chars(name));
    lemma_ascii_stays(name);
    lemma_name_alone(name);
    let lower = ascii_lower(name);
    assert forall|i: int| 1 <= i < name.len() implies lower[i] == decimal(n)[i - 1] by {
        assert(name[i] == decimal(n)[i - 1]);
    }
    assert(lower =~= seq!['f'] + decimal(n));
    assert(lower.drop_first() =~= decimal(n));
    assert(lower[0] == 'f');
    assert(name.len() >= 2);
    lemma_no_key_begins_with_f(lower);
}

proof fn lemma_no_key_begins_with_f(lower: Seq<char>)
    requires
        lower.len() > 0,
        lower[0] == 'f',
    ensures
        key_named(lower) is None,
{
    reveal_strlit("enter");
    reveal_strlit("return");
    reveal_strlit("tab");
    reveal_strlit("escape");
    reveal_strlit("esc");
    reveal_strlit("backspace");
    reveal_strlit("bs");
    reveal_strlit("delete");
    reveal_strlit("del");
    reveal_strlit("up");
    reveal_strlit("down");
    reveal_strlit("left");
    reveal_strlit("right");
    reveal_strlit("home");
    reveal_strlit("end");
    reveal_strlit("pageup");
    reveal_strlit("page_up");
    reveal_strlit("pgup");
    reveal_strlit("pagedown");
    reveal_strlit("page_down");
    reveal_strlit("pgdn");
    reveal_strlit("space");
}

/// The names of the keys that are no characters and no function keys, in lower case.
pub open spec fn is_key_name(lower: Seq<char>) -> bool {
    ||| lower == "enter"@ || lower == "return"@ || lower == "tab"@ || lower == "escape"@
    ||| lower == "esc"@ || lower == "backspace"@ || lower == "bs"@ || lower == "delete"@
    ||| lower == "del"@ || lower == "up"@ || lower == "down"@ || lower == "left"@
    ||| lower == "right"@ || lower == "home"@ || lower == "end"@ || lower == "pageup"@
    ||| lower == "page_up"@ || lower == "pgup"@ || lower == "pagedown"@ || lower == "page_down"@
    ||| lower == "pgdn"@ || lower == "space"@
}

/// Any other name of ASCII text that is longer than one character and does not begin
/// with `F` is refused, as it was written.
pub proof fn law_other_names_are_refused(name: Seq<char>)
    requires
        name.len() != 1,
        !name.contains('+'),
        is_ascii_chars(name),
        !is_key_name(ascii_lower(name)),
        name.len() > 0 ==> name[0] != 'f' && name[0] != 'F',
    ensures
        parse_key(name) == Err::<KeyView, Seq<char>>("Unknown key: "@ + name),
{
    lemma_ascii_stays(name);
    lemma_name_alone(name);
}

/// The names of a key in lower case, other than function keys and characters.
pub open spec fn names_key(lower: Seq<char>, base: BaseKey) -> bool {
    match base {
        BaseKey::Enter => lower == "enter"@ || lower == "return"@,
        BaseKey::Tab => lower == "tab"@,
        BaseKey::Escape => lower == "escape"@ || lower == "esc"@,
        BaseKey::Backspace => lower == "backspace"@ || lower == "bs"@,
        BaseKey::Delete => lower == "delete"@ || lower == "del"@,
        BaseKey::Up => lower == "up"@,
        BaseKey::Down => lower == "down"@,
        BaseKey::Left => lower == "left"@,
        BaseKey::Right => lower == "right"@,
        BaseKey::Home => lower == "home"@,
        BaseKey::End => lower == "end"@,
        BaseKey::PageUp => lower == "pageup"@ || lower == "page_up"@ || lower == "pgup"@,
        BaseKey::PageDown => lower == "pagedown"@ || lower == "page_down"@ || lower == "pgdn"@,
        BaseKey::Char(c) => c == ' ' && lower == "space"@,
        BaseKey::F(_) => false,
    }
}

/// A key's name, in any case, stands for that key with nothing held.
pub proof fn law_key_names_in_any_case(name: Seq<char>, base: BaseKey)
    requires
        names_key(ascii_lower(name), base),
    ensures
        parse_key(name) == Ok::<KeyView, Seq<char>>(pressed(base, false, false, false)),
{
    reveal_strlit("enter");
    reveal_strlit("return");
    reveal_strlit("tab");
    reveal_strlit("escape");
    reveal_strlit("esc");
    reveal_strlit("backspace");
    reveal_strlit("bs");
    reveal_strlit("delete");
    reveal_strlit("del");
    reveal_strlit("up");
    reveal_strlit("down");
    reveal_strlit("left");
    reveal_strlit("right");
    reveal_strlit("home");
    reveal_strlit("end");
    reveal_strlit("pageup");
    reveal_strlit("page_up");
    reveal_strlit("pgup");
    reveal_strlit("pagedown");
    reveal_strlit("page_down");
    reveal_strlit("pgdn");
    reveal_strlit("space");
    let lower = ascii_lower(name);
    assert(lower.len() == name.len());
    assert forall|i: int| 0 <= i < name.len() implies name[i] != '+' by {
        assert(lower[i] != '+');
    }
    assert(!name.contains('+'));
    assert(is_ascii_chars(lower));
    assert(name.len() >= 2);
    lemma_name_alone(name);
    lemma_key_named_matches(lower, base);
}

proof fn lemma_key_named_matches(lower: Seq<char>, base: BaseKey)
    requires
        names_key(lower, base),
    ensures
        key_named(lower) == Some(base),
{
    reveal_strlit("enter");
    reveal_strlit("return");
    reveal_strlit("tab");
    reveal_strlit("escape");
    reveal_strlit("esc");
    reveal_strlit("backspace");
    reveal_strlit("bs");
    reveal_strlit("delete");
    reveal_strlit("del");
    reveal_strlit("up");
    reveal_strlit("down");
    reveal_strlit("left");
    reveal_strlit("right");
    reveal_strlit("home");
    reveal_strlit("end");
    reveal_strlit("pageup");
    reveal_strlit("page_up");
    reveal_strlit("pgup");
    reveal_strlit("pagedown");
    reveal_strlit("page_down");
    reveal_strlit("pgdn");
    reveal_strlit("space");
    assert("enter"@.len() == 5 && "enter"@[0] == 'e');
    assert("return"@.len() == 6 && "return"@[0] == 'r');
    assert("tab"@.len() == 3 && "tab"@[0] == 't');
    assert("escape"@.len() == 6 && "escape"@[0] == 'e');
    assert("esc"@.len() == 3 && "esc"@[0] == 'e');
    assert("backspace"@.len() == 9 && "backspace"@[0] == 'b');
    assert("bs"@.len() == 2 && "bs"@[0] == 'b');
    assert("delete"@.len() == 6 && "delete"@[0] == 'd');
    assert("del"@.len() == 3 && "del"@[0] == 'd');
    assert("up"@.len() == 2 && "up"@[0] == 'u');
    assert("down"@.len() == 4 && "down"@[0] == 'd');
    assert("left"@.len() == 4 && "left"@[0] == 'l');
    assert("right"@.len() == 5 && "right"@[0] == 'r');
    assert("home"@.len() == 4 && "home"@[0] == 'h');
    assert("end"@.len() == 3 && "end"@[0] == 'e');
    assert("pageup"@.len() == 6 && "pageup"@[0] == 'p');
    assert("page_up"@.len() == 7 && "page_up"@[0] == 'p');
    assert("pgup"@.len() == 4 && "pgup"@[0] == 'p');
    assert("pagedown"@.len() == 8 && "pagedown"@[0] == 'p');
    assert("page_down"@.len() == 9 && "page_down"@[0] == 'p');
    assert("pgdn"@.len() == 4 && "pgdn"@[0] == 'p');
    assert("space"@.len() == 5 && "space"@[0] == 's');
    assert("esc"@[1] == 's' && "end"@[1] == 'n');
    assert("pgup"@[2] == 'u' && "pgdn"@[2] == 'd');
}

// ---------------------------------------------------------------------------
// Writing
// ---------------------------------------------------------------------------

/// A character is written as itself and a function key as `F` and its number, with
/// each modifier that is held and a plus sign in front, in the order Ctrl, Alt, Shift.
pub proof fn law_names_are_put_together(base: BaseKey, ctrl: bool, alt: bool, shift: bool)
    ensures
        key_text(pressed(base, true, alt, shift)) == "Ctrl"@ + (seq!['+'] + key_text(
            pressed(base, false, alt, shift),
        )),
        key_text(pressed(base, false, true, shift)) == "Alt"@ + (seq!['+'] + key_text(
            pressed(base, false, false, shift),
        )),
        key_text(pressed(base, false, false, true)) == "Shift"@ + (seq!['+'] + key_text(
            pressed(base, false, false, false),
        )),
        base matches BaseKey::Char(c) ==> key_text(pressed(base, false, false, false)) == seq![c],
        base matches BaseKey::F(n) ==> key_text(pressed(base, false, false, false)) == "F"@
            + decimal(n as nat),
{
    assert(key_text(pressed(base, true, alt, shift)) =~= "Ctrl"@ + (seq!['+'] + key_text(
        pressed(base, false, alt, shift),
    )));
    assert(key_text(pressed(base, false, true, shift)) =~= "Alt"@ + (seq!['+'] + key_text(
        pressed(base, false, false, shift),
    )));
    assert(key_text(pressed(base, false, false, true)) =~= "Shift"@ + (seq!['+'] + key_text(
        pressed(base, false, false, false),
    )));
}

/// What can be named: every printable character of ASCII but the plus sign, the
/// function keys from 1 to 12, and all other keys.
pub proof fn law_nameable_keys(base: BaseKey)
    ensures
        is_nameable(base) <==> match base {
            BaseKey::Char(c) => 32 <= c as int <= 126 && c as int != 43,
            BaseKey::F(n) => 1 <= n <= 12,
            _ => true,
        },
{
}

} // verus!
