//! What holds of JSON text, whatever it says.
use vstd::prelude::*;
use vstd::string::*;

use crate::json::{
    entries_text, entry_text, joined_json, json_char, json_chars, json_string, list_text,
    object_text, value_json, value_text, with_entry, JsonView,
};
use crate::text::decimal;

verus! {

// ---------------------------------------------------------------------------
// Strings
// ---------------------------------------------------------------------------

/// Text that holds nothing to escape.
pub open spec fn is_plain(s: Seq<char>) -> bool {
    forall|i: int|
        0 <= i < s.len() ==> (#[trigger] s[i]) as int >= 32 && s[i] as int != 34 && s[i] as int
            != 92
}

/// Text that holds nothing to escape stands between the quotes as it is.
pub proof fn law_plain_text_is_kept(s: Seq<char>)
    requires
        is_plain(s),
    ensures
        json_chars(s) == s,
        json_string(s) == seq!['"'] + s + seq!['"'],
    decreases s.len(),
{
    if s.len() > 0 {
        let t = s.drop_last();
        assert forall|i: int| 0 <= i < t.len() implies (#[trigger] t[i]) as int >= 32 && t[i] as int
            != 34 && t[i] as int != 92 by {
            assert(t[i] == s[i]);
        }
        law_plain_text_is_kept(t);
        let c = s[s.len() - 1];
        assert(c as int >= 32 && c as int != 34 && c as int != 92);
        lemma_plain_char(c);
        assert(json_chars(s) =~= t.push(c));
        assert(t.push(c) =~= s);
    } else {
        assert(json_chars(s) =~= s);
    }
}

proof fn lemma_plain_char(c: char)
    requires
        c as int >= 32,
        c as int != 34,
        c as int != 92,
    ensures
        json_char(c) == seq![c],
{
}

/// Text is escaped piece by piece.
pub proof fn law_escapes_go_piece_by_piece(a: Seq<char>, b: Seq<char>)
    ensures
        json_chars(a + b) == json_chars(a) + json_chars(b),
    decreases b.len(),
{
    if b.len() == 0 {
        assert(a + b =~= a);
        assert(json_chars(a) + json_chars(b) =~= json_chars(a));
    } else {
        law_escapes_go_piece_by_piece(a, b.drop_last());
        assert((a + b).drop_last() =~= a + b.drop_last());
        assert((a + b).last() == b.last());
        assert(json_chars(a + b) =~= json_chars(a) + json_chars(b));
    }
}

/// A hexadecimal digit in lower case.
pub open spec fn is_hex_of(c: char, d: int) -> bool {
    if d < 10 {
        c as int == 48 + d
    } else {
        c as int == 87 + d
    }
}

/// The quote and the backslash have a backslash in front, a line feed and its like
/// have a letter, and any other control character of ASCII its number.
pub proof fn law_escapes_of_one_character(c: char)
    ensures
        ({
            let text = json_chars(seq![c]);
            let n = c as int;
            &&& n == 34 || n == 92 ==> text == seq!['\\', c]
            &&& n == 8 ==> text == seq!['\\', 'b']
            &&& n == 9 ==> text == seq!['\\', 't']
            &&& n == 10 ==> text == seq!['\\', 'n']
            &&& n == 12 ==> text == seq!['\\', 'f']
            &&& n == 13 ==> text == seq!['\\', 'r']
            &&& n < 32 && n != 8 && n != 9 && n != 10 && n != 12 && n != 13 ==> {
                &&& text.len() == 6
                &&& text.take(4) == seq!['\\', 'u', '0', '0']
                &&& is_hex_of(text[4], n / 16)
                &&& is_hex_of(text[5], n % 16)
            }
            &&& n >= 32 && n != 34 && n != 92 ==> text == seq![c]
        }),
{
    reveal_with_fuel(json_chars, 2);
    let s = seq![c];
    assert(s.drop_last() =~= Seq::empty());
    assert(s.last() == c);
    let n = c as int;
    let text = json_chars(s);
    if n < 32 && n != 8 && n != 9 && n != 10 && n != 12 && n != 13 {
        assert(text.take(4) =~= seq!['\\', 'u', '0', '0']);
    } else if n >= 32 && n != 34 && n != 92 {
        assert(text =~= seq![c]);
    } else {
        assert(text.len() == 2);
        assert(text =~= seq!['\\', text[1]]);
    }
}

// ---------------------------------------------------------------------------
// Values and objects
// ---------------------------------------------------------------------------

/// A flag, a number and text as JSON.
pub proof fn law_values_as_json(b: bool, n: nat, s: Seq<char>)
    ensures
        value_text(JsonView::Flag(true)) == "true"@,
        value_text(JsonView::Flag(false)) == "false"@,
        value_text(JsonView::Count(n)) == decimal(n),
        value_text(JsonView::Text(s)) == seq!['"'] + json_chars(s) + seq!['"'],
{
}

/// A field of an object: its name in quotes, a colon and its value.
pub open spec fn field(name: Seq<char>, json: Seq<char>) -> Seq<char> {
    seq!['"'] + name + seq!['"', ':'] + json
}

proof fn lemma_entry_is_field(entry: (Seq<char>, JsonView))
    requires
        is_plain(entry.0),
    ensures
        entry_text(entry) == field(entry.0, value_text(entry.1)),
{
    law_plain_text_is_kept(entry.0);
    assert(entry_text(entry) =~= field(entry.0, value_text(entry.1)));
}

/// An object is written as its fields in their order, with commas between them and
/// braces around them.
pub proof fn law_objects_are_their_fields(
    a: (Seq<char>, JsonView),
    b: (Seq<char>, JsonView),
    c: (Seq<char>, JsonView),
)
    requires
        is_plain(a.0),
        is_plain(b.0),
        is_plain(c.0),
    ensures
        object_text(Seq::<(Seq<char>, JsonView)>::empty()) == seq!['{', '}'],
        object_text(seq![a]) == seq!['{'] + field(a.0, value_text(a.1)) + seq!['}'],
        object_text(seq![a, b]) == seq!['{'] + field(a.0, value_text(a.1)) + seq![','] + field(
            b.0,
            value_text(b.1),
        ) + seq!['}'],
        object_text(seq![a, b, c]) == seq!['{'] + field(a.0, value_text(a.1)) + seq![','] + field(
            b.0,
            value_text(b.1),
        ) + seq![','] + field(c.0, value_text(c.1)) + seq!['}'],
{
    lemma_entry_is_field(a);
    lemma_entry_is_field(b);
    lemma_entry_is_field(c);
    reveal_with_fuel(entries_text, 4);
    let none = Seq::<(Seq<char>, JsonView)>::empty();
    let fa = field(a.0, value_text(a.1));
    let fb = field(b.0, value_text(b.1));
    let fc = field(c.0, value_text(c.1));
    assert(seq![a, b].drop_last() =~= seq![a]);
    assert(seq![a, b, c].drop_last() =~= seq![a, b]);
    assert(entries_text(seq![a]) == fa);
    assert(entries_text(seq![a, b]) == fa + seq![','] + fb);
    assert(entries_text(seq![a, b, c]) == fa + seq![','] + fb + seq![','] + fc);
    assert(object_text(none) =~= seq!['{', '}']);
    assert(object_text(seq![a, b]) =~= seq!['{'] + fa + seq![','] + fb + seq!['}']);
    assert(object_text(seq![a, b, c]) =~= seq!['{'] + fa + seq![','] + fb + seq![','] + fc
        + seq!['}']);
}

/// Setting a key makes it stand for the value, leaves every other key alone, and puts
/// a new key last.
pub proof fn law_setting_a_key(entries: Seq<(Seq<char>, JsonView)>, key: Seq<char>, value: JsonView)
    ensures
        ({
            let after = with_entry(entries, key, value);
            &&& after.contains((key, value))
            &&& forall|i: int|
                0 <= i < entries.len() && (#[trigger] entries[i]).0 != key ==> after[i] == entries[i]
            &&& forall|i: int|
                0 <= i < after.len() && (#[trigger] after[i]).0 == key ==> after[i].1 == value
            &&& (forall|i: int| 0 <= i < entries.len() ==> (#[trigger] entries[i]).0 != key)
                ==> after.len() == entries.len() + 1 && after.last() == (key, value)
            &&& (exists|i: int| 0 <= i < entries.len() && (#[trigger] entries[i]).0 == key)
                ==> after.len() == entries.len()
        }),
{
    let after = with_entry(entries, key, value);
    if exists|i: int| 0 <= i < entries.len() && (#[trigger] entries[i]).0 == key {
        let i = choose|i: int| 0 <= i < entries.len() && (#[trigger] entries[i]).0 == key;
        assert(after[i] == (key, value));
    } else {
        assert(after.last() == (key, value));
        assert(after[after.len() - 1] == (key, value));
    }
}

/// A list is written as its values in their order, with commas between them and
/// brackets around them.
pub proof fn law_lists_are_their_values(list: Seq<serde_json::Value>, value: serde_json::Value)
    ensures
        list_text(Seq::<serde_json::Value>::empty()) == seq!['[', ']'],
        list_text(seq![value]) == seq!['['] + value_json(value) + seq![']'],
        list.len() > 0 ==> list_text(list.push(value)) == list_text(list).drop_last() + seq![',']
            + value_json(value) + seq![']'],
{
    let f = |v: serde_json::Value| value_json(v);
    assert(Seq::<serde_json::Value>::empty().map_values(f) =~= Seq::empty());
    assert(list_text(Seq::<serde_json::Value>::empty()) =~= seq!['[', ']']);
    assert(seq![value].map_values(f) =~= seq![value_json(value)]);
    if list.len() > 0 {
        let pieces = list.map_values(f);
        let more = list.push(value).map_values(f);
        assert(more =~= pieces.push(value_json(value)));
        assert(more.drop_last() =~= pieces);
        assert(joined_json(more) == joined_json(pieces) + seq![','] + value_json(value));
        assert(list_text(list).drop_last() =~= seq!['['] + joined_json(pieces));
        assert(list_text(list.push(value)) =~= list_text(list).drop_last() + seq![',']
            + value_json(value) + seq![']']);
    }
}

} // verus!
