//! What the bytes that a key sends say of the key.
use vstd::prelude::*;
use vstd::utf8::*;

use crate::input::keys::{bytes_without_alt, escape_bytes, BaseKey, KeyView, ModifierSet};

verus! {

/// The key `base` with these modifiers held.
pub open spec fn pressed(base: BaseKey, ctrl: bool, alt: bool, shift: bool) -> KeyView {
    KeyView { base, modifiers: ModifierSet { ctrl, alt, shift } }
}

/// A character that no modifier is held with reaches the application as that very
/// character, whatever it is.
pub proof fn law_characters_send_themselves(c: char, application_cursor_keys: bool)
    ensures
        escape_bytes(
            pressed(BaseKey::Char(c), false, false, false),
            application_cursor_keys,
        ) == encode_utf8(seq![c]),
        decode_utf8(
            escape_bytes(pressed(BaseKey::Char(c), false, false, false), application_cursor_keys),
        ) == seq![c],
{
    encode_utf8_decode_utf8(seq![c]);
}

/// Different characters send different bytes.
pub proof fn law_characters_send_different_bytes(c: char, d: char, application_cursor_keys: bool)
    requires
        escape_bytes(pressed(BaseKey::Char(c), false, false, false), application_cursor_keys)
            == escape_bytes(
            pressed(BaseKey::Char(d), false, false, false),
            application_cursor_keys,
        ),
    ensures
        c == d,
{
    law_characters_send_themselves(c, application_cursor_keys);
    law_characters_send_themselves(d, application_cursor_keys);
    assert(seq![c][0] == seq![d][0]);
}

/// With Shift a letter from `a` to `z` reaches the application as the upper-case
/// letter, and any other character as itself.
pub proof fn law_shift_sends_upper_case(c: char, sent: char, application_cursor_keys: bool)
    requires
        sent as int == if 97 <= c as int <= 122 {
            c as int - 32
        } else {
            c as int
        },
    ensures
        escape_bytes(
            pressed(BaseKey::Char(c), false, false, true),
            application_cursor_keys,
        ) == encode_utf8(seq![sent]),
{
}

/// With Ctrl a character sends one byte: the letters count from 1 in either case, the
/// space is 0, and any other is the low byte of its number. Shift changes nothing.
pub proof fn law_ctrl_sends_one_byte(c: char, shift: bool, application_cursor_keys: bool)
    ensures
        ({
            let sent = escape_bytes(
                pressed(BaseKey::Char(c), true, false, shift),
                application_cursor_keys,
            );
            &&& sent.len() == 1
            &&& 97 <= c as int <= 122 ==> sent[0] as int == c as int - 96
            &&& 65 <= c as int <= 90 ==> sent[0] as int == c as int - 64
            &&& c as int == 32 ==> sent[0] == 0
            &&& !(97 <= c as int <= 122) && !(65 <= c as int <= 90) && c as int != 32 ==> sent[0] as int
                == c as int % 256
        }),
{
}

/// With Ctrl a key that is no character sends what it sends without Ctrl and without
/// Shift.
pub proof fn law_ctrl_leaves_other_keys(base: BaseKey, shift: bool, application_cursor_keys: bool)
    requires
        !(base is Char),
    ensures
        escape_bytes(pressed(base, true, false, shift), application_cursor_keys) == escape_bytes(
            pressed(base, false, false, false),
            application_cursor_keys,
        ),
{
}

/// Shift changes no key but Tab and the characters; Shift and Tab send `ESC [ Z`.
pub proof fn law_shift_leaves_other_keys(base: BaseKey, application_cursor_keys: bool)
    requires
        !(base is Char),
    ensures
        !(base is Tab) ==> escape_bytes(
            pressed(base, false, false, true),
            application_cursor_keys,
        ) == escape_bytes(pressed(base, false, false, false), application_cursor_keys),
        base is Tab ==> escape_bytes(pressed(base, false, false, true), application_cursor_keys)
            == seq![27u8, 91u8, 90u8],
{
}

/// Alt puts an `ESC` in front and nothing else, whatever else is held.
pub proof fn law_alt_goes_in_front(
    base: BaseKey,
    ctrl: bool,
    shift: bool,
    application_cursor_keys: bool,
)
    ensures
        escape_bytes(pressed(base, ctrl, true, shift), application_cursor_keys) == seq![27u8]
            + escape_bytes(pressed(base, ctrl, false, shift), application_cursor_keys),
{
    assert(bytes_without_alt(pressed(base, ctrl, true, shift), application_cursor_keys)
        == bytes_without_alt(pressed(base, ctrl, false, shift), application_cursor_keys));
}

/// The arrow keys end in `A` to `D` behind `ESC O` or `ESC [`.
pub proof fn law_arrows_end_in_letters(base: BaseKey, application_cursor_keys: bool)
    requires
        base is Up || base is Down || base is Right || base is Left,
    ensures
        ({
            let sent = escape_bytes(pressed(base, false, false, false), application_cursor_keys);
            &&& sent.len() == 3
            &&& sent[0] == 27
            &&& sent[1] == if application_cursor_keys {
                79u8
            } else {
                91u8
            }
            &&& sent[2] == if base is Up {
                65u8
            } else if base is Down {
                66u8
            } else if base is Right {
                67u8
            } else {
                68u8
            }
        }),
{
}

/// The keys with a code of their own send that one byte.
pub proof fn law_control_keys_send_one_byte(application_cursor_keys: bool)
    ensures
        escape_bytes(pressed(BaseKey::Enter, false, false, false), application_cursor_keys)
            == seq![13u8],
        escape_bytes(pressed(BaseKey::Tab, false, false, false), application_cursor_keys)
            == seq![9u8],
        escape_bytes(pressed(BaseKey::Escape, false, false, false), application_cursor_keys)
            == seq![27u8],
        escape_bytes(pressed(BaseKey::Backspace, false, false, false), application_cursor_keys)
            == seq![127u8],
{
}

/// There are twelve function keys: any other number sends nothing.
pub proof fn law_other_function_keys_send_nothing(n: u8, application_cursor_keys: bool)
    ensures
        escape_bytes(
            pressed(BaseKey::F(n), false, false, false),
            application_cursor_keys,
        ).len() == 0 <==> !(1 <= n <= 12),
{
}

/// Keys that a terminal can tell apart: a printable character of ASCII, a function
/// key from 1 to 12, or any of the other keys.
pub open spec fn is_on_keyboard(base: BaseKey) -> bool {
    match base {
        BaseKey::Char(c) => 32 <= c as int <= 126,
        BaseKey::F(n) => 1 <= n <= 12,
        _ => true,
    }
}

proof fn lemma_printable_sends_one_byte(c: char, application_cursor_keys: bool)
    requires
        32 <= c as int <= 126,
    ensures
        escape_bytes(pressed(BaseKey::Char(c), false, false, false), application_cursor_keys)
            == seq![c as u8],
{
    reveal_with_fuel(encode_utf8, 2);
    let u = c as u32;
    assert(seq![c].drop_first() =~= Seq::empty());
    assert((u & 0x7f) as u8 == u as u8) by (bit_vector)
        requires
            u <= 126u32,
    ;
    assert(encode_utf8(seq![c]) =~= seq![c as u8]);
}

/// Different keys send different bytes: what reaches the application tells which key
/// was pressed.
pub proof fn law_keys_send_different_bytes(a: BaseKey, b: BaseKey, application_cursor_keys: bool)
    requires
        is_on_keyboard(a),
        is_on_keyboard(b),
        escape_bytes(pressed(a, false, false, false), application_cursor_keys) == escape_bytes(
            pressed(b, false, false, false),
            application_cursor_keys,
        ),
    ensures
        a == b,
{
    let x = escape_bytes(pressed(a, false, false, false), application_cursor_keys);
    let y = escape_bytes(pressed(b, false, false, false), application_cursor_keys);
    if let BaseKey::Char(c) = a {
        lemma_printable_sends_one_byte(c, application_cursor_keys);
        assert(x[0] == c as u8);
    }
    if let BaseKey::Char(c) = b {
        lemma_printable_sends_one_byte(c, application_cursor_keys);
        assert(y[0] == c as u8);
    }
    assert(x.len() == y.len());
    assert(x.len() > 0 ==> x[0] == y[0]);
    assert(x.len() > 1 ==> x[1] == y[1]);
    assert(x.len() > 2 ==> x[2] == y[2]);
    assert(x.len() > 3 ==> x[3] == y[3]);
}

} // verus!
