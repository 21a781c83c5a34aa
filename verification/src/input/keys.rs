//! Keys that can be sent to a terminal: their names and the bytes they send.
use vstd::prelude::*;
use vstd::string::*;
use vstd::utf8::*;

use crate::text::{
    ascii_lower_char, ascii_upper_char, decimal, is_ascii_lower, lower_case, lowercase, parse_decimal,
    parse_unsigned, push_decimal, push_utf8, split, split_str, str_eq, str_views,
    to_ascii_lowercase, to_ascii_uppercase,
};

verus! {

// ---------------------------------------------------------------------------
// Modifiers
// ---------------------------------------------------------------------------

/// Which modifier keys are held.
pub struct ModifierSet {
    pub ctrl: bool,
    pub alt: bool,
    pub shift: bool,
}

impl ModifierSet {
    /// No modifier at all.
    pub open spec fn none() -> ModifierSet {
        ModifierSet { ctrl: false, alt: false, shift: false }
    }

    /// Ctrl alone.
    pub open spec fn only_ctrl() -> ModifierSet {
        ModifierSet { ctrl: true, alt: false, shift: false }
    }

    /// Alt alone.
    pub open spec fn only_alt() -> ModifierSet {
        ModifierSet { ctrl: false, alt: true, shift: false }
    }

    /// Shift alone.
    pub open spec fn only_shift() -> ModifierSet {
        ModifierSet { ctrl: false, alt: false, shift: true }
    }

    /// The modifiers of either set.
    pub open spec fn union(self, other: ModifierSet) -> ModifierSet {
        ModifierSet {
            ctrl: self.ctrl || other.ctrl,
            alt: self.alt || other.alt,
            shift: self.shift || other.shift,
        }
    }
}

/// Modifier keys that can be combined with a base key, one bit each.
#[derive(Debug, Clone, Copy, PartialEq, Eq, Structural)]
pub struct Modifiers(u8);

impl View for Modifiers {
    type V = ModifierSet;

    closed spec fn view(&self) -> ModifierSet {
        ModifierSet {
            ctrl: self.0 & 1 != 0,
            alt: self.0 & 2 != 0,
            shift: self.0 & 4 != 0,
        }
    }
}

impl Default for Modifiers {
    fn default() -> (res: Modifiers)
        ensures
            res.valid(),
            res@ == ModifierSet::none(),
    {
        Modifiers::none()
    }
}

impl Modifiers {
    /// No bit beyond those of the three modifiers is set.
    pub closed spec fn valid(self) -> bool {
        self.0 < 8
    }

    /// No modifier.
    pub fn none() -> (res: Modifiers)
        ensures
            res.valid(),
            res@ == ModifierSet::none(),
    {
        assert(0u8 & 1 == 0 && 0u8 & 2 == 0 && 0u8 & 4 == 0) by (bit_vector);
        Modifiers(0)
    }

    /// The Ctrl key.
    pub fn ctrl() -> (res: Modifiers)
        ensures
            res.valid(),
            res@ == ModifierSet::only_ctrl(),
    {
        assert(1u8 & 1 != 0 && 1u8 & 2 == 0 && 1u8 & 4 == 0) by (bit_vector);
        Modifiers(1)
    }

    /// The Alt key.
    pub fn alt() -> (res: Modifiers)
        ensures
            res.valid(),
            res@ == ModifierSet::only_alt(),
    {
        assert(2u8 & 1 == 0 && 2u8 & 2 != 0 && 2u8 & 4 == 0) by (bit_vector);
        Modifiers(2)
    }

    /// The Shift key.
    pub fn shift() -> (res: Modifiers)
        ensures
            res.valid(),
            res@ == ModifierSet::only_shift(),
    {
        assert(4u8 & 1 == 0 && 4u8 & 2 == 0 && 4u8 & 4 != 0) by (bit_vector);
        Modifiers(4)
    }

    /// Whether Ctrl is held.
    pub fn has_ctrl(self) -> (res: bool)
        ensures
            res == self@.ctrl,
    {
        (self.0 & 1) != 0
    }

    /// Whether Alt is held.
    pub fn has_alt(self) -> (res: bool)
        ensures
            res == self@.alt,
    {
        (self.0 & 2) != 0
    }

    /// Whether Shift is held.
    pub fn has_shift(self) -> (res: bool)
        ensures
            res == self@.shift,
    {
        (self.0 & 4) != 0
    }

    /// Holds the modifiers of `other` too.
    pub fn add(&mut self, other: Modifiers)
        ensures
            final(self)@ == old(self)@.union(other@),
            old(self).valid() && other.valid() ==> final(self).valid(),
    {
        proof {
            lemma_or_bits(self.0, other.0);
        }
        self.0 = self.0 | other.0;
    }
}

impl std::ops::BitOr for Modifiers {
    type Output = Modifiers;

    fn bitor(self, rhs: Modifiers) -> (res: Modifiers)
        ensures
            res@ == self@.union(rhs@),
            self.valid() && rhs.valid() ==> res.valid(),
    {
        proof {
            lemma_or_bits(self.0, rhs.0);
        }
        Modifiers(self.0 | rhs.0)
    }
}

impl vstd::std_specs::ops::BitOrSpecImpl for Modifiers {
    open spec fn obeys_bitor_spec() -> bool {
        true
    }

    open spec fn bitor_req(self, rhs: Modifiers) -> bool {
        true
    }

    closed spec fn bitor_spec(self, rhs: Modifiers) -> Modifiers {
        Modifiers(self.0 | rhs.0)
    }
}

/// The bits of `a | b`, one by one.
proof fn lemma_or_bits(a: u8, b: u8)
    by (bit_vector)
    ensures
        (a | b) & 1 != 0 <==> a & 1 != 0 || b & 1 != 0,
        (a | b) & 2 != 0 <==> a & 2 != 0 || b & 2 != 0,
        (a | b) & 4 != 0 <==> a & 4 != 0 || b & 4 != 0,
        a < 8 && b < 8 ==> (a | b) < 8,
{
}

/// Valid modifiers are told apart by the keys that they hold.
pub proof fn law_modifiers_are_their_keys(a: Modifiers, b: Modifiers)
    requires
        a.valid(),
        b.valid(),
        a@ == b@,
    ensures
        a == b,
{
    let x = a.0;
    let y = b.0;
    assert(x == y) by (bit_vector)
        requires
            x < 8,
            y < 8,
            (x & 1 != 0) == (y & 1 != 0),
            (x & 2 != 0) == (y & 2 != 0),
            (x & 4 != 0) == (y & 4 != 0),
    ;
}

// ---------------------------------------------------------------------------
// Keys
// ---------------------------------------------------------------------------

/// Base key without modifiers.
#[derive(Debug, Clone, PartialEq, Eq, Structural)]
pub enum BaseKey {
    Char(char),
    Enter,
    Tab,
    Escape,
    Backspace,
    Delete,
    Up,
    Down,
    Left,
    Right,
    Home,
    End,
    PageUp,
    PageDown,
    F(u8),
}

/// A key that can be sent to the terminal, with optional modifiers.
#[derive(Debug, Clone, PartialEq, Eq, Structural)]
pub struct Key {
    pub base: BaseKey,
    pub modifiers: Modifiers,
}

/// A key by its base and the modifiers held with it.
pub struct KeyView {
    pub base: BaseKey,
    pub modifiers: ModifierSet,
}

impl View for Key {
    type V = KeyView;

    open spec fn view(&self) -> KeyView {
        KeyView { base: self.base, modifiers: self.modifiers@ }
    }
}

// ---------------------------------------------------------------------------
// Reading a key's name
// ---------------------------------------------------------------------------

/// An ASCII character that is not a control character.
pub open spec fn is_printable_ascii(c: char) -> bool {
    ' ' <= c <= '~'
}

/// The modifiers that the lower-case name `lower` stands for. The empty name
/// stands for none.
pub open spec fn modifier_named(lower: Seq<char>) -> Option<ModifierSet> {
    if lower == "ctrl"@ {
        Some(ModifierSet::only_ctrl())
    } else if lower == "alt"@ {
        Some(ModifierSet::only_alt())
    } else if lower == "shift"@ {
        Some(ModifierSet::only_shift())
    } else if lower.len() == 0 {
        Some(ModifierSet::none())
    } else {
        None
    }
}

/// The modifiers that `names` stand for together, or what is wrong with the
/// first of them that stands for none.
pub open spec fn parse_modifiers(names: Seq<Seq<char>>) -> Result<ModifierSet, Seq<char>>
    decreases names.len(),
{
    if names.len() == 0 {
        Ok(ModifierSet::none())
    } else {
        match parse_modifiers(names.drop_last()) {
            Err(e) => Err(e),
            Ok(held) => match modifier_named(lowercase(names.last())) {
                Some(more) => Ok(held.union(more)),
                None => Err("Unknown modifier: "@ + names.last()),
            },
        }
    }
}

/// The key with the lower-case name `lower`, function keys aside.
pub open spec fn key_named(lower: Seq<char>) -> Option<BaseKey> {
    if lower == "enter"@ || lower == "return"@ {
        Some(BaseKey::Enter)
    } else if lower == "tab"@ {
        Some(BaseKey::Tab)
    } else if lower == "escape"@ || lower == "esc"@ {
        Some(BaseKey::Escape)
    } else if lower == "backspace"@ || lower == "bs"@ {
        Some(BaseKey::Backspace)
    } else if lower == "delete"@ || lower == "del"@ {
        Some(BaseKey::Delete)
    } else if lower == "up"@ {
        Some(BaseKey::Up)
    } else if lower == "down"@ {
        Some(BaseKey::Down)
    } else if lower == "left"@ {
        Some(BaseKey::Left)
    } else if lower == "right"@ {
        Some(BaseKey::Right)
    } else if lower == "home"@ {
        Some(BaseKey::Home)
    } else if lower == "end"@ {
        Some(BaseKey::End)
    } else if lower == "pageup"@ || lower == "page_up"@ || lower == "pgup"@ {
        Some(BaseKey::PageUp)
    } else if lower == "pagedown"@ || lower == "page_down"@ || lower == "pgdn"@ {
        Some(BaseKey::PageDown)
    } else if lower == "space"@ {
        Some(BaseKey::Char(' '))
    } else {
        None
    }
}

/// The function key with the lower-case name `lower`, which begins with `f`, or
/// what is wrong with the name.
pub open spec fn function_key_named(lower: Seq<char>) -> Result<BaseKey, Seq<char>> {
    match parse_unsigned(lower.drop_first(), u8::MAX as nat) {
        Some(n) => if 1 <= n <= 12 {
            Ok(BaseKey::F(n as u8))
        } else {
            Err("Function key F"@ + decimal(n) + " out of range (1-12)"@)
        },
        None => Err("Invalid function key: "@ + lower),
    }
}

/// The base key that `name` stands for, where `lower` is `name` in lower case,
/// or what is wrong with it. A single printable character stands for itself.
pub open spec fn parse_base(name: Seq<char>, lower: Seq<char>) -> Result<BaseKey, Seq<char>> {
    if name.len() == 1 && is_printable_ascii(name[0]) {
        Ok(BaseKey::Char(name[0]))
    } else if key_named(lower) is Some {
        Ok(key_named(lower)->0)
    } else if lower.len() > 0 && lower[0] == 'f' {
        function_key_named(lower)
    } else {
        Err("Unknown key: "@ + name)
    }
}

/// The key that `s` names, or what is wrong with it: modifiers and a base key
/// with `+` between them, the base key last.
pub open spec fn parse_key(s: Seq<char>) -> Result<KeyView, Seq<char>> {
    let parts = split(s, '+');
    match parse_modifiers(parts.drop_last()) {
        Err(e) => Err(e),
        Ok(modifiers) => match parse_base(parts.last(), lowercase(parts.last())) {
            Err(e) => Err(e),
            Ok(base) => Ok(KeyView { base, modifiers }),
        },
    }
}

/// The modifiers with the lower-case name `lower`.
pub fn modifier_from_name(lower: &str) -> (res: Option<Modifiers>)
    ensures
        match res {
            Some(m) => m.valid() && modifier_named(lower@) == Some(m@),
            None => modifier_named(lower@) is None,
        },
{
    if str_eq(lower, "ctrl") {
        Some(Modifiers::ctrl())
    } else if str_eq(lower, "alt") {
        Some(Modifiers::alt())
    } else if str_eq(lower, "shift") {
        Some(Modifiers::shift())
    } else if lower.is_empty() {
        Some(Modifiers::none())
    } else {
        None
    }
}

/// The key with the lower-case name `lower`, function keys aside.
pub fn key_from_name(lower: &str) -> (res: Option<BaseKey>)
    ensures
        res == key_named(lower@),
{
    if str_eq(lower, "enter") || str_eq(lower, "return") {
        Some(BaseKey::Enter)
    } else if str_eq(lower, "tab") {
        Some(BaseKey::Tab)
    } else if str_eq(lower, "escape") || str_eq(lower, "esc") {
        Some(BaseKey::Escape)
    } else if str_eq(lower, "backspace") || str_eq(lower, "bs") {
        Some(BaseKey::Backspace)
    } else if str_eq(lower, "delete") || str_eq(lower, "del") {
        Some(BaseKey::Delete)
    } else if str_eq(lower, "up") {
        Some(BaseKey::Up)
    } else if str_eq(lower, "down") {
        Some(BaseKey::Down)
    } else if str_eq(lower, "left") {
        Some(BaseKey::Left)
    } else if str_eq(lower, "right") {
        Some(BaseKey::Right)
    } else if str_eq(lower, "home") {
        Some(BaseKey::Home)
    } else if str_eq(lower, "end") {
        Some(BaseKey::End)
    } else if str_eq(lower, "pageup") || str_eq(lower, "page_up") || str_eq(lower, "pgup") {
        Some(BaseKey::PageUp)
    } else if str_eq(lower, "pagedown") || str_eq(lower, "page_down") || str_eq(lower, "pgdn") {
        Some(BaseKey::PageDown)
    } else if str_eq(lower, "space") {
        Some(BaseKey::Char(' '))
    } else {
        None
    }
}

/// The function key with the lower-case name `lower`, F1 to F12.
fn function_key_from_name(lower: &str) -> (res: Result<BaseKey, String>)
    requires
        lower@.len() > 0,
    ensures
        match res {
            Ok(base) => function_key_named(lower@) == Ok::<BaseKey, Seq<char>>(base),
            Err(e) => function_key_named(lower@) == Err::<BaseKey, Seq<char>>(e@),
        },
{
    let rest = lower.substring_char(1, lower.unicode_len());
    assert(rest@ =~= lower@.drop_first());
    match parse_decimal(rest, 255) {
        Some(n) => {
            if 1 <= n && n <= 12 {
                Ok(BaseKey::F(n as u8))
            } else {
                let mut message = "Function key F".to_string();
                push_decimal(&mut message, n as u64);
                message.append(" out of range (1-12)");
                Err(message)
            }
        },
        None => {
            let mut message = "Invalid function key: ".to_string();
            message.append(lower);
            Err(message)
        },
    }
}

/// The base key that `name` stands for, where `lower` is `name` in lower case.
/// A single character is looked at first, so that it keeps its case.
pub fn base_from_name(name: &str, lower: &str) -> (res: Result<BaseKey, String>)
    ensures
        match res {
            Ok(base) => parse_base(name@, lower@) == Ok::<BaseKey, Seq<char>>(base),
            Err(e) => parse_base(name@, lower@) == Err::<BaseKey, Seq<char>>(e@),
        },
{
    if name.unicode_len() == 1 {
        let c = name.get_char(0);
        if ' ' <= c && c <= '~' {
            return Ok(BaseKey::Char(c));
        }
    }
    match key_from_name(lower) {
        Some(base) => Ok(base),
        None => {
            if !lower.is_empty() && lower.get_char(0) == 'f' {
                function_key_from_name(lower)
            } else {
                let mut message = "Unknown key: ".to_string();
                message.append(name);
                Err(message)
            }
        },
    }
}

impl Key {
    /// Parse a key name.
    /// Supports formats: "a", "Enter", "Ctrl+A", "Shift+Tab", "Ctrl+Alt+Delete", etc.
    pub fn from_str(s: &str) -> (res: Result<Key, String>)
        ensures
            match res {
                Ok(key) => key.modifiers.valid() && parse_key(s@) == Ok::<KeyView, Seq<char>>(key@),
                Err(e) => parse_key(s@) == Err::<KeyView, Seq<char>>(e@),
            },
    {
        let parts = split_str(s, '+');
        let ghost names = split(s@, '+').drop_last();
        let last: usize = parts.len() - 1;
        let mut modifiers = Modifiers::none();
        let mut i: usize = 0;
        assert(names.take(0) =~= Seq::empty());
        while i < last
            invariant
                i <= last,
                last == parts.len() - 1,
                str_views(parts@) == split(s@, '+'),
                names == split(s@, '+').drop_last(),
                modifiers.valid(),
                parse_modifiers(names.take(i as int)) == Ok::<ModifierSet, Seq<char>>(modifiers@),
            decreases last - i,
        {
            assert(parts@[i as int]@ == str_views(parts@)[i as int]);
            assert(names.take(i + 1).drop_last() =~= names.take(i as int));
            let lower = lower_case(parts[i]);
            match modifier_from_name(lower.as_str()) {
                Some(more) => modifiers.add(more),
                None => {
                    let mut message = "Unknown modifier: ".to_string();
                    message.append(parts[i]);
                    proof {
                        lemma_modifiers_error_stays(names, i + 1);
                    }
                    return Err(message);
                },
            }
            i += 1;
        }
        assert(names.take(last as int) =~= names);
        assert(parts@[last as int]@ == str_views(parts@)[last as int]);
        let lower = lower_case(parts[last]);
        match base_from_name(parts[last], lower.as_str()) {
            Ok(base) => Ok(Key { base, modifiers }),
            Err(e) => Err(e),
        }
    }
}

/// A name that stands for no modifier is what is wrong, whatever follows it.
proof fn lemma_modifiers_error_stays(names: Seq<Seq<char>>, k: int)
    requires
        0 <= k <= names.len(),
        parse_modifiers(names.take(k)) is Err,
    ensures
        parse_modifiers(names) == parse_modifiers(names.take(k)),
    decreases names.len(),
{
    if k < names.len() {
        assert(names.drop_last().take(k) =~= names.take(k));
        lemma_modifiers_error_stays(names.drop_last(), k);
    } else {
        assert(names.take(k) =~= names);
    }
}

// ---------------------------------------------------------------------------
// The bytes that a key sends
// ---------------------------------------------------------------------------

/// What Ctrl makes of a character: letters count from 1 whatever their case, a
/// space is 0, and any other is the low byte of its code point.
pub open spec fn ctrl_code(c: char) -> u8 {
    let lower = ascii_lower_char(c);
    if is_ascii_lower(lower) {
        (lower as u32 - 'a' as u32 + 1) as u8
    } else if lower == ' ' {
        0
    } else {
        (lower as u32 % 256) as u8
    }
}

/// What the keys send that Ctrl has a say in.
pub open spec fn ctrl_bytes(base: BaseKey) -> Option<Seq<u8>> {
    match base {
        BaseKey::Char(c) => Some(seq![ctrl_code(c)]),
        BaseKey::Tab => Some(seq![0x09u8]),
        BaseKey::Enter => Some(seq![0x0du8]),
        BaseKey::Escape => Some(seq![0x1bu8]),
        _ => None,
    }
}

/// What an arrow key sends: `ESC O` and its letter for an application that
/// asked for it, else `ESC [` and its letter.
pub open spec fn arrow_bytes(application_cursor_keys: bool, letter: u8) -> Seq<u8> {
    if application_cursor_keys {
        seq![0x1bu8, 0x4fu8, letter]
    } else {
        seq![0x1bu8, 0x5bu8, letter]
    }
}

/// What the function key with number `n` sends.
pub open spec fn function_key_bytes(n: u8) -> Seq<u8> {
    if n == 1 {
        seq![0x1bu8, 0x4fu8, 0x50u8]
    } else if n == 2 {
        seq![0x1bu8, 0x4fu8, 0x51u8]
    } else if n == 3 {
        seq![0x1bu8, 0x4fu8, 0x52u8]
    } else if n == 4 {
        seq![0x1bu8, 0x4fu8, 0x53u8]
    } else if n == 5 {
        seq![0x1bu8, 0x5bu8, 0x31u8, 0x35u8, 0x7eu8]
    } else if n == 6 {
        seq![0x1bu8, 0x5bu8, 0x31u8, 0x37u8, 0x7eu8]
    } else if n == 7 {
        seq![0x1bu8, 0x5bu8, 0x31u8, 0x38u8, 0x7eu8]
    } else if n == 8 {
        seq![0x1bu8, 0x5bu8, 0x31u8, 0x39u8, 0x7eu8]
    } else if n == 9 {
        seq![0x1bu8, 0x5bu8, 0x32u8, 0x30u8, 0x7eu8]
    } else if n == 10 {
        seq![0x1bu8, 0x5bu8, 0x32u8, 0x31u8, 0x7eu8]
    } else if n == 11 {
        seq![0x1bu8, 0x5bu8, 0x32u8, 0x33u8, 0x7eu8]
    } else if n == 12 {
        seq![0x1bu8, 0x5bu8, 0x32u8, 0x34u8, 0x7eu8]
    } else {
        Seq::empty()
    }
}

/// What a key sends on its own.
pub open spec fn base_bytes(base: BaseKey, application_cursor_keys: bool) -> Seq<u8> {
    match base {
        BaseKey::Char(c) => encode_utf8(seq![c]),
        BaseKey::Enter => seq![0x0du8],
        BaseKey::Tab => seq![0x09u8],
        BaseKey::Escape => seq![0x1bu8],
        BaseKey::Backspace => seq![0x7fu8],
        BaseKey::Delete => seq![0x1bu8, 0x5bu8, 0x33u8, 0x7eu8],
        BaseKey::Up => arrow_bytes(application_cursor_keys, 0x41),
        BaseKey::Down => arrow_bytes(application_cursor_keys, 0x42),
        BaseKey::Right => arrow_bytes(application_cursor_keys, 0x43),
        BaseKey::Left => arrow_bytes(application_cursor_keys, 0x44),
        BaseKey::Home => seq![0x1bu8, 0x5bu8, 0x48u8],
        BaseKey::End => seq![0x1bu8, 0x5bu8, 0x46u8],
        BaseKey::PageUp => seq![0x1bu8, 0x5bu8, 0x35u8, 0x7eu8],
        BaseKey::PageDown => seq![0x1bu8, 0x5bu8, 0x36u8, 0x7eu8],
        BaseKey::F(n) => function_key_bytes(n),
    }
}

/// What a key sends with Shift held: only Tab and the lower-case letters differ.
pub open spec fn shift_bytes(base: BaseKey, application_cursor_keys: bool) -> Seq<u8> {
    match base {
        BaseKey::Tab => seq![0x1bu8, 0x5bu8, 0x5au8],
        BaseKey::Char(c) => encode_utf8(seq![ascii_upper_char(c)]),
        _ => base_bytes(base, application_cursor_keys),
    }
}

/// What a key sends, Alt aside. Where Ctrl has a say, Shift has none.
pub open spec fn bytes_without_alt(key: KeyView, application_cursor_keys: bool) -> Seq<u8> {
    if key.modifiers.ctrl && ctrl_bytes(key.base) is Some {
        ctrl_bytes(key.base)->0
    } else if key.modifiers.shift {
        shift_bytes(key.base, application_cursor_keys)
    } else {
        base_bytes(key.base, application_cursor_keys)
    }
}

/// What a key sends. Alt puts an `ESC` in front.
pub open spec fn escape_bytes(key: KeyView, application_cursor_keys: bool) -> Seq<u8> {
    if key.modifiers.alt {
        seq![0x1bu8] + bytes_without_alt(key, application_cursor_keys)
    } else {
        bytes_without_alt(key, application_cursor_keys)
    }
}

/// Puts what an arrow key sends behind what `out` holds.
fn push_arrow(out: &mut Vec<u8>, application_cursor_keys: bool, letter: u8)
    ensures
        final(out)@ == old(out)@ + arrow_bytes(application_cursor_keys, letter),
{
    out.push(0x1b);
    if application_cursor_keys {
        out.push(0x4f);
    } else {
        out.push(0x5b);
    }
    out.push(letter);
    assert(out@ =~= old(out)@ + arrow_bytes(application_cursor_keys, letter));
}

/// Puts the bytes `ESC [ first second ~` behind what `out` holds.
fn push_tilde(out: &mut Vec<u8>, first: u8, second: u8)
    ensures
        final(out)@ == old(out)@ + seq![0x1bu8, 0x5bu8, first, second, 0x7eu8],
{
    out.push(0x1b);
    out.push(0x5b);
    out.push(first);
    out.push(second);
    out.push(0x7e);
    assert(out@ =~= old(out)@ + seq![0x1bu8, 0x5bu8, first, second, 0x7eu8]);
}

/// Puts what the function key with number `n` sends behind what `out` holds.
fn push_function_key(out: &mut Vec<u8>, n: u8)
    ensures
        final(out)@ == old(out)@ + function_key_bytes(n),
{
    if 1 <= n && n <= 4 {
        push_arrow(out, true, 0x4f + n);
    } else if n == 5 {
        push_tilde(out, 0x31, 0x35);
    } else if 6 <= n && n <= 8 {
        push_tilde(out, 0x31, 0x31 + n);
    } else if n == 9 || n == 10 {
        push_tilde(out, 0x32, 0x27 + n);
    } else if n == 11 || n == 12 {
        push_tilde(out, 0x32, 0x28 + n);
    }
    assert(out@ =~= old(out)@ + function_key_bytes(n));
}

/// Puts what a key sends on its own behind what `out` holds.
fn push_base(out: &mut Vec<u8>, base: &BaseKey, application_cursor_keys: bool)
    ensures
        final(out)@ == old(out)@ + base_bytes(*base, application_cursor_keys),
{
    match base {
        BaseKey::Char(c) => push_utf8(out, *c),
        BaseKey::Enter => out.push(0x0d),
        BaseKey::Tab => out.push(0x09),
        BaseKey::Escape => out.push(0x1b),
        BaseKey::Backspace => out.push(0x7f),
        BaseKey::Delete => out.extend_from_slice(&[0x1b, 0x5b, 0x33, 0x7e]),
        BaseKey::Up => push_arrow(out, application_cursor_keys, 0x41),
        BaseKey::Down => push_arrow(out, application_cursor_keys, 0x42),
        BaseKey::Right => push_arrow(out, application_cursor_keys, 0x43),
        BaseKey::Left => push_arrow(out, application_cursor_keys, 0x44),
        BaseKey::Home => out.extend_from_slice(&[0x1b, 0x5b, 0x48]),
        BaseKey::End => out.extend_from_slice(&[0x1b, 0x5b, 0x46]),
        BaseKey::PageUp => out.extend_from_slice(&[0x1b, 0x5b, 0x35, 0x7e]),
        BaseKey::PageDown => out.extend_from_slice(&[0x1b, 0x5b, 0x36, 0x7e]),
        BaseKey::F(n) => push_function_key(out, *n),
    }
    assert(out@ =~= old(out)@ + base_bytes(*base, application_cursor_keys));
}

impl Key {
    /// Convert to the escape sequence bytes to send to the terminal.
    pub fn to_escape_sequence(&self, application_cursor_keys: bool) -> (res: Vec<u8>)
        ensures
            res@ == escape_bytes(self@, application_cursor_keys),
    {
        let mut result: Vec<u8> = Vec::new();
        if self.modifiers.has_alt() {
            result.push(0x1b);
        }
        let ghost prefix = result@;
        if self.modifiers.has_ctrl() {
            let code: Option<u8> = match &self.base {
                BaseKey::Char(c) => {
                    let lower = to_ascii_lowercase(*c);
                    if 'a' <= lower && lower <= 'z' {
                        Some((lower as u8) - 96)
                    } else if lower == ' ' {
                        Some(0)
                    } else {
                        Some((lower as u32 % 256) as u8)
                    }
                },
                BaseKey::Tab => Some(0x09),
                BaseKey::Enter => Some(0x0d),
                BaseKey::Escape => Some(0x1b),
                _ => None,
            };
            if let Some(byte) = code {
                result.push(byte);
                assert(result@ =~= prefix + ctrl_bytes(self.base)->0);
                assert(result@ =~= escape_bytes(self@, application_cursor_keys));
                return result;
            }
        }
        if self.modifiers.has_shift() {
            match &self.base {
                BaseKey::Tab => result.extend_from_slice(&[0x1b, 0x5b, 0x5a]),
                BaseKey::Char(c) => push_utf8(&mut result, to_ascii_uppercase(*c)),
                _ => push_base(&mut result, &self.base, application_cursor_keys),
            }
        } else {
            push_base(&mut result, &self.base, application_cursor_keys);
        }
        assert(result@ =~= prefix + bytes_without_alt(self@, application_cursor_keys));
        assert(result@ =~= escape_bytes(self@, application_cursor_keys));
        result
    }

    /// A key without modifiers.
    pub fn from_base(base: BaseKey) -> (res: Key)
        ensures
            res.modifiers.valid(),
            res@ == (KeyView { base, modifiers: ModifierSet::none() }),
    {
        Key { base, modifiers: Modifiers::none() }
    }

    /// A key with Ctrl.
    pub fn ctrl(base: BaseKey) -> (res: Key)
        ensures
            res.modifiers.valid(),
            res@ == (KeyView { base, modifiers: ModifierSet::only_ctrl() }),
    {
        Key { base, modifiers: Modifiers::ctrl() }
    }

    /// A key with Alt.
    pub fn alt(base: BaseKey) -> (res: Key)
        ensures
            res.modifiers.valid(),
            res@ == (KeyView { base, modifiers: ModifierSet::only_alt() }),
    {
        Key { base, modifiers: Modifiers::alt() }
    }

    /// A key with Shift.
    pub fn shift(base: BaseKey) -> (res: Key)
        ensures
            res.modifiers.valid(),
            res@ == (KeyView { base, modifiers: ModifierSet::only_shift() }),
    {
        Key { base, modifiers: Modifiers::shift() }
    }
}

// ---------------------------------------------------------------------------
// Writing a key's name
// ---------------------------------------------------------------------------

/// The name of a base key.
pub open spec fn base_text(base: BaseKey) -> Seq<char> {
    match base {
        BaseKey::Char(c) => seq![c],
        BaseKey::Enter => "Enter"@,
        BaseKey::Tab => "Tab"@,
        BaseKey::Escape => "Escape"@,
        BaseKey::Backspace => "Backspace"@,
        BaseKey::Delete => "Delete"@,
        BaseKey::Up => "Up"@,
        BaseKey::Down => "Down"@,
        BaseKey::Left => "Left"@,
        BaseKey::Right => "Right"@,
        BaseKey::Home => "Home"@,
        BaseKey::End => "End"@,
        BaseKey::PageUp => "PageUp"@,
        BaseKey::PageDown => "PageDown"@,
        BaseKey::F(n) => "F"@ + decimal(n as nat),
    }
}

/// `rest`, with `name` and a `+` in front where the modifier is held.
pub open spec fn with_modifier(held: bool, name: Seq<char>, rest: Seq<char>) -> Seq<char> {
    if held {
        name.push('+') + rest
    } else {
        rest
    }
}

/// The name of a key: its modifiers in the order Ctrl, Alt, Shift, then the base
/// key, with `+` between them.
pub open spec fn key_text(key: KeyView) -> Seq<char> {
    with_modifier(
        key.modifiers.ctrl,
        "Ctrl"@,
        with_modifier(
            key.modifiers.alt,
            "Alt"@,
            with_modifier(key.modifiers.shift, "Shift"@, base_text(key.base)),
        ),
    )
}

/// Puts the name of a base key behind what `out` holds.
fn append_base(out: &mut String, base: &BaseKey)
    ensures
        final(out)@ == old(out)@ + base_text(*base),
{
    match base {
        BaseKey::Char(c) => out.push(*c),
        BaseKey::Enter => out.append("Enter"),
        BaseKey::Tab => out.append("Tab"),
        BaseKey::Escape => out.append("Escape"),
        BaseKey::Backspace => out.append("Backspace"),
        BaseKey::Delete => out.append("Delete"),
        BaseKey::Up => out.append("Up"),
        BaseKey::Down => out.append("Down"),
        BaseKey::Left => out.append("Left"),
        BaseKey::Right => out.append("Right"),
        BaseKey::Home => out.append("Home"),
        BaseKey::End => out.append("End"),
        BaseKey::PageUp => out.append("PageUp"),
        BaseKey::PageDown => out.append("PageDown"),
        BaseKey::F(n) => {
            out.append("F");
            push_decimal(out, *n as u64);
        },
    }
    assert(out@ =~= old(out)@ + base_text(*base));
}

impl Key {
    /// The name of the key, such as "Ctrl+C" or "Ctrl+Alt+F1".
    pub fn to_string(&self) -> (res: String)
        ensures
            res@ == key_text(self@),
    {
        let mut out = String::new();
        if self.modifiers.has_ctrl() {
            out.append("Ctrl");
            out.push('+');
        }
        if self.modifiers.has_alt() {
            out.append("Alt");
            out.push('+');
        }
        if self.modifiers.has_shift() {
            out.append("Shift");
            out.push('+');
        }
        append_base(&mut out, &self.base);
        assert(out@ =~= key_text(self@));
        out
    }
}

} // verus!
