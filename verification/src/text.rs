//! Text as sequences of characters: comparing, splitting, trimming, decimal
//! numbers and UTF-8, each with the sequence it stands for.
use vstd::prelude::*;
use vstd::string::*;
use vstd::utf8::*;

verus! {

// ---------------------------------------------------------------------------
// Case
// ---------------------------------------------------------------------------

/// An ASCII upper-case letter.
pub open spec fn is_ascii_upper(c: char) -> bool {
    'A' <= c <= 'Z'
}

/// An ASCII lower-case letter.
pub open spec fn is_ascii_lower(c: char) -> bool {
    'a' <= c <= 'z'
}

/// `c` with an ASCII upper-case letter replaced by its lower-case form.
pub open spec fn ascii_lower_char(c: char) -> char {
    if is_ascii_upper(c) {
        (c as u32 + 32) as char
    } else {
        c
    }
}

/// `c` with an ASCII lower-case letter replaced by its upper-case form.
pub open spec fn ascii_upper_char(c: char) -> char {
    if is_ascii_lower(c) {
        (c as u32 - 32) as char
    } else {
        c
    }
}

/// `s` with every ASCII upper-case letter replaced by its lower-case form.
pub open spec fn ascii_lower(s: Seq<char>) -> Seq<char> {
    Seq::new(s.len(), |i: int| ascii_lower_char(s[i]))
}

/// What `str::to_lowercase` makes of a string that holds a non-ASCII character.
pub uninterp spec fn unicode_lowercase(s: Seq<char>) -> Seq<char>;

/// The lower-case form of `s`: its ASCII letters one by one, and then, where it
/// holds any other character, by the Unicode tables.
pub open spec fn lowercase(s: Seq<char>) -> Seq<char> {
    let lower = ascii_lower(s);
    if is_ascii_chars(lower) {
        lower
    } else {
        unicode_lowercase(lower)
    }
}

/// Calls `str::to_lowercase`. Believed of it: ASCII text has its upper-case
/// letters replaced one by one and nothing else changed, and the result for any
/// other text depends on that text alone.
#[verifier::external_body]
pub(crate) fn to_lowercase(s: &str) -> (res: String)
    ensures
        res@ == (if is_ascii_chars(s@) {
            ascii_lower(s@)
        } else {
            unicode_lowercase(s@)
        }),
{
    s.to_lowercase()
}

/// `char::to_ascii_lowercase`.
pub fn to_ascii_lowercase(c: char) -> (res: char)
    ensures
        res == ascii_lower_char(c),
{
    if 'A' <= c && c <= 'Z' {
        ((c as u8) + 32) as char
    } else {
        c
    }
}

/// The lower-case form of `s`. The ASCII letters are replaced first, so that their
/// case never matters.
pub fn lower_case(s: &str) -> (res: String)
    ensures
        res@ == lowercase(s@),
{
    let mut lower = String::new();
    for c in it: s.chars()
        invariant
            it.seq() == s@,
            lower@ == ascii_lower(s@.take(it.index())),
    {
        let ghost i = it.index();
        lower.push(to_ascii_lowercase(c));
        assert(ascii_lower(s@.take(i + 1)) =~= ascii_lower(s@.take(i)).push(
            ascii_lower_char(s@[i]),
        ));
    }
    assert(s@.take(s@.len() as int) =~= s@);
    assert(ascii_lower(lower@) =~= lower@);
    to_lowercase(lower.as_str())
}

/// `char::to_ascii_uppercase`.
pub fn to_ascii_uppercase(c: char) -> (res: char)
    ensures
        res == ascii_upper_char(c),
{
    if 'a' <= c && c <= 'z' {
        ((c as u8) - 32) as char
    } else {
        c
    }
}

// ---------------------------------------------------------------------------
// Building and comparing
// ---------------------------------------------------------------------------

/// `String::push` puts one character behind those already there.
pub assume_specification[ String::push ](s: &mut String, c: char)
    ensures
        final(s)@ == old(s)@.push(c),
;

/// What an optional string holds.
pub open spec fn option_view(s: Option<String>) -> Option<Seq<char>> {
    match s {
        Some(s) => Some(s@),
        None => None,
    }
}

/// What an optional string slice holds.
pub open spec fn str_option_view(s: Option<&str>) -> Option<Seq<char>> {
    match s {
        Some(s) => Some(s@),
        None => None,
    }
}

/// Whether two strings hold the same characters.
pub fn str_eq(a: &str, b: &str) -> (res: bool)
    ensures
        res == (a@ == b@),
{
    let x = a.as_bytes();
    let y = b.as_bytes();
    proof {
        encode_utf8_decode_utf8(a@);
        encode_utf8_decode_utf8(b@);
    }
    if x.len() != y.len() {
        return false;
    }
    let mut i: usize = 0;
    while i < x.len()
        invariant
            x.len() == y.len(),
            i <= x.len(),
            x@ == encode_utf8(a@),
            y@ == encode_utf8(b@),
            forall|j: int| 0 <= j < i ==> x@[j] == y@[j],
        decreases x.len() - i,
    {
        if x[i] != y[i] {
            return false;
        }
        i += 1;
    }
    assert(x@ =~= y@);
    true
}

/// The characters of a string, one by one.
pub fn char_vec(s: &str) -> (res: Vec<char>)
    ensures
        res@ == s@,
{
    let mut res: Vec<char> = Vec::new();
    for c in it: s.chars()
        invariant
            it.seq() == s@,
            res@ == s@.take(it.index()),
    {
        res.push(c);
    }
    assert(s@.take(s@.len() as int) =~= s@);
    res
}

// ---------------------------------------------------------------------------
// Splitting
// ---------------------------------------------------------------------------

/// The pieces of `s` between the characters that `is_sep` picks, in order: one
/// more than there are such characters, and possibly empty.
pub open spec fn split_by(s: Seq<char>, is_sep: spec_fn(char) -> bool) -> Seq<Seq<char>>
    decreases s.len(),
{
    if s.len() == 0 {
        seq![Seq::empty()]
    } else {
        let head = split_by(s.drop_last(), is_sep);
        if is_sep(s.last()) {
            head.push(Seq::empty())
        } else {
            head.update(head.len() - 1, head.last().push(s.last()))
        }
    }
}

/// Picks the character `sep` alone.
pub open spec fn equals_char(sep: char) -> spec_fn(char) -> bool {
    |c: char| c == sep
}

/// The pieces of `s` between the characters `sep`.
pub open spec fn split(s: Seq<char>, sep: char) -> Seq<Seq<char>> {
    split_by(s, equals_char(sep))
}

/// There is always at least one piece.
pub proof fn lemma_split_nonempty(s: Seq<char>, is_sep: spec_fn(char) -> bool)
    ensures
        split_by(s, is_sep).len() >= 1,
    decreases s.len(),
{
    if s.len() > 0 {
        lemma_split_nonempty(s.drop_last(), is_sep);
    }
}

/// Text without a separator is its own only piece.
pub proof fn lemma_split_whole(s: Seq<char>, is_sep: spec_fn(char) -> bool)
    requires
        forall|i: int| 0 <= i < s.len() ==> !is_sep(#[trigger] s[i]),
    ensures
        split_by(s, is_sep) == seq![s],
    decreases s.len(),
{
    if s.len() == 0 {
        assert(s =~= Seq::empty());
    } else {
        let t = s.drop_last();
        assert forall|i: int| 0 <= i < t.len() implies !is_sep(#[trigger] t[i]) by {
            assert(t[i] == s[i]);
        }
        lemma_split_whole(t, is_sep);
        assert(!is_sep(s[s.len() - 1]));
        assert(t.push(s.last()) =~= s);
        assert(split_by(s, is_sep) =~= seq![s]);
    }
}

/// No piece holds a separator.
pub proof fn lemma_split_pieces(s: Seq<char>, is_sep: spec_fn(char) -> bool)
    ensures
        forall|i: int, j: int|
            0 <= i < split_by(s, is_sep).len() && 0 <= j < split_by(s, is_sep)[i].len()
                ==> !is_sep(#[trigger] split_by(s, is_sep)[i][j]),
    decreases s.len(),
{
    if s.len() > 0 {
        let head = split_by(s.drop_last(), is_sep);
        let pieces = split_by(s, is_sep);
        lemma_split_pieces(s.drop_last(), is_sep);
        lemma_split_nonempty(s.drop_last(), is_sep);
        assert forall|i: int, j: int|
            0 <= i < pieces.len() && 0 <= j < pieces[i].len() implies !is_sep(
            #[trigger] pieces[i][j],
        ) by {
            if i < head.len() && j < head[i].len() {
                assert(pieces[i][j] == head[i][j]);
            }
        }
    }
}

/// A separator between two texts parts the pieces of the one from those of the
/// other.
pub proof fn lemma_split_concat(a: Seq<char>, sep: char, b: Seq<char>, is_sep: spec_fn(char) -> bool)
    requires
        is_sep(sep),
    ensures
        split_by(a.push(sep) + b, is_sep) == split_by(a, is_sep) + split_by(b, is_sep),
    decreases b.len(),
{
    let s = a.push(sep) + b;
    if b.len() == 0 {
        assert(s =~= a.push(sep));
        assert(s.drop_last() =~= a);
        assert(split_by(s, is_sep) =~= split_by(a, is_sep) + split_by(b, is_sep));
    } else {
        let c = b.drop_last();
        lemma_split_concat(a, sep, c, is_sep);
        lemma_split_nonempty(c, is_sep);
        assert(s.drop_last() =~= a.push(sep) + c);
        assert(s.last() == b.last());
        assert(split_by(s, is_sep) =~= split_by(a, is_sep) + split_by(b, is_sep));
    }
}

/// The characters that a list of strings holds.
pub open spec fn str_views(v: Seq<&str>) -> Seq<Seq<char>> {
    v.map_values(|s: &str| s@)
}

/// `str::split` with a character: the pieces of `s` between the characters `sep`.
pub fn split_str(s: &str, sep: char) -> (res: Vec<&str>)
    ensures
        str_views(res@) == split(s@, sep),
        res@.len() >= 1,
{
    let ghost is_sep = equals_char(sep);
    let chars = char_vec(s);
    let mut res: Vec<&str> = Vec::new();
    let mut start: usize = 0;
    let mut i: usize = 0;
    assert(s@.take(0) =~= Seq::empty());
    assert(s@.subrange(0, 0) =~= Seq::empty());
    assert(str_views(res@).push(s@.subrange(0, 0)) =~= split_by(s@.take(0), is_sep));
    while i < chars.len()
        invariant
            chars@ == s@,
            start <= i <= chars.len(),
            is_sep == equals_char(sep),
            str_views(res@).push(s@.subrange(start as int, i as int)) == split_by(
                s@.take(i as int),
                is_sep,
            ),
        decreases chars.len() - i,
    {
        let ghost done = str_views(res@);
        let ghost piece = s@.subrange(start as int, i as int);
        proof {
            let t = s@.take(i + 1);
            assert(t.drop_last() =~= s@.take(i as int));
            assert(t.last() == s@[i as int]);
        }
        if chars[i] == sep {
            res.push(s.substring_char(start, i));
            start = i + 1;
            assert(str_views(res@) =~= done.push(piece));
            assert(s@.subrange(start as int, i + 1) =~= Seq::empty());
        } else {
            assert(s@.subrange(start as int, i + 1) =~= piece.push(s@[i as int]));
            assert(done.push(piece).update(done.len() as int, piece.push(s@[i as int])) =~= done.push(
                piece.push(s@[i as int]),
            ));
        }
        i += 1;
    }
    let ghost done = str_views(res@);
    res.push(s.substring_char(start, i));
    assert(s@.take(i as int) =~= s@);
    assert(str_views(res@) =~= done.push(s@.subrange(start as int, i as int)));
    res
}

/// `s` behind `prefix`, where it begins with it.
pub open spec fn without_prefix(s: Seq<char>, prefix: Seq<char>) -> Option<Seq<char>> {
    if prefix.len() <= s.len() && s.take(prefix.len() as int) == prefix {
        Some(s.skip(prefix.len() as int))
    } else {
        None
    }
}

/// `s` before `suffix`, where it ends with it.
pub open spec fn without_suffix(s: Seq<char>, suffix: Seq<char>) -> Option<Seq<char>> {
    if suffix.len() <= s.len() && s.skip(s.len() - suffix.len()) == suffix {
        Some(s.take(s.len() - suffix.len()))
    } else {
        None
    }
}

/// `str::strip_prefix`.
pub fn strip_prefix<'a>(s: &'a str, prefix: &str) -> (res: Option<&'a str>)
    ensures
        match res {
            Some(rest) => without_prefix(s@, prefix@) == Some(rest@),
            None => without_prefix(s@, prefix@) is None,
        },
{
    let n: usize = s.unicode_len();
    let k: usize = prefix.unicode_len();
    if k > n {
        return None;
    }
    let head = s.substring_char(0, k);
    assert(head@ =~= s@.take(k as int));
    if str_eq(head, prefix) {
        let rest = s.substring_char(k, n);
        assert(rest@ =~= s@.skip(k as int));
        Some(rest)
    } else {
        None
    }
}

/// `str::strip_suffix`.
pub fn strip_suffix<'a>(s: &'a str, suffix: &str) -> (res: Option<&'a str>)
    ensures
        match res {
            Some(rest) => without_suffix(s@, suffix@) == Some(rest@),
            None => without_suffix(s@, suffix@) is None,
        },
{
    let n: usize = s.unicode_len();
    let k: usize = suffix.unicode_len();
    if k > n {
        return None;
    }
    let tail = s.substring_char(n - k, n);
    assert(tail@ =~= s@.skip(n - k));
    if str_eq(tail, suffix) {
        let rest = s.substring_char(0, n - k);
        assert(rest@ =~= s@.take(n - k));
        Some(rest)
    } else {
        None
    }
}

// ---------------------------------------------------------------------------
// White space
// ---------------------------------------------------------------------------

/// A character of the Unicode property `White_Space`.
pub open spec fn is_white_space(c: char) -> bool {
    ||| 0x9 <= c as u32 <= 0xd
    ||| c as u32 == 0x20
    ||| c as u32 == 0x85
    ||| c as u32 == 0xa0
    ||| c as u32 == 0x1680
    ||| 0x2000 <= c as u32 <= 0x200a
    ||| 0x2028 <= c as u32 <= 0x2029
    ||| c as u32 == 0x202f
    ||| c as u32 == 0x205f
    ||| c as u32 == 0x3000
}

/// `s` from its first character on that is not white space.
pub open spec fn trim_start(s: Seq<char>) -> Seq<char>
    decreases s.len(),
{
    if s.len() > 0 && is_white_space(s.first()) {
        trim_start(s.drop_first())
    } else {
        s
    }
}

/// `s` up to its last character that is not white space.
pub open spec fn trim_end(s: Seq<char>) -> Seq<char>
    decreases s.len(),
{
    if s.len() > 0 && is_white_space(s.last()) {
        trim_end(s.drop_last())
    } else {
        s
    }
}

/// `s` without the white space at its two ends.
pub open spec fn trim(s: Seq<char>) -> Seq<char> {
    trim_end(trim_start(s))
}

/// Trimmed text has no white space at its ends.
pub proof fn lemma_trim_ends(s: Seq<char>)
    ensures
        trim(s).len() > 0 ==> !is_white_space(trim(s).first()) && !is_white_space(trim(s).last()),
{
    lemma_trim_start_end(s);
    lemma_trim_end_ends(trim_start(s));
}

proof fn lemma_trim_start_end(s: Seq<char>)
    ensures
        trim_start(s).len() > 0 ==> !is_white_space(trim_start(s).first()),
    decreases s.len(),
{
    if s.len() > 0 && is_white_space(s.first()) {
        lemma_trim_start_end(s.drop_first());
    }
}

proof fn lemma_trim_end_ends(s: Seq<char>)
    ensures
        trim_end(s).len() > 0 ==> trim_end(s).first() == s.first() && !is_white_space(
            trim_end(s).last(),
        ),
    decreases s.len(),
{
    if s.len() > 0 && is_white_space(s.last()) {
        lemma_trim_end_ends(s.drop_last());
    }
}

/// The words of `s`: its longest runs without white space, in order.
pub open spec fn words(s: Seq<char>) -> Seq<Seq<char>> {
    split_by(s, |c: char| is_white_space(c)).filter(|w: Seq<char>| w.len() > 0)
}

/// `char::is_whitespace`.
pub fn is_whitespace(c: char) -> (res: bool)
    ensures
        res == is_white_space(c),
{
    let u: u32 = c as u32;
    (0x9 <= u && u <= 0xd) || u == 0x20 || u == 0x85 || u == 0xa0 || u == 0x1680 || (0x2000 <= u
        && u <= 0x200a) || (0x2028 <= u && u <= 0x2029) || u == 0x202f || u == 0x205f || u == 0x3000
}

/// `str::trim`.
pub fn trim_str(s: &str) -> (res: &str)
    ensures
        res@ == trim(s@),
{
    let chars = char_vec(s);
    let n: usize = chars.len();
    let mut start: usize = 0;
    assert(s@.subrange(0, n as int) =~= s@);
    while start < n && is_whitespace(chars[start])
        invariant
            chars@ == s@,
            n == chars.len(),
            start <= n,
            trim_start(s@.subrange(start as int, n as int)) == trim_start(s@),
        decreases n - start,
    {
        assert(s@.subrange(start as int, n as int).drop_first() =~= s@.subrange(
            start + 1,
            n as int,
        ));
        start += 1;
    }
    let ghost rest = s@.subrange(start as int, n as int);
    assert(trim_start(rest) == rest);
    let mut end: usize = n;
    while start < end && is_whitespace(chars[end - 1])
        invariant
            chars@ == s@,
            n == chars.len(),
            start <= end <= n,
            trim_end(s@.subrange(start as int, end as int)) == trim_end(rest),
        decreases end,
    {
        assert(s@.subrange(start as int, end as int).drop_last() =~= s@.subrange(
            start as int,
            end - 1,
        ));
        end -= 1;
    }
    s.substring_char(start, end)
}

/// `str::split_whitespace`: the words of `s`.
pub fn split_whitespace(s: &str) -> (res: Vec<&str>)
    ensures
        str_views(res@) == words(s@),
{
    let ghost is_sep = |c: char| is_white_space(c);
    let ghost is_word = |w: Seq<char>| w.len() > 0;
    let chars = char_vec(s);
    let mut res: Vec<&str> = Vec::new();
    let mut start: usize = 0;
    let mut i: usize = 0;
    let ghost mut pieces: Seq<Seq<char>> = Seq::empty();
    proof {
        reveal(Seq::filter);
        assert(s@.take(0) =~= Seq::empty());
        assert(pieces.push(s@.subrange(0, 0)) =~= split_by(s@.take(0), is_sep));
        assert(str_views(res@) =~= pieces.filter(is_word));
    }
    while i < chars.len()
        invariant
            chars@ == s@,
            start <= i <= chars.len(),
            is_sep == (|c: char| is_white_space(c)),
            is_word == (|w: Seq<char>| w.len() > 0),
            pieces.push(s@.subrange(start as int, i as int)) == split_by(s@.take(i as int), is_sep),
            str_views(res@) == pieces.filter(is_word),
        decreases chars.len() - i,
    {
        let ghost done = str_views(res@);
        let ghost piece = s@.subrange(start as int, i as int);
        proof {
            let t = s@.take(i + 1);
            assert(t.drop_last() =~= s@.take(i as int));
            assert(t.last() == s@[i as int]);
        }
        if is_whitespace(chars[i]) {
            proof {
                lemma_filter_push(pieces, piece, is_word);
                pieces = pieces.push(piece);
            }
            if start < i {
                res.push(s.substring_char(start, i));
                assert(str_views(res@) =~= done.push(piece));
            }
            start = i + 1;
            assert(s@.subrange(start as int, i + 1) =~= Seq::empty());
        } else {
            assert(s@.subrange(start as int, i + 1) =~= piece.push(s@[i as int]));
            assert(pieces.push(piece).update(pieces.len() as int, piece.push(s@[i as int]))
                =~= pieces.push(piece.push(s@[i as int])));
        }
        i += 1;
    }
    let ghost done = str_views(res@);
    let ghost piece = s@.subrange(start as int, i as int);
    assert(s@.take(i as int) =~= s@);
    proof {
        lemma_filter_push(pieces, piece, is_word);
    }
    if start < i {
        res.push(s.substring_char(start, i));
        assert(str_views(res@) =~= done.push(piece));
    }
    res
}

/// Filtering a sequence with one element more.
proof fn lemma_filter_push(s: Seq<Seq<char>>, x: Seq<char>, p: spec_fn(Seq<char>) -> bool)
    ensures
        s.push(x).filter(p) == if p(x) {
            s.filter(p).push(x)
        } else {
            s.filter(p)
        },
{
    reveal(Seq::filter);
    assert(s.push(x).drop_last() =~= s);
}

// ---------------------------------------------------------------------------
// Decimal numbers
// ---------------------------------------------------------------------------

/// The character of the decimal digit `d`.
pub open spec fn digit_char(d: nat) -> char {
    (48 + d) as char
}

/// `n` in decimal, without leading zeros.
pub open spec fn decimal(n: nat) -> Seq<char>
    decreases n,
{
    if n < 10 {
        seq![digit_char(n)]
    } else {
        decimal(n / 10).push(digit_char(n % 10))
    }
}

/// A decimal digit.
pub open spec fn is_digit(c: char) -> bool {
    '0' <= c <= '9'
}

/// The number that a run of decimal digits stands for.
pub open spec fn digits_value(s: Seq<char>) -> nat
    decreases s.len(),
{
    if s.len() == 0 {
        0
    } else {
        digits_value(s.drop_last()) * 10 + (s.last() as nat - 48) as nat
    }
}

/// Decimal digits, at least one of them.
pub open spec fn is_digits(s: Seq<char>) -> bool {
    s.len() > 0 && forall|i: int| 0 <= i < s.len() ==> is_digit(#[trigger] s[i])
}

/// The number no greater than `max` that `s` writes in decimal, where it writes
/// one: digits, which one plus sign may precede.
pub open spec fn parse_unsigned(s: Seq<char>, max: nat) -> Option<nat> {
    let digits = if s.len() > 0 && s[0] == '+' {
        s.drop_first()
    } else {
        s
    };
    if is_digits(digits) && digits_value(digits) <= max {
        Some(digits_value(digits))
    } else {
        None
    }
}

/// Puts `n` in decimal behind what `out` holds.
pub fn push_decimal(out: &mut String, n: u64)
    ensures
        final(out)@ == old(out)@ + decimal(n as nat),
    decreases n,
{
    if n >= 10 {
        push_decimal(out, n / 10);
    }
    let ghost before = out@;
    let digit: u8 = (n % 10) as u8;
    out.push((48 + digit) as char);
    assert(out@ =~= old(out)@ + decimal(n as nat));
}

/// `str::parse` for an unsigned type whose greatest value is `max`.
pub fn parse_decimal(s: &str, max: u32) -> (res: Option<u32>)
    ensures
        match res {
            Some(n) => parse_unsigned(s@, max as nat) == Some(n as nat),
            None => parse_unsigned(s@, max as nat) is None,
        },
{
    let chars = char_vec(s);
    let n: usize = chars.len();
    let start: usize = if n > 0 && chars[0] == '+' {
        1
    } else {
        0
    };
    let ghost digits = s@.subrange(start as int, n as int);
    proof {
        if start == 1 {
            assert(digits =~= s@.drop_first());
        } else {
            assert(digits =~= s@);
        }
    }
    if start == n {
        return None;
    }
    let mut value: u64 = 0;
    let mut i: usize = start;
    assert(digits.take(0) =~= Seq::empty());
    while i < n
        invariant
            chars@ == s@,
            n == chars.len(),
            start <= i <= n,
            digits == s@.subrange(start as int, n as int),
            forall|j: int| 0 <= j < i - start ==> is_digit(#[trigger] digits[j]),
            value == digits_value(digits.take(i - start)),
            value <= max,
            parse_unsigned(s@, max as nat) == if is_digits(digits) && digits_value(digits) <= max {
                Some(digits_value(digits))
            } else {
                None
            },
        decreases n - i,
    {
        let c = chars[i];
        assert(digits[i - start] == c);
        if c < '0' || '9' < c {
            assert(!is_digit(digits[i - start]));
            return None;
        }
        value = value * 10 + ((c as u8) - 48) as u64;
        assert(digits.take(i - start + 1).drop_last() =~= digits.take(i - start));
        if value > max as u64 {
            proof {
                lemma_digits_value_grows(digits, i - start + 1);
            }
            return None;
        }
        i += 1;
    }
    assert(digits.take(n - start) =~= digits);
    Some(value as u32)
}

/// More digits never stand for a smaller number.
proof fn lemma_digits_value_grows(s: Seq<char>, k: int)
    requires
        0 <= k <= s.len(),
    ensures
        digits_value(s.take(k)) <= digits_value(s),
    decreases s.len() - k,
{
    if k < s.len() {
        lemma_digits_value_grows(s, k + 1);
        assert(s.take(k + 1).drop_last() =~= s.take(k));
    } else {
        assert(s.take(k) =~= s);
    }
}

/// A number written in decimal reads back as itself, in digits alone.
pub proof fn lemma_decimal_reads_back(n: nat)
    ensures
        is_digits(decimal(n)),
        digits_value(decimal(n)) == n,
    decreases n,
{
    let d = decimal(n);
    if n < 10 {
        assert(d.drop_last() =~= Seq::empty());
        assert(digits_value(d.drop_last()) == 0);
    } else {
        lemma_decimal_reads_back(n / 10);
        assert(d.drop_last() =~= decimal(n / 10));
        assert forall|i: int| 0 <= i < d.len() implies is_digit(#[trigger] d[i]) by {
            if i < d.len() - 1 {
                assert(d[i] == decimal(n / 10)[i]);
            }
        }
    }
}

// ---------------------------------------------------------------------------
// Bytes
// ---------------------------------------------------------------------------

/// Puts the UTF-8 form of `c` behind what `out` holds.
pub fn push_utf8(out: &mut Vec<u8>, c: char)
    ensures
        final(out)@ == old(out)@ + encode_utf8(seq![c]),
{
    let u: u32 = c as u32;
    let ghost before = out@;
    proof {
        reveal_with_fuel(encode_utf8, 2);
        assert(seq![c].drop_first() =~= Seq::empty());
        assert(encode_utf8(seq![c]) =~= encode_scalar(u));
    }
    if u <= 0x7f {
        out.push((u & 0x7f) as u8);
    } else if u <= 0x7ff {
        out.push(0xc0 | ((u >> 6) & 0x1f) as u8);
        out.push(0x80 | (u & 0x3f) as u8);
    } else if u <= 0xffff {
        out.push(0xe0 | ((u >> 12) & 0x0f) as u8);
        out.push(0x80 | ((u >> 6) & 0x3f) as u8);
        out.push(0x80 | (u & 0x3f) as u8);
    } else {
        out.push(0xf0 | ((u >> 18) & 0x7) as u8);
        out.push(0x80 | ((u >> 12) & 0x3f) as u8);
        out.push(0x80 | ((u >> 6) & 0x3f) as u8);
        out.push(0x80 | (u & 0x3f) as u8);
    }
    assert(out@ =~= before + encode_scalar(u));
}

/// What `String::from_utf8_lossy` makes of bytes that are not UTF-8.
pub uninterp spec fn lossy_text(bytes: Seq<u8>) -> Seq<char>;

/// The text that `bytes` hold, with replacements where they are not UTF-8.
pub open spec fn utf8_text(bytes: Seq<u8>) -> Seq<char> {
    if valid_utf8(bytes) {
        decode_utf8(bytes)
    } else {
        lossy_text(bytes)
    }
}

/// Calls `String::from_utf8_lossy`. Believed of it: valid UTF-8 is decoded, and
/// the text for other bytes depends on those bytes alone.
#[verifier::external_body]
pub(crate) fn from_utf8_lossy(bytes: &[u8]) -> (res: String)
    ensures
        res@ == (if valid_utf8(bytes@) {
            decode_utf8(bytes@)
        } else {
            lossy_text(bytes@)
        }),
{
    String::from_utf8_lossy(bytes).into_owned()
}

} // verus!
