//! What holds of text, whatever the text.
use vstd::prelude::*;
use vstd::utf8::*;

use crate::text::{
    ascii_lower, ascii_upper_char, decimal, digits_value, equals_char, is_digits, is_white_space,
    lemma_decimal_reads_back, lemma_split_concat, lemma_split_nonempty, lemma_split_pieces,
    lemma_split_whole, lowercase, parse_unsigned, split, split_by, trim, trim_end, trim_start,
    utf8_text, without_prefix, without_suffix, words,
};

verus! {

// ---------------------------------------------------------------------------
// Case
// ---------------------------------------------------------------------------

/// Lower case moves the ASCII letters from `A` to `Z` by 32 and leaves every other
/// character of ASCII text as it is.
pub proof fn law_lower_case_moves_letters(s: Seq<char>, i: int)
    requires
        0 <= i < s.len(),
    ensures
        ascii_lower(s).len() == s.len(),
        65 <= s[i] as int <= 90 ==> ascii_lower(s)[i] as int == s[i] as int + 32,
        !(65 <= s[i] as int <= 90) ==> ascii_lower(s)[i] == s[i],
        (forall|j: int| 0 <= j < s.len() ==> (#[trigger] s[j]) as int <= 127) ==> lowercase(s)
            == ascii_lower(s),
{
    if forall|j: int| 0 <= j < s.len() ==> (#[trigger] s[j]) as int <= 127 {
        let lower = ascii_lower(s);
        assert forall|j: int| 0 <= j < lower.len() implies '\0' <= #[trigger] lower[j]
            <= '\u{7f}' by {
            assert(s[j] as int <= 127);
        }
        assert(is_ascii_chars(lower));
    }
}

/// Upper case undoes lower case on letters and leaves every other character as it
/// is.
pub proof fn law_upper_case_moves_letters(c: char)
    ensures
        97 <= c as int <= 122 ==> ascii_upper_char(c) as int == c as int - 32,
        !(97 <= c as int <= 122) ==> ascii_upper_char(c) == c,
{
}

// ---------------------------------------------------------------------------
// Splitting
// ---------------------------------------------------------------------------

/// The pieces one behind the other, with `sep` between them.
pub open spec fn joined_by(pieces: Seq<Seq<char>>, sep: char) -> Seq<char>
    decreases pieces.len(),
{
    if pieces.len() == 0 {
        Seq::empty()
    } else if pieces.len() == 1 {
        pieces[0]
    } else {
        joined_by(pieces.drop_last(), sep).push(sep) + pieces.last()
    }
}

/// Splitting loses nothing and leaves no separator: the pieces joined are the text,
/// and none of them holds the separator.
pub proof fn law_split_joins_back(s: Seq<char>, sep: char)
    ensures
        joined_by(split(s, sep), sep) == s,
        forall|i: int|
            0 <= i < split(s, sep).len() ==> !(#[trigger] split(s, sep)[i]).contains(sep),
    decreases s.len(),
{
    let pieces = split(s, sep);
    lemma_split_pieces(s, equals_char(sep));
    assert forall|i: int| 0 <= i < pieces.len() implies !(#[trigger] pieces[i]).contains(sep) by {
        assert forall|j: int| 0 <= j < pieces[i].len() implies pieces[i][j] != sep by {
            assert(!equals_char(sep)(split_by(s, equals_char(sep))[i][j]));
        }
    }
    if s.len() == 0 {
        assert(s =~= Seq::empty());
    } else {
        let t = s.drop_last();
        let c = s.last();
        let head = split(t, sep);
        law_split_joins_back(t, sep);
        lemma_split_nonempty(t, equals_char(sep));
        assert(s =~= t.push(c));
        if c == sep {
            assert(pieces =~= head.push(Seq::empty()));
            assert(pieces.drop_last() =~= head);
            assert(joined_by(pieces, sep) =~= s);
        } else {
            assert(pieces.drop_last() =~= head.drop_last());
            assert(joined_by(pieces, sep) =~= joined_by(head, sep).push(c));
        }
    }
}

/// What a prefix is taken off is the prefix and the rest, one behind the other.
pub proof fn law_prefix_comes_off(prefix: Seq<char>, rest: Seq<char>, s: Seq<char>)
    ensures
        without_prefix(prefix + rest, prefix) == Some(rest),
        without_prefix(s, prefix) matches Some(r) ==> s == prefix + r,
{
    assert((prefix + rest).take(prefix.len() as int) =~= prefix);
    assert((prefix + rest).skip(prefix.len() as int) =~= rest);
    if without_prefix(s, prefix) is Some {
        assert(s =~= s.take(prefix.len() as int) + s.skip(prefix.len() as int));
    }
}

/// What a suffix is taken off is the rest and the suffix, one behind the other.
pub proof fn law_suffix_comes_off(rest: Seq<char>, suffix: Seq<char>, s: Seq<char>)
    ensures
        without_suffix(rest + suffix, suffix) == Some(rest),
        without_suffix(s, suffix) matches Some(r) ==> s == r + suffix,
{
    assert((rest + suffix).take(rest.len() as int) =~= rest);
    assert((rest + suffix).skip(rest.len() as int) =~= suffix);
    if without_suffix(s, suffix) is Some {
        let k = s.len() - suffix.len();
        assert(s =~= s.take(k) + s.skip(k));
    }
}

// ---------------------------------------------------------------------------
// White space
// ---------------------------------------------------------------------------

/// Text of white space alone.
pub open spec fn is_blank(s: Seq<char>) -> bool {
    forall|i: int| 0 <= i < s.len() ==> is_white_space(#[trigger] s[i])
}

/// Text without white space.
pub open spec fn is_solid(s: Seq<char>) -> bool {
    forall|i: int| 0 <= i < s.len() ==> !is_white_space(#[trigger] s[i])
}

/// Trimming takes the white space off both ends and nothing else.
pub proof fn law_trim_takes_ends_alone(before: Seq<char>, x: Seq<char>, after: Seq<char>)
    requires
        is_blank(before),
        is_blank(after),
        x.len() > 0 ==> !is_white_space(x.first()) && !is_white_space(x.last()),
    ensures
        trim(before + x + after) == x,
{
    let s = before + x + after;
    if x.len() == 0 {
        assert(s =~= before + after);
        assert(is_blank(s));
        lemma_trim_start_blank(s, Seq::empty());
        assert(s + Seq::empty() =~= s);
        assert(x =~= Seq::empty());
    } else {
        assert(s =~= before + (x + after));
        assert((x + after).first() == x.first());
        lemma_trim_start_blank(before, x + after);
        lemma_trim_end_blank(x, after);
    }
}

proof fn lemma_trim_start_blank(before: Seq<char>, rest: Seq<char>)
    requires
        is_blank(before),
        rest.len() > 0 ==> !is_white_space(rest.first()),
    ensures
        trim_start(before + rest) == rest,
    decreases before.len(),
{
    if before.len() == 0 {
        assert(before + rest =~= rest);
    } else {
        let tail = before.drop_first();
        assert forall|i: int| 0 <= i < tail.len() implies is_white_space(#[trigger] tail[i]) by {
            assert(tail[i] == before[i + 1]);
        }
        lemma_trim_start_blank(tail, rest);
        assert((before + rest).first() == before[0]);
        assert((before + rest).drop_first() =~= tail + rest);
    }
}

proof fn lemma_trim_end_blank(x: Seq<char>, after: Seq<char>)
    requires
        is_blank(after),
        x.len() > 0,
        !is_white_space(x.last()),
    ensures
        trim_end(x + after) == x,
    decreases after.len(),
{
    if after.len() == 0 {
        assert(x + after =~= x);
    } else {
        let head = after.drop_last();
        assert forall|i: int| 0 <= i < head.len() implies is_white_space(#[trigger] head[i]) by {
            assert(head[i] == after[i]);
        }
        lemma_trim_end_blank(x, head);
        assert((x + after).last() == after[after.len() - 1]);
        assert((x + after).drop_last() =~= x + head);
    }
}

/// A run without white space is one word.
pub proof fn law_solid_text_is_one_word(w: Seq<char>)
    requires
        is_solid(w),
        w.len() > 0,
    ensures
        words(w) == seq![w],
{
    let is_sep = |c: char| is_white_space(c);
    let is_word = |w: Seq<char>| w.len() > 0;
    reveal_with_fuel(Seq::filter, 3);
    lemma_split_whole(w, is_sep);
    assert(seq![w].drop_last() =~= Seq::empty());
    assert(seq![w].filter(is_word) =~= seq![w]);
}

/// White space parts words: the words of a text are those before it and those behind
/// it.
pub proof fn law_white_space_parts_words(a: Seq<char>, c: char, b: Seq<char>)
    requires
        is_white_space(c),
    ensures
        words(a.push(c) + b) == words(a) + words(b),
        words(Seq::<char>::empty()) == Seq::<Seq<char>>::empty(),
{
    let is_sep = |c: char| is_white_space(c);
    let is_word = |w: Seq<char>| w.len() > 0;
    lemma_split_concat(a, c, b, is_sep);
    Seq::filter_distributes_over_add(split_by(a, is_sep), split_by(b, is_sep), is_word);
    reveal_with_fuel(Seq::filter, 3);
    let nothing = seq![Seq::<char>::empty()];
    assert(nothing.drop_last() =~= Seq::empty());
    assert(split_by(Seq::<char>::empty(), is_sep) =~= nothing);
    assert(nothing.filter(is_word) =~= Seq::empty());
}

// ---------------------------------------------------------------------------
// Decimal numbers
// ---------------------------------------------------------------------------

/// A number is written in the digits `0` to `9`, with no zero in front but for zero
/// itself, and its last digit counts ones.
pub proof fn law_decimal_is_plain(n: nat)
    ensures
        decimal(n).len() > 0,
        forall|i: int| 0 <= i < decimal(n).len() ==> 48 <= (#[trigger] decimal(n)[i]) as int <= 57,
        decimal(n).len() > 1 ==> decimal(n)[0] != '0',
        decimal(n).last() as int == 48 + n % 10,
        n >= 10 ==> decimal(n).drop_last() == decimal(n / 10),
        n < 10 ==> decimal(n).len() == 1,
    decreases n,
{
    if n >= 10 {
        law_decimal_is_plain(n / 10);
        let d = decimal(n);
        assert(d.drop_last() =~= decimal(n / 10));
        assert forall|i: int| 0 <= i < d.len() implies 48 <= (#[trigger] d[i]) as int <= 57 by {
            if i < d.len() - 1 {
                assert(d[i] == decimal(n / 10)[i]);
            }
        }
        if n / 10 < 10 {
            assert(decimal(n / 10)[0] as int == 48 + n / 10);
        }
        assert(d[0] == decimal(n / 10)[0]);
    }
}

/// Different numbers are written differently.
pub proof fn law_decimals_differ(m: nat, n: nat)
    requires
        decimal(m) == decimal(n),
    ensures
        m == n,
{
    lemma_decimal_reads_back(m);
    lemma_decimal_reads_back(n);
}

/// Every number up to the bound reads back from its decimal form, with or without a
/// plus sign, and none above it does.
pub proof fn law_decimal_reads_up_to_bound(n: nat, max: nat)
    ensures
        n <= max ==> parse_unsigned(decimal(n), max) == Some(n),
        n <= max ==> parse_unsigned(seq!['+'] + decimal(n), max) == Some(n),
        n > max ==> parse_unsigned(decimal(n), max) is None,
{
    lemma_decimal_reads_back(n);
    law_decimal_is_plain(n);
    assert(decimal(n)[0] != '+');
    assert((seq!['+'] + decimal(n)).drop_first() =~= decimal(n));
}

/// Digits count by tens from the left, whatever zeros they begin with.
pub proof fn law_digits_count_by_tens(s: Seq<char>, c: char, max: nat)
    requires
        48 <= c as int <= 57,
        parse_unsigned(s, max) is Some,
    ensures
        parse_unsigned(s.push(c), 10 * max + 9) == Some(
            (parse_unsigned(s, max)->0 * 10 + (c as int - 48)) as nat,
        ),
{
    let digits = if s.len() > 0 && s[0] == '+' {
        s.drop_first()
    } else {
        s
    };
    let more = if s.push(c)[0] == '+' {
        s.push(c).drop_first()
    } else {
        s.push(c)
    };
    assert(more =~= digits.push(c));
    assert(more.drop_last() =~= digits);
    assert forall|i: int| 0 <= i < more.len() implies '0' <= #[trigger] more[i] <= '9' by {
        if i < digits.len() {
            assert(more[i] == digits[i]);
        }
    }
    assert(is_digits(more));
    assert(digits_value(more) == digits_value(digits) * 10 + (c as nat - 48) as nat);
}

/// Text that is empty, or holds anything but digits behind a sign, is no number.
pub proof fn law_other_text_is_no_number(s: Seq<char>, i: int, max: nat)
    requires
        s.len() == 0 || s == seq!['+'] || (0 <= i < s.len() && !(48 <= s[i] as int <= 57) && (i > 0
            || s[i] != '+')),
    ensures
        parse_unsigned(s, max) is None,
{
    if s.len() > 0 && s != seq!['+'] {
        if s[0] == '+' {
            assert(s.drop_first()[i - 1] == s[i]);
        }
    }
}

// ---------------------------------------------------------------------------
// Bytes
// ---------------------------------------------------------------------------

/// Text that was written as UTF-8 is read back unchanged.
pub proof fn law_utf8_reads_back(s: Seq<char>)
    ensures
        utf8_text(encode_utf8(s)) == s,
{
    encode_utf8_valid_utf8(s);
    encode_utf8_decode_utf8(s);
}

/// The UTF-8 of two texts, one behind the other, is that of each.
pub proof fn lemma_encode_concat(a: Seq<char>, b: Seq<char>)
    ensures
        encode_utf8(a + b) == encode_utf8(a) + encode_utf8(b),
    decreases a.len(),
{
    if a.len() == 0 {
        assert(a + b =~= b);
        assert(encode_utf8(a) + encode_utf8(b) =~= encode_utf8(b));
    } else {
        lemma_encode_concat(a.drop_first(), b);
        assert((a + b).drop_first() =~= a.drop_first() + b);
        assert((a + b)[0] == a[0]);
        assert(encode_utf8(a + b) =~= encode_utf8(a) + encode_utf8(b));
    }
}

} // verus!
