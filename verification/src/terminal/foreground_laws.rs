//! What the platforms tell of processes, and the name that comes of it.
use vstd::prelude::*;
use vstd::string::*;
use vstd::utf8::*;

use crate::command::{may_answer, CommandLine};
use crate::terminal::foreground::{
    after_name, first_name, foreground_group, is_cut_short, is_trimmed, line_name, linux_may_name,
    macos_may_name, macos_may_name_group, may_name, may_print, may_read, proc_path, ps_command,
    ps_name, ps_number, trimmed_name, windows_may_name, wmic_command, wmic_name, CutShort,
};
use crate::text::{
    decimal, equals_char, is_white_space, lemma_split_concat, lemma_split_nonempty,
    lemma_split_whole, parse_unsigned, split, without_prefix, without_suffix, words,
};
use crate::text_laws::{
    is_blank, is_solid, law_decimal_is_plain, law_decimal_reads_up_to_bound, law_prefix_comes_off,
    law_solid_text_is_one_word, law_suffix_comes_off, law_trim_takes_ends_alone,
    law_utf8_reads_back, law_white_space_parts_words,
};

verus! {

// ---------------------------------------------------------------------------
// Linux: the status of a process
// ---------------------------------------------------------------------------

proof fn lemma_behind_last_bracket(before: Seq<char>, rest: Seq<char>)
    requires
        !rest.contains(')'),
    ensures
        after_name(before.push(')') + rest) == Some(rest),
{
    assert forall|i: int| 0 <= i < rest.len() implies !equals_char(')')(#[trigger] rest[i]) by {
        assert(rest.contains(rest[i]));
    }
    lemma_split_whole(rest, equals_char(')'));
    lemma_split_concat(before, ')', rest, equals_char(')'));
    lemma_split_nonempty(before, equals_char(')'));
}

proof fn lemma_decimal_is_solid(n: nat)
    ensures
        is_solid(decimal(n)),
        decimal(n).len() > 0,
        !decimal(n).contains(')'),
{
    law_decimal_is_plain(n);
    assert forall|i: int| 0 <= i < decimal(n).len() implies !is_white_space(
        #[trigger] decimal(n)[i],
    ) && decimal(n)[i] != ')' by {
        assert(48 <= decimal(n)[i] as int <= 57);
    }
}

/// Whatever number of a process group stands as the sixth word behind the name of the
/// program is the one that is read, be it as great as a `u32` can be. The name may
/// hold anything, and what stands right behind its bracket is skipped.
pub proof fn law_any_group_is_read(
    name: Seq<char>,
    gap: char,
    five: Seq<char>,
    blank: char,
    group: u32,
    behind: Seq<char>,
)
    requires
        gap as int <= 127,
        gap != ')',
        !five.contains(')'),
        !behind.contains(')'),
        words(five).len() == 5,
        is_white_space(blank),
        behind.len() > 0 ==> is_white_space(behind[0]),
    ensures
        ({
            let stat = name.push(')') + (seq![gap] + (five.push(blank) + (decimal(group as nat)
                + behind)));
            &&& foreground_group(stat) == Some(group as nat)
            &&& !is_cut_short(stat)
        }),
{
    let number = decimal(group as nat);
    let tail = number + behind;
    let body = five.push(blank) + tail;
    let rest = seq![gap] + body;
    lemma_decimal_is_solid(group as nat);
    assert forall|i: int| 0 <= i < rest.len() implies rest[i] != ')' by {
        if i == 0 {
        } else if i < 1 + five.len() {
            assert(rest[i] == five[i - 1]);
            assert(five.contains(five[i - 1]));
        } else if i == 1 + five.len() {
            assert(rest[i] == blank);
        } else if i < 2 + five.len() + number.len() {
            assert(rest[i] == number[i - 2 - five.len()]);
            assert(number.contains(number[i - 2 - five.len()]));
        } else {
            assert(rest[i] == behind[i - 2 - five.len() - number.len()]);
            assert(behind.contains(behind[i - 2 - five.len() - number.len()]));
        }
    }
    assert(!rest.contains(')'));
    lemma_behind_last_bracket(name, rest);
    assert(rest.drop_first() =~= body);
    law_white_space_parts_words(five, blank, tail);
    law_solid_text_is_one_word(number);
    if behind.len() > 0 {
        let later = behind.drop_first();
        law_white_space_parts_words(number, behind[0], later);
        assert(number.push(behind[0]) + later =~= tail);
    } else {
        assert(tail =~= number);
    }
    assert(words(tail)[0] == number);
    assert(words(body)[5] == number);
    law_decimal_reads_up_to_bound(group as nat, u32::MAX as nat);
}

/// Five words with a blank behind each are five words.
pub proof fn law_five_words(a: Seq<char>, b: Seq<char>, c: Seq<char>, d: Seq<char>, e: Seq<char>)
    requires
        is_solid(a) && is_solid(b) && is_solid(c) && is_solid(d) && is_solid(e),
        a.len() > 0 && b.len() > 0 && c.len() > 0 && d.len() > 0 && e.len() > 0,
    ensures
        words(a.push(' ') + (b.push(' ') + (c.push(' ') + (d.push(' ') + e)))) == seq![
            a,
            b,
            c,
            d,
            e,
        ],
{
    law_solid_text_is_one_word(a);
    law_solid_text_is_one_word(b);
    law_solid_text_is_one_word(c);
    law_solid_text_is_one_word(d);
    law_solid_text_is_one_word(e);
    law_white_space_parts_words(d, ' ', e);
    law_white_space_parts_words(c, ' ', d.push(' ') + e);
    law_white_space_parts_words(b, ' ', c.push(' ') + (d.push(' ') + e));
    law_white_space_parts_words(a, ' ', b.push(' ') + (c.push(' ') + (d.push(' ') + e)));
    assert(words(a.push(' ') + (b.push(' ') + (c.push(' ') + (d.push(' ') + e)))) =~= seq![
        a,
        b,
        c,
        d,
        e,
    ]);
}

/// A status gives no group where it holds no name, fewer than six words behind it, or
/// a sixth word that is no number.
pub proof fn law_other_statuses_give_no_group(name: Seq<char>, gap: char, body: Seq<char>)
    requires
        gap as int <= 127,
        gap != ')',
        !body.contains(')'),
        words(body).len() < 6 || parse_unsigned(words(body)[5], 0xffff_ffff) is None,
    ensures
        foreground_group(name.push(')') + (seq![gap] + body)) is None,
        !is_cut_short(name.push(')') + (seq![gap] + body)),
        foreground_group(body) is None,
        !is_cut_short(body),
{
    let rest = seq![gap] + body;
    assert forall|i: int| 0 <= i < rest.len() implies rest[i] != ')' by {
        if i > 0 {
            assert(rest[i] == body[i - 1]);
            assert(body.contains(body[i - 1]));
        }
    }
    assert(!rest.contains(')'));
    lemma_behind_last_bracket(name, rest);
    assert(rest.drop_first() =~= body);
    assert forall|i: int| 0 <= i < body.len() implies !equals_char(')')(#[trigger] body[i]) by {
        assert(body.contains(body[i]));
    }
    lemma_split_whole(body, equals_char(')'));
}

/// A status is cut short exactly where nothing, or no ASCII character, follows its
/// last bracket.
pub proof fn law_cut_short_statuses(name: Seq<char>, c: char, body: Seq<char>)
    requires
        c != ')',
        !body.contains(')'),
    ensures
        is_cut_short(name.push(')')),
        is_cut_short(name.push(')') + (seq![c] + body)) <==> c as int > 127,
{
    let none = Seq::<char>::empty();
    assert(name.push(')') + none =~= name.push(')'));
    lemma_behind_last_bracket(name, none);
    let rest = seq![c] + body;
    assert forall|i: int| 0 <= i < rest.len() implies rest[i] != ')' by {
        if i > 0 {
            assert(rest[i] == body[i - 1]);
            assert(body.contains(body[i - 1]));
        }
    }
    assert(!rest.contains(')'));
    lemma_behind_last_bracket(name, rest);
}

/// The name that a file holds is all of it but the white space at its ends.
pub proof fn law_names_lose_their_ends_alone(before: Seq<char>, x: Seq<char>, after: Seq<char>)
    requires
        is_blank(before),
        is_blank(after),
    ensures
        is_trimmed(x) ==> trimmed_name(before + x + after) == Some(x),
        x.len() == 0 ==> trimmed_name(before + x + after) is None,
{
    if x.len() == 0 || is_trimmed(x) {
        law_trim_takes_ends_alone(before, x, after);
    }
}

/// The files that tell of a process go by its number.
pub proof fn law_process_files_go_by_number(pid: u32, what: Seq<char>)
    ensures
        proc_path(pid, what) == "/proc/"@ + decimal(pid as nat) + "/"@ + what,
{
}

/// Whether reading `path` gives `text` and nothing else.
pub open spec fn reads_as<F: Fn(&str) -> Option<String>>(
    read: F,
    path: Seq<char>,
    text: Option<Seq<char>>,
) -> bool {
    forall|out: Option<Seq<char>>| #[trigger] may_read(read, path, out) ==> out == text
}

/// On Linux the name that comes out is that of the process group in the foreground,
/// whatever its number, and that of the child where the group's cannot be read.
pub proof fn law_linux_names_the_group<F: Fn(&str) -> Option<String>>(
    read: F,
    pid: u32,
    stat: Seq<char>,
    group: u32,
    of_group: Option<Seq<char>>,
    of_child: Option<Seq<char>>,
    res: Result<Option<Seq<char>>, CutShort>,
)
    requires
        linux_may_name(read, pid, res),
        reads_as(read, "/proc/"@ + decimal(pid as nat) + "/"@ + "stat"@, Some(stat)),
        reads_as(read, "/proc/"@ + decimal(group as nat) + "/"@ + "comm"@, of_group),
        reads_as(read, "/proc/"@ + decimal(pid as nat) + "/"@ + "comm"@, of_child),
        !is_cut_short(stat),
        foreground_group(stat) == Some(group as nat),
    ensures
        of_group matches Some(name) ==> res == Ok::<Option<Seq<char>>, CutShort>(
            trimmed_name(name),
        ),
        of_group is None && of_child is Some ==> res == Ok::<Option<Seq<char>>, CutShort>(
            trimmed_name(of_child->0),
        ),
        of_group is None && of_child is None ==> res == Ok::<Option<Seq<char>>, CutShort>(None),
{
    assert(proc_path(pid, "stat"@) == "/proc/"@ + decimal(pid as nat) + "/"@ + "stat"@);
    assert(proc_path(group, "comm"@) == "/proc/"@ + decimal(group as nat) + "/"@ + "comm"@);
    assert(proc_path(pid, "comm"@) == "/proc/"@ + decimal(pid as nat) + "/"@ + "comm"@);
    assert(group as nat as u32 == group);
    assert(res matches Ok(name) && may_name(read, group, pid, name));
}

/// Without a status there is no name, and with one that is cut short there is only
/// that to say.
pub proof fn law_linux_needs_the_status<F: Fn(&str) -> Option<String>>(
    read: F,
    pid: u32,
    stat: Option<Seq<char>>,
    res: Result<Option<Seq<char>>, CutShort>,
)
    requires
        linux_may_name(read, pid, res),
        reads_as(read, "/proc/"@ + decimal(pid as nat) + "/"@ + "stat"@, stat),
    ensures
        stat is None ==> res == Ok::<Option<Seq<char>>, CutShort>(None),
        stat is Some ==> (res is Err <==> is_cut_short(stat->0)),
        stat is Some && !is_cut_short(stat->0) && foreground_group(stat->0) is None ==> res == Ok::<
            Option<Seq<char>>,
            CutShort,
        >(None),
{
    assert(proc_path(pid, "stat"@) == "/proc/"@ + decimal(pid as nat) + "/"@ + "stat"@);
}

// ---------------------------------------------------------------------------
// macOS
// ---------------------------------------------------------------------------

/// Whatever number `ps` prints, up to the greatest `u32`, is read.
pub proof fn law_ps_numbers_are_read(before: Seq<char>, n: u32, after: Seq<char>)
    requires
        is_blank(before),
        is_blank(after),
    ensures
        ps_number(encode_utf8(before + decimal(n as nat) + after)) == Some(n as nat),
{
    lemma_decimal_is_solid(n as nat);
    let number = decimal(n as nat);
    assert(!is_white_space(number[0]) && !is_white_space(number[number.len() - 1]));
    law_trim_takes_ends_alone(before, number, after);
    law_utf8_reads_back(before + number + after);
    law_decimal_reads_up_to_bound(n as nat, u32::MAX as nat);
}

/// Of the path that `ps` prints, the name is what follows the last slash.
pub proof fn law_ps_names_are_the_last_part(
    before: Seq<char>,
    dir: Seq<char>,
    name: Seq<char>,
    after: Seq<char>,
)
    requires
        is_blank(before),
        is_blank(after),
        is_trimmed(name),
        !name.contains('/'),
        dir.len() > 0 ==> !is_white_space(dir[0]),
    ensures
        ps_name(encode_utf8(before + name + after)) == Some(name),
        ps_name(encode_utf8(before + (dir.push('/') + name) + after)) == Some(name),
        ps_name(encode_utf8(before + after)) is None,
{
    assert forall|i: int| 0 <= i < name.len() implies !equals_char('/')(#[trigger] name[i]) by {
        assert(name.contains(name[i]));
    }
    lemma_split_whole(name, equals_char('/'));
    law_names_lose_their_ends_alone(before, name, after);
    law_utf8_reads_back(before + name + after);
    let path = dir.push('/') + name;
    assert(path.last() == name.last());
    assert(path.first() == if dir.len() > 0 {
        dir[0]
    } else {
        '/'
    });
    lemma_split_concat(dir, '/', name, equals_char('/'));
    law_names_lose_their_ends_alone(before, path, after);
    law_utf8_reads_back(before + path + after);
    assert(split(path, '/').last() == name);
    let none = Seq::<char>::empty();
    law_names_lose_their_ends_alone(before, none, after);
    assert(before + none + after =~= before + after);
    law_utf8_reads_back(before + after);
}

/// `ps` is asked about the process by its number.
pub proof fn law_ps_is_asked_by_number(what: Seq<char>, pid: u32)
    ensures
        ps_command(what, pid).program == "ps"@,
        ps_command(what, pid).args =~= seq!["-o"@, what, "-p"@, decimal(pid as nat)],
{
}

/// Whether `ps`, asked for `what` about the process `pid`, prints `printed` and
/// nothing else.
pub open spec fn prints<F: Fn(&CommandLine) -> Option<Vec<u8>>>(
    run: F,
    what: Seq<char>,
    pid: u32,
    printed: Option<Seq<u8>>,
) -> bool {
    forall|out: Option<Vec<u8>>| #[trigger]
        may_answer(run, ps_command(what, pid), out) ==> match (out, printed) {
            (Some(bytes), Some(expected)) => bytes@ == expected,
            (None, None) => true,
            _ => false,
        }
}

/// On macOS the name that comes out is that of the process group in the foreground,
/// and that of the child where the group's is empty.
pub proof fn law_macos_names_the_group<F: Fn(&CommandLine) -> Option<Vec<u8>>>(
    run: F,
    pid: u32,
    number: Seq<u8>,
    group: u32,
    of_group: Option<Seq<u8>>,
    of_child: Option<Seq<u8>>,
    res: Option<Seq<char>>,
)
    requires
        macos_may_name(run, pid, res),
        prints(run, "tpgid="@, pid, Some(number)),
        prints(run, "comm="@, group, of_group),
        prints(run, "comm="@, pid, of_child),
        ps_number(number) == Some(group as nat),
    ensures
        of_group is None ==> res is None,
        of_group is Some && ps_name(of_group->0) is Some ==> res == ps_name(of_group->0),
        of_group is Some && ps_name(of_group->0) is None ==> res == (match of_child {
            Some(own) => ps_name(own),
            None => None,
        }),
{
    lemma_prints(run, "tpgid="@, pid, Some(number));
    lemma_prints(run, "comm="@, group, of_group);
    lemma_prints(run, "comm="@, pid, of_child);
    assert(group as nat as u32 == group);
    assert(macos_may_name_group(run, group, pid, res));
}

proof fn lemma_prints<F: Fn(&CommandLine) -> Option<Vec<u8>>>(
    run: F,
    what: Seq<char>,
    pid: u32,
    printed: Option<Seq<u8>>,
)
    requires
        prints(run, what, pid, printed),
    ensures
        forall|res: Option<Seq<u8>>| #[trigger] may_print(run, what, pid, res) ==> res == printed,
{
}

// ---------------------------------------------------------------------------
// Windows
// ---------------------------------------------------------------------------

/// A line gives what follows `Name=`, without the white space at its ends and without
/// one `.exe`; a line that begins otherwise, or has nothing there, gives nothing.
pub proof fn law_lines_give_names(before: Seq<char>, x: Seq<char>, after: Seq<char>, line: Seq<char>)
    requires
        is_blank(before),
        is_blank(after),
        is_trimmed(x),
    ensures
        line_name("Name="@ + (before + (x + ".exe"@) + after)) == Some(x),
        !(exists|stem: Seq<char>| x == stem + ".exe"@) ==> line_name(
            "Name="@ + (before + x + after),
        ) == Some(x),
        line_name("Name="@ + (before + after)) is None,
        !(exists|rest: Seq<char>| line == "Name="@ + rest) ==> line_name(line) is None,
{
    reveal_strlit(".exe");
    let full = x + ".exe"@;
    assert(full.first() == x.first());
    assert(full.last() == 'e');
    law_prefix_comes_off("Name="@, before + full + after, line);
    law_names_lose_their_ends_alone(before, full, after);
    law_suffix_comes_off(x, ".exe"@, x);
    law_prefix_comes_off("Name="@, before + x + after, line);
    law_names_lose_their_ends_alone(before, x, after);
    let none = Seq::<char>::empty();
    law_prefix_comes_off("Name="@, before + after, line);
    law_names_lose_their_ends_alone(before, none, after);
    assert(before + none + after =~= before + after);
    if without_suffix(x, ".exe"@) is Some {
        assert(x == without_suffix(x, ".exe"@)->0 + ".exe"@);
    }
    if without_prefix(line, "Name="@) is Some {
        assert(line == "Name="@ + without_prefix(line, "Name="@)->0);
    }
}

/// The first line that gives a name decides, whatever follows it.
pub proof fn law_first_line_decides(skipped: Seq<Seq<char>>, line: Seq<char>, rest: Seq<Seq<char>>)
    requires
        forall|i: int| 0 <= i < skipped.len() ==> line_name(#[trigger] skipped[i]) is None,
        line_name(line) is Some,
    ensures
        first_name(skipped.push(line) + rest) == line_name(line),
        first_name(skipped) is None,
    decreases skipped.len(),
{
    let all = skipped.push(line) + rest;
    if skipped.len() == 0 {
        assert(all.first() == line);
    } else {
        let later = skipped.drop_first();
        assert forall|i: int| 0 <= i < later.len() implies line_name(
            #[trigger] later[i],
        ) is None by {
            assert(later[i] == skipped[i + 1]);
        }
        law_first_line_decides(later, line, rest);
        assert(line_name(skipped[0]) is None);
        assert(all.first() == skipped[0]);
        assert(all.drop_first() =~= later.push(line) + rest);
    }
}

/// What `wmic` prints is read line by line.
pub proof fn law_wmic_is_read_by_lines(text: Seq<char>)
    ensures
        wmic_name(encode_utf8(text)) == first_name(split(text, '\n')),
{
    law_utf8_reads_back(text);
}

/// On Windows `wmic` is asked for the name of that very process, and the name that
/// comes out is the one that it printed.
pub proof fn law_windows_names_the_process<F: Fn(&CommandLine) -> Option<Vec<u8>>>(
    run: F,
    pid: u32,
    printed: Seq<u8>,
    res: Option<Seq<char>>,
)
    requires
        windows_may_name(run, pid, res),
        forall|out: Option<Vec<u8>>| #[trigger]
            may_answer(run, wmic_command(pid), out) ==> out is Some && out->0@ == printed,
    ensures
        res == wmic_name(printed),
        wmic_command(pid).program == "wmic"@,
        wmic_command(pid).args =~= seq![
            "process"@,
            "where"@,
            "ProcessId="@ + decimal(pid as nat),
            "get"@,
            "Name"@,
            "/value"@,
        ],
{
}

} // verus!
