//! The name of the process that a terminal shows, from what the platform tells
//! about processes.
use vstd::prelude::*;
use vstd::string::*;

use crate::command::{may_answer, CommandLine, CommandView, Platform};
use crate::terminal::emulator::TerminalEmulator;
use crate::text::{
    decimal, equals_char, from_utf8_lossy, is_white_space, lemma_split_nonempty,
    lemma_split_pieces, lemma_trim_ends, option_view, parse_decimal, parse_unsigned, push_decimal,
    split, split_str, split_whitespace, str_views, strip_prefix, strip_suffix, trim, trim_str,
    utf8_text, without_prefix, without_suffix, words,
};

verus! {

// ---------------------------------------------------------------------------
// Linux
// ---------------------------------------------------------------------------

/// A process status that breaks off behind the name of the program.
#[derive(Debug)]
pub struct CutShort;

/// What follows the last closing bracket of a process status, where there is one:
/// the name of the program stands before it.
pub open spec fn after_name(stat: Seq<char>) -> Option<Seq<char>> {
    if split(stat, ')').len() > 1 {
        Some(split(stat, ')').last())
    } else {
        None
    }
}

/// A process status that has a name but not the blank that parts it from what
/// follows.
pub open spec fn is_cut_short(stat: Seq<char>) -> bool {
    after_name(stat) matches Some(rest) && (rest.len() == 0 || rest[0] > '\u{7f}')
}

/// The number of the process group in the foreground that a process status tells
/// of: its sixth word behind the name of the program.
pub open spec fn foreground_group(stat: Seq<char>) -> Option<nat> {
    match after_name(stat) {
        Some(rest) => {
            let fields = words(rest.drop_first());
            if fields.len() < 6 {
                None
            } else {
                parse_unsigned(fields[5], u32::MAX as nat)
            }
        },
        None => None,
    }
}

/// `s` without the white space at its ends, where anything is left.
pub open spec fn trimmed_name(s: Seq<char>) -> Option<Seq<char>> {
    if trim(s).len() == 0 {
        None
    } else {
        Some(trim(s))
    }
}

/// The file that tells `what` about the process `pid`.
pub open spec fn proc_path(pid: u32, what: Seq<char>) -> Seq<char> {
    "/proc/"@ + decimal(pid as nat) + "/"@ + what
}

/// Whether `read`, asked for the file `path`, may give `out`.
pub open spec fn may_read<F: Fn(&str) -> Option<String>>(
    read: F,
    path: Seq<char>,
    out: Option<Seq<char>>,
) -> bool {
    exists|p: &str, o: Option<String>|
        p@ == path && option_view(o) == out && #[trigger] call_ensures(read, (p,), o)
}

/// Whether the name of the process group `group`, or else of the process `pid`,
/// may come out as `res`.
pub open spec fn may_name<F: Fn(&str) -> Option<String>>(
    read: F,
    group: u32,
    pid: u32,
    res: Option<Seq<char>>,
) -> bool {
    ||| exists|name: Seq<char>| #[trigger]
        may_read(read, proc_path(group, "comm"@), Some(name)) && res == trimmed_name(name)
    ||| may_read(read, proc_path(group, "comm"@), None) && exists|name: Seq<char>| #[trigger]
        may_read(read, proc_path(pid, "comm"@), Some(name)) && res == trimmed_name(name)
    ||| may_read(read, proc_path(group, "comm"@), None) && may_read(
        read,
        proc_path(pid, "comm"@),
        None,
    ) && res is None
}

/// Whether the name of the process in the foreground of the process `pid` may
/// come out as `res` on Linux.
pub open spec fn linux_may_name<F: Fn(&str) -> Option<String>>(
    read: F,
    pid: u32,
    res: Result<Option<Seq<char>>, CutShort>,
) -> bool {
    ||| may_read(read, proc_path(pid, "stat"@), None) && res == Ok::<
        Option<Seq<char>>,
        CutShort,
    >(None)
    ||| exists|stat: Seq<char>| #[trigger]
        may_read(read, proc_path(pid, "stat"@), Some(stat)) && (if is_cut_short(stat) {
            res is Err
        } else {
            match foreground_group(stat) {
                None => res == Ok::<Option<Seq<char>>, CutShort>(None),
                Some(group) => res matches Ok(name) && may_name(read, group as u32, pid, name),
            }
        })
}

/// The number of the process group in the foreground that a process status tells
/// of.
pub fn foreground_group_of(stat: &str) -> (res: Result<Option<u32>, CutShort>)
    ensures
        match res {
            Ok(Some(group)) => !is_cut_short(stat@) && foreground_group(stat@) == Some(group as nat),
            Ok(None) => !is_cut_short(stat@) && foreground_group(stat@) is None,
            Err(_) => is_cut_short(stat@),
        },
{
    let parts = split_str(stat, ')');
    assert(str_views(parts@).len() == parts@.len());
    if parts.len() == 1 {
        return Ok(None);
    }
    let rest = parts[parts.len() - 1];
    assert(str_views(parts@)[parts@.len() - 1] == rest@);
    if rest.unicode_len() == 0 || rest.get_char(0) > '\u{7f}' {
        return Err(CutShort);
    }
    let behind = rest.substring_char(1, rest.unicode_len());
    assert(behind@ =~= rest@.drop_first());
    let fields = split_whitespace(behind);
    assert(str_views(fields@).len() == fields@.len());
    if fields.len() < 6 {
        return Ok(None);
    }
    assert(str_views(fields@)[5] == fields@[5]@);
    Ok(parse_decimal(fields[5], u32::MAX))
}

/// The file that tells `what` about the process `pid`.
fn proc_file(pid: u32, what: &str) -> (res: String)
    ensures
        res@ == proc_path(pid, what@),
{
    let mut path = "/proc/".to_string();
    push_decimal(&mut path, pid as u64);
    path.append("/");
    path.append(what);
    path
}

/// `s` without the white space at its ends, where anything is left.
fn trimmed(s: &str) -> (res: Option<String>)
    ensures
        option_view(res) == trimmed_name(s@),
{
    let name = trim_str(s);
    if name.is_empty() {
        None
    } else {
        Some(name.to_string())
    }
}

/// A result with its name as text.
pub open spec fn name_view(res: Result<Option<String>, CutShort>) -> Result<
    Option<Seq<char>>,
    CutShort,
> {
    match res {
        Ok(name) => Ok(option_view(name)),
        Err(e) => Err(e),
    }
}

/// Reads a file.
fn read_file<F: Fn(&str) -> Option<String>>(read: &F, path: &str) -> (res: Option<String>)
    requires
        forall|p: &str| call_requires(*read, (p,)),
    ensures
        may_read(*read, path@, option_view(res)),
{
    let res = read(path);
    assert(call_ensures(*read, (path,), res));
    res
}

/// The name of the process in the foreground of the process `pid` on Linux.
/// `read` gives what a file holds, where it can be read.
pub fn linux_foreground_name<F: Fn(&str) -> Option<String>>(pid: u32, read: &F) -> (res: Result<
    Option<String>,
    CutShort,
>)
    requires
        forall|p: &str| call_requires(*read, (p,)),
    ensures
        linux_may_name(*read, pid, name_view(res)),
{
    let stat = match read_file(read, proc_file(pid, "stat").as_str()) {
        Some(stat) => stat,
        None => return Ok(None),
    };
    let group = match foreground_group_of(stat.as_str()) {
        Ok(Some(group)) => group,
        Ok(None) => return Ok(None),
        Err(e) => return Err(e),
    };
    let ghost text = stat@;
    let name = match read_file(read, proc_file(group, "comm").as_str()) {
        Some(name) => name,
        None => match read_file(read, proc_file(pid, "comm").as_str()) {
            Some(name) => name,
            None => {
                assert(may_name(*read, group, pid, None));
                return Ok(None);
            },
        },
    };
    let res = trimmed(name.as_str());
    assert(may_name(*read, group, pid, option_view(res)));
    Ok(res)
}

// ---------------------------------------------------------------------------
// macOS
// ---------------------------------------------------------------------------

/// The command that tells `what` about the process `pid`.
pub open spec fn ps_command(what: Seq<char>, pid: u32) -> CommandView {
    CommandView { program: "ps"@, args: seq!["-o"@, what, "-p"@, decimal(pid as nat)] }
}

/// The last part of a path.
pub open spec fn base_name(path: Seq<char>) -> Seq<char> {
    split(path, '/').last()
}

/// The name of the program that `ps` printed, without its path.
pub open spec fn ps_name(printed: Seq<u8>) -> Option<Seq<char>> {
    match trimmed_name(utf8_text(printed)) {
        Some(path) => Some(base_name(path)),
        None => None,
    }
}

/// The number that `ps` printed.
pub open spec fn ps_number(printed: Seq<u8>) -> Option<nat> {
    parse_unsigned(trim(utf8_text(printed)), u32::MAX as nat)
}

/// Whether asking for the name of the process `pid` by way of `run` may come out
/// as `res`: nothing where it could not be asked, else what was printed.
pub open spec fn may_print<F: Fn(&CommandLine) -> Option<Vec<u8>>>(
    run: F,
    what: Seq<char>,
    pid: u32,
    res: Option<Seq<u8>>,
) -> bool {
    exists|out: Option<Vec<u8>>| #[trigger]
        may_answer(run, ps_command(what, pid), out) && res == (match out {
            Some(printed) => Some(printed@),
            None => None,
        })
}

/// Whether the name of the process group `group`, or, where it has none, of the
/// process `pid`, may come out as `res`.
pub open spec fn macos_may_name_group<F: Fn(&CommandLine) -> Option<Vec<u8>>>(
    run: F,
    group: u32,
    pid: u32,
    res: Option<Seq<char>>,
) -> bool {
    ||| may_print(run, "comm="@, group, None) && res is None
    ||| exists|printed: Seq<u8>| #[trigger]
        may_print(run, "comm="@, group, Some(printed)) && ps_name(printed) is Some && res == ps_name(
            printed,
        )
    ||| exists|printed: Seq<u8>| #[trigger]
        may_print(run, "comm="@, group, Some(printed)) && ps_name(printed) is None && {
            ||| may_print(run, "comm="@, pid, None) && res is None
            ||| exists|own: Seq<u8>| #[trigger]
                may_print(run, "comm="@, pid, Some(own)) && res == ps_name(own)
        }
}

/// Whether the name of the process in the foreground of the process `pid` may
/// come out as `res` on macOS.
pub open spec fn macos_may_name<F: Fn(&CommandLine) -> Option<Vec<u8>>>(
    run: F,
    pid: u32,
    res: Option<Seq<char>>,
) -> bool {
    ||| may_print(run, "tpgid="@, pid, None) && res is None
    ||| exists|printed: Seq<u8>| #[trigger]
        may_print(run, "tpgid="@, pid, Some(printed)) && (match ps_number(printed) {
            None => res is None,
            Some(group) => macos_may_name_group(run, group as u32, pid, res),
        })
}

/// Asks `ps` for `what` about the process `pid`.
fn ask_ps<F: Fn(&CommandLine) -> Option<Vec<u8>>>(run: &F, what: &str, pid: u32) -> (res: Option<
    Vec<u8>,
>)
    requires
        forall|c: &CommandLine| call_requires(*run, (c,)),
    ensures
        may_print(
            *run,
            what@,
            pid,
            (match res {
                Some(printed) => Some(printed@),
                None => None,
            }),
        ),
{
    let mut number = String::new();
    push_decimal(&mut number, pid as u64);
    assert(number@ =~= decimal(pid as nat));
    let command = CommandLine::new("ps").arg("-o").arg(what).arg("-p").arg(number.as_str());
    assert(command@.args =~= ps_command(what@, pid).args);
    let res = run(&command);
    assert(may_answer(*run, ps_command(what@, pid), res));
    res
}

/// The name of the program that `ps` printed, without its path.
pub fn name_from_ps(printed: &[u8]) -> (res: Option<String>)
    ensures
        option_view(res) == ps_name(printed@),
{
    let text = from_utf8_lossy(printed);
    match trimmed(text.as_str()) {
        Some(path) => {
            let parts = split_str(path.as_str(), '/');
            assert(str_views(parts@).len() == parts@.len());
            let last = parts[parts.len() - 1];
            assert(str_views(parts@)[parts@.len() - 1] == last@);
            Some(last.to_string())
        },
        None => None,
    }
}

/// The name of the process in the foreground of the process `pid` on macOS.
/// `run` runs a command and gives what it printed, where it can be run.
pub fn macos_foreground_name<F: Fn(&CommandLine) -> Option<Vec<u8>>>(pid: u32, run: &F) -> (res:
    Option<String>)
    requires
        forall|c: &CommandLine| call_requires(*run, (c,)),
    ensures
        macos_may_name(*run, pid, option_view(res)),
{
    let printed = match ask_ps(run, "tpgid=", pid) {
        Some(printed) => printed,
        None => return None,
    };
    let text = from_utf8_lossy(printed.as_slice());
    let group = match parse_decimal(trim_str(text.as_str()), u32::MAX) {
        Some(group) => group,
        None => {
            assert(ps_number(printed@) is None);
            return None;
        },
    };
    assert(ps_number(printed@) == Some(group as nat));
    let name = match ask_ps(run, "comm=", group) {
        Some(name) => name,
        None => {
            assert(macos_may_name_group(*run, group, pid, None));
            return None;
        },
    };
    match name_from_ps(name.as_slice()) {
        Some(found) => {
            assert(macos_may_name_group(*run, group, pid, Some(found@)));
            Some(found)
        },
        None => {
            let own = match ask_ps(run, "comm=", pid) {
                Some(own) => own,
                None => {
                    assert(macos_may_name_group(*run, group, pid, None));
                    return None;
                },
            };
            let res = name_from_ps(own.as_slice());
            assert(macos_may_name_group(*run, group, pid, option_view(res)));
            res
        },
    }
}

// ---------------------------------------------------------------------------
// Windows
// ---------------------------------------------------------------------------

/// The command that tells the name of the process `pid`.
pub open spec fn wmic_command(pid: u32) -> CommandView {
    CommandView {
        program: "wmic"@,
        args: seq![
            "process"@,
            "where"@,
            "ProcessId="@ + decimal(pid as nat),
            "get"@,
            "Name"@,
            "/value"@,
        ],
    }
}

/// The name that a line gives: what follows `Name=`, without the white space at
/// its ends and without `.exe`, where anything is left before that goes.
pub open spec fn line_name(line: Seq<char>) -> Option<Seq<char>> {
    match without_prefix(line, "Name="@) {
        Some(rest) => match trimmed_name(rest) {
            Some(name) => match without_suffix(name, ".exe"@) {
                Some(stem) => Some(stem),
                None => Some(name),
            },
            None => None,
        },
        None => None,
    }
}

/// The name that the first of the lines gives that gives one.
pub open spec fn first_name(lines: Seq<Seq<char>>) -> Option<Seq<char>>
    decreases lines.len(),
{
    if lines.len() == 0 {
        None
    } else if line_name(lines.first()) is Some {
        line_name(lines.first())
    } else {
        first_name(lines.drop_first())
    }
}

/// The name that `wmic` printed.
pub open spec fn wmic_name(printed: Seq<u8>) -> Option<Seq<char>> {
    first_name(split(utf8_text(printed), '\n'))
}

/// Whether the name of the process `pid` may come out as `res` on Windows.
pub open spec fn windows_may_name<F: Fn(&CommandLine) -> Option<Vec<u8>>>(
    run: F,
    pid: u32,
    res: Option<Seq<char>>,
) -> bool {
    exists|out: Option<Vec<u8>>| #[trigger]
        may_answer(run, wmic_command(pid), out) && res == (match out {
            Some(printed) => wmic_name(printed@),
            None => None,
        })
}

/// The name that a line gives.
fn name_from_line(line: &str) -> (res: Option<String>)
    ensures
        option_view(res) == line_name(line@),
{
    match strip_prefix(line, "Name=") {
        Some(rest) => match trimmed(rest) {
            Some(name) => match strip_suffix(name.as_str(), ".exe") {
                Some(stem) => Some(stem.to_string()),
                None => Some(name),
            },
            None => None,
        },
        None => None,
    }
}

/// The name that `wmic` printed.
pub fn name_from_wmic(printed: &[u8]) -> (res: Option<String>)
    ensures
        option_view(res) == wmic_name(printed@),
{
    let text = from_utf8_lossy(printed);
    let lines = split_str(text.as_str(), '\n');
    let ghost all = split(text@, '\n');
    assert(str_views(lines@).len() == lines@.len());
    let mut i: usize = 0;
    assert(all.skip(0) =~= all);
    while i < lines.len()
        invariant
            i <= lines.len(),
            str_views(lines@) == all,
            all.len() == lines@.len(),
            first_name(all) == first_name(all.skip(i as int)),
            wmic_name(printed@) == first_name(all),
        decreases lines.len() - i,
    {
        assert(all[i as int] == lines@[i as int]@);
        assert(all.skip(i as int).first() == all[i as int]);
        assert(all.skip(i as int).drop_first() =~= all.skip(i + 1));
        match name_from_line(lines[i]) {
            Some(name) => return Some(name),
            None => {},
        }
        i += 1;
    }
    None
}

/// The name of the process `pid` on Windows. `run` runs a command and gives what
/// it printed, where it can be run.
pub fn windows_foreground_name<F: Fn(&CommandLine) -> Option<Vec<u8>>>(pid: u32, run: &F) -> (res:
    Option<String>)
    requires
        forall|c: &CommandLine| call_requires(*run, (c,)),
    ensures
        windows_may_name(*run, pid, option_view(res)),
{
    let mut condition = "ProcessId=".to_string();
    push_decimal(&mut condition, pid as u64);
    let command = CommandLine::new("wmic").arg("process").arg("where").arg(
        condition.as_str(),
    ).arg("get").arg("Name").arg("/value");
    assert(command@.args =~= wmic_command(pid).args);
    let out = run(&command);
    assert(may_answer(*run, wmic_command(pid), out));
    match out {
        Some(printed) => name_from_wmic(printed.as_slice()),
        None => None,
    }
}

// ---------------------------------------------------------------------------
// Laws
// ---------------------------------------------------------------------------

/// Text that a process can be known by: there is some, without white space at its
/// ends.
pub open spec fn is_trimmed(name: Seq<char>) -> bool {
    name.len() > 0 && !is_white_space(name.first()) && !is_white_space(name.last())
}

/// A name that comes out on Linux is not empty and has no white space at its ends.
pub proof fn law_linux_names_are_trimmed<F: Fn(&str) -> Option<String>>(
    read: F,
    pid: u32,
    name: Seq<char>,
)
    requires
        linux_may_name(read, pid, Ok(Some(name))),
    ensures
        is_trimmed(name),
{
    let raw = choose|raw: Seq<char>|
        #![trigger trimmed_name(raw)]
        Some(name) == trimmed_name(raw);
    assert(Some(name) == trimmed_name(raw));
    lemma_trim_ends(raw);
}

/// A name that comes out on macOS holds no part of a path before it.
pub proof fn law_macos_names_have_no_path<F: Fn(&CommandLine) -> Option<Vec<u8>>>(
    run: F,
    pid: u32,
    name: Seq<char>,
)
    requires
        macos_may_name(run, pid, Some(name)),
    ensures
        !name.contains('/'),
{
    let printed = choose|printed: Seq<u8>|
        #![trigger ps_name(printed)]
        Some(name) == ps_name(printed);
    assert(Some(name) == ps_name(printed));
    let path = trim(utf8_text(printed));
    lemma_split_pieces(path, equals_char('/'));
    lemma_split_nonempty(path, equals_char('/'));
    let parts = split(path, '/');
    assert forall|j: int| 0 <= j < name.len() implies name[j] != '/' by {
        assert(!equals_char('/')(parts[parts.len() - 1][j]));
    }
}

impl TerminalEmulator {
    /// Get the name of the process in the foreground of the child process `pid`,
    /// where there is a child. `read` gives what a file holds, where it can be
    /// read; `run` runs a command and gives what it printed, where it can be run.
    pub fn get_foreground_process_name<
        R: Fn(&str) -> Option<String>,
        F: Fn(&CommandLine) -> Option<Vec<u8>>,
    >(platform: Platform, pid: Option<u32>, read: &R, run: &F) -> (res: Result<
        Option<String>,
        CutShort,
    >)
        requires
            !(platform is Other),
            forall|p: &str| call_requires(*read, (p,)),
            forall|c: &CommandLine| call_requires(*run, (c,)),
        ensures
            match pid {
                None => name_view(res) == Ok::<Option<Seq<char>>, CutShort>(None),
                Some(pid) => match platform {
                    Platform::Linux => linux_may_name(*read, pid, name_view(res)),
                    Platform::MacOs => res matches Ok(name) && macos_may_name(
                        *run,
                        pid,
                        option_view(name),
                    ),
                    _ => res matches Ok(name) && windows_may_name(*run, pid, option_view(name)),
                },
            },
    {
        let pid = match pid {
            Some(pid) => pid,
            None => return Ok(None),
        };
        match platform {
            Platform::Linux => linux_foreground_name(pid, read),
            Platform::MacOs => Ok(macos_foreground_name(pid, run)),
            _ => Ok(windows_foreground_name(pid, run)),
        }
    }
}

} // verus!
