//! What a terminal emulator decides between its calls to the operating system:
//! how to start a shell, what to write to it, and what its output and its end
//! mean.
use vstd::prelude::*;
use vstd::string::*;
use vstd::utf8::*;

use crate::command::Platform;
use crate::terminal::size::{allowed_size, is_allowed_size};
use crate::text::{char_vec, decimal, option_view, push_decimal, str_option_view};

verus! {

/// The number of lines that a terminal keeps after they left the screen.
pub const DEFAULT_MAX_SCROLLBACK: usize = 10_000;

// ---------------------------------------------------------------------------
// Finding a shell
// ---------------------------------------------------------------------------

/// A name that says where its file is, so that it is not searched for.
pub open spec fn is_path(name: Seq<char>) -> bool {
    name.contains('/') || name.contains('\\')
}

/// Whether `exists_at`, asked about the file `name`, may answer `out`.
pub open spec fn may_exist<F: Fn(&str) -> bool>(exists_at: F, name: Seq<char>, out: bool) -> bool {
    exists|s: &str| s@ == name && #[trigger] call_ensures(exists_at, (s,), out)
}

/// Whether `exists_in`, asked about the file `name` in the directory `dir`, may
/// answer `out`.
pub open spec fn may_exist_in<F: Fn(&str, &str) -> bool>(
    exists_in: F,
    dir: Seq<char>,
    name: Seq<char>,
    out: bool,
) -> bool {
    exists|d: &str, s: &str|
        d@ == dir && s@ == name && #[trigger] call_ensures(exists_in, (d, s), out)
}

/// Whether searching `dirs` in turn for `name` may come out as `found`.
pub open spec fn may_find_in<F: Fn(&str, &str) -> bool>(
    exists_in: F,
    dirs: Seq<String>,
    name: Seq<char>,
    found: bool,
) -> bool {
    if found {
        exists|i: int|
            0 <= i < dirs.len() && may_exist_in(exists_in, (#[trigger] dirs[i])@, name, true)
    } else {
        forall|i: int|
            0 <= i < dirs.len() ==> may_exist_in(exists_in, (#[trigger] dirs[i])@, name, false)
    }
}

/// Check if a shell can be found: as a file of that name, or, where the name is
/// no path, in one of the directories that programs are looked for in.
pub fn shell_exists<
    E: Fn(&str) -> bool,
    D: Fn() -> Vec<String>,
    I: Fn(&str, &str) -> bool,
>(name: &str, exists_at: &E, search_dirs: &D, exists_in: &I) -> (res: bool)
    requires
        forall|s: &str| call_requires(*exists_at, (s,)),
        call_requires(*search_dirs, ()),
        forall|d: &str, s: &str| call_requires(*exists_in, (d, s)),
    ensures
        ({
            ||| res && may_exist(*exists_at, name@, true)
            ||| !res && is_path(name@) && may_exist(*exists_at, name@, false)
            ||| !is_path(name@) && may_exist(*exists_at, name@, false) && exists|dirs: Vec<String>|
                #[trigger] call_ensures(*search_dirs, (), dirs) && may_find_in(
                    *exists_in,
                    dirs@,
                    name@,
                    res,
                )
        }),
{
    let direct = exists_at(name);
    assert(may_exist(*exists_at, name@, direct));
    if direct {
        return true;
    }
    let chars = char_vec(name);
    let mut i: usize = 0;
    while i < chars.len()
        invariant
            chars@ == name@,
            i <= chars.len(),
            may_exist(*exists_at, name@, false),
            forall|j: int| 0 <= j < i ==> name@[j] != '/' && name@[j] != '\\',
        decreases chars.len() - i,
    {
        if chars[i] == '/' || chars[i] == '\\' {
            assert(name@[i as int] == chars@[i as int]);
            return false;
        }
        i += 1;
    }
    assert(!is_path(name@));
    let dirs = search_dirs();
    let mut k: usize = 0;
    while k < dirs.len()
        invariant
            forall|d: &str, s: &str| call_requires(*exists_in, (d, s)),
            k <= dirs.len(),
            !is_path(name@),
            may_exist(*exists_at, name@, false),
            call_ensures(*search_dirs, (), dirs),
            forall|j: int|
                0 <= j < k ==> may_exist_in(*exists_in, (#[trigger] dirs@[j])@, name@, false),
        decreases dirs.len() - k,
    {
        let dir = dirs[k].as_str();
        let there = exists_in(dir, name);
        assert(call_ensures(*exists_in, (dir, name), there));
        assert(may_exist_in(*exists_in, dirs@[k as int]@, name@, there));
        if there {
            assert(may_find_in(*exists_in, dirs@, name@, true));
            return true;
        }
        k += 1;
    }
    assert(may_find_in(*exists_in, dirs@, name@, false));
    false
}

// ---------------------------------------------------------------------------
// Starting
// ---------------------------------------------------------------------------

/// Why a terminal cannot be started.
#[derive(Debug)]
pub enum StartupError {
    /// The terminal cannot have the size that was asked for.
    InvalidInput(String),
    /// The shell that was asked for is not there.
    NotFound(String),
}

/// A startup error as text.
pub enum StartupErrorView {
    InvalidInput(Seq<char>),
    NotFound(Seq<char>),
}

impl View for StartupError {
    type V = StartupErrorView;

    open spec fn view(&self) -> StartupErrorView {
        match self {
            StartupError::InvalidInput(message) => StartupErrorView::InvalidInput(message@),
            StartupError::NotFound(message) => StartupErrorView::NotFound(message@),
        }
    }
}

/// A shell to start: its program, or the default one of the system, and the
/// variables to set for it.
#[derive(Debug)]
pub struct ShellCommand {
    pub program: Option<String>,
    pub env: Vec<(String, String)>,
}

/// A shell to start, as text.
pub struct ShellCommandView {
    pub program: Option<Seq<char>>,
    pub env: Seq<(Seq<char>, Seq<char>)>,
}

impl View for ShellCommand {
    type V = ShellCommandView;

    open spec fn view(&self) -> ShellCommandView {
        ShellCommandView {
            program: option_view(self.program),
            env: self.env@.map_values(|v: (String, String)| (v.0@, v.1@)),
        }
    }
}

/// What has happened in starting a terminal.
#[derive(Debug, Clone, Copy, PartialEq, Eq, Structural)]
pub enum StartupEvent {
    /// Somebody asked for it.
    Requested,
    /// The pair of terminal devices is open.
    PtyOpened,
    /// The shell was looked for, and was there or not.
    ShellLookedUp(bool),
}

/// What to do next in starting a terminal.
#[derive(Debug)]
pub enum StartupAction {
    /// Open a pair of terminal devices of this size.
    OpenPty { rows: u16, cols: u16 },
    /// Look whether the shell is there.
    LookUpShell(String),
    /// Start the shell on the terminal device.
    Spawn(ShellCommand),
    /// Give up.
    Fail(StartupError),
}

/// What to do next in starting a terminal, as text.
pub enum StartupActionView {
    OpenPty { rows: u16, cols: u16 },
    LookUpShell(Seq<char>),
    Spawn(ShellCommandView),
    Fail(StartupErrorView),
}

impl View for StartupAction {
    type V = StartupActionView;

    open spec fn view(&self) -> StartupActionView {
        match self {
            StartupAction::OpenPty { rows, cols } => StartupActionView::OpenPty {
                rows: *rows,
                cols: *cols,
            },
            StartupAction::LookUpShell(shell) => StartupActionView::LookUpShell(shell@),
            StartupAction::Spawn(command) => StartupActionView::Spawn(command@),
            StartupAction::Fail(e) => StartupActionView::Fail(e@),
        }
    }
}

/// The variables that every shell is started with.
pub open spec fn shell_env() -> Seq<(Seq<char>, Seq<char>)> {
    seq![
        ("TERM"@, "xterm-256color"@),
        ("COLORTERM"@, "truecolor"@),
        ("PROMPT_EOL_MARK"@, Seq::empty()),
        ("PROMPT_SP"@, Seq::empty()),
    ]
}

/// What is wrong with a size that a terminal cannot have.
pub open spec fn invalid_size_text(cols: usize, rows: usize) -> Seq<char> {
    "Invalid terminal size "@ + decimal(cols as nat) + "x"@ + decimal(rows as nat)
        + ". Allowed: 80x24, 120x40, 160x40, 200x50"@
}

/// What is wrong with a shell that is not there.
pub open spec fn shell_not_found_text(shell: Seq<char>) -> Seq<char> {
    "Shell '"@ + shell + "' not found"@
}

/// The program that is started where no shell was asked for: the default one of
/// the system, which has to be named on Windows.
pub open spec fn default_program(platform: Platform) -> Option<Seq<char>> {
    if platform is Windows {
        Some("cmd.exe"@)
    } else {
        None
    }
}

/// What to do next in starting a terminal of this size with this shell.
pub open spec fn startup_step(
    platform: Platform,
    cols: usize,
    rows: usize,
    shell: Option<Seq<char>>,
    event: StartupEvent,
) -> StartupActionView {
    match (event, shell) {
        (StartupEvent::Requested, _) => if is_allowed_size(cols, rows) {
            StartupActionView::OpenPty { rows: rows as u16, cols: cols as u16 }
        } else {
            StartupActionView::Fail(StartupErrorView::InvalidInput(invalid_size_text(cols, rows)))
        },
        (StartupEvent::PtyOpened, Some(shell)) => StartupActionView::LookUpShell(shell),
        (StartupEvent::ShellLookedUp(false), Some(shell)) => StartupActionView::Fail(
            StartupErrorView::NotFound(shell_not_found_text(shell)),
        ),
        (StartupEvent::ShellLookedUp(true), Some(shell)) => StartupActionView::Spawn(
            ShellCommandView { program: Some(shell), env: shell_env() },
        ),
        (_, None) => StartupActionView::Spawn(
            ShellCommandView { program: default_program(platform), env: shell_env() },
        ),
    }
}

/// What starting a terminal comes to where nothing outside fails: the steps one
/// after the other, with `there` the answer to whether the shell is there.
pub open spec fn startup_outcome(
    platform: Platform,
    cols: usize,
    rows: usize,
    shell: Option<Seq<char>>,
    there: bool,
) -> StartupActionView {
    let first = startup_step(platform, cols, rows, shell, StartupEvent::Requested);
    if first is OpenPty {
        let second = startup_step(platform, cols, rows, shell, StartupEvent::PtyOpened);
        if second is LookUpShell {
            startup_step(platform, cols, rows, shell, StartupEvent::ShellLookedUp(there))
        } else {
            second
        }
    } else {
        first
    }
}

/// A shell is started exactly where the terminal can have the size and the shell
/// that was asked for, if any, is there; and it is that shell.
pub proof fn law_startup_ends_in_the_shell(
    platform: Platform,
    cols: usize,
    rows: usize,
    shell: Option<Seq<char>>,
    there: bool,
)
    ensures
        startup_outcome(platform, cols, rows, shell, there) is Spawn <==> is_allowed_size(cols, rows)
            && (shell is None || there),
        startup_outcome(platform, cols, rows, shell, there) is Fail <==> !(is_allowed_size(
            cols,
            rows,
        ) && (shell is None || there)),
        startup_outcome(platform, cols, rows, shell, there) matches StartupActionView::Spawn(command)
            ==> command.program == if shell is Some {
            shell
        } else {
            default_program(platform)
        },
{
}

/// A shell to start with the variables that every shell has.
fn shell_command(program: Option<String>) -> (res: ShellCommand)
    ensures
        res@ == (ShellCommandView { program: option_view(program), env: shell_env() }),
{
    let env: Vec<(String, String)> = vec![
        ("TERM".to_string(), "xterm-256color".to_string()),
        ("COLORTERM".to_string(), "truecolor".to_string()),
        ("PROMPT_EOL_MARK".to_string(), String::new()),
        ("PROMPT_SP".to_string(), String::new()),
    ];
    let res = ShellCommand { program, env };
    assert(res@.env =~= shell_env());
    res
}

// ---------------------------------------------------------------------------
// Output
// ---------------------------------------------------------------------------

/// What one look for output gave.
#[derive(Debug)]
pub enum Received {
    /// A piece of output.
    Data(Vec<u8>),
    /// Nothing for now.
    Empty,
    /// Nothing ever again: the output has ended.
    Disconnected,
}

/// What one look for output gave, as bytes.
pub enum ReceivedView {
    Data(Seq<u8>),
    Empty,
    Disconnected,
}

impl View for Received {
    type V = ReceivedView;

    open spec fn view(&self) -> ReceivedView {
        match self {
            Received::Data(data) => ReceivedView::Data(data@),
            Received::Empty => ReceivedView::Empty,
            Received::Disconnected => ReceivedView::Disconnected,
        }
    }
}

/// The output that was there to take, piece by piece.
#[derive(Debug)]
pub struct OutputDrain {
    chunks: Vec<Vec<u8>>,
    running: bool,
    open: bool,
}

/// The output that was there to take, as bytes.
pub struct DrainView {
    /// The pieces, in the order in which they came.
    pub chunks: Seq<Seq<u8>>,
    /// Whether the output has not ended.
    pub running: bool,
    /// Whether there may be more to take.
    pub open: bool,
}

impl DrainView {
    /// Nothing taken yet.
    pub open spec fn start() -> DrainView {
        DrainView { chunks: Seq::empty(), running: true, open: true }
    }

    /// After one more look.
    pub open spec fn step(self, received: ReceivedView) -> DrainView {
        match received {
            ReceivedView::Data(data) => DrainView { chunks: self.chunks.push(data), ..self },
            ReceivedView::Empty => DrainView { open: false, ..self },
            ReceivedView::Disconnected => DrainView { running: false, open: false, ..self },
        }
    }

    /// After looks that gave all of `received`.
    pub open spec fn after(received: Seq<ReceivedView>) -> DrainView
        decreases received.len(),
    {
        if received.len() == 0 {
            DrainView::start()
        } else {
            DrainView::after(received.drop_last()).step(received.last())
        }
    }
}

impl View for OutputDrain {
    type V = DrainView;

    closed spec fn view(&self) -> DrainView {
        DrainView {
            chunks: self.chunks@.map_values(|c: Vec<u8>| c@),
            running: self.running,
            open: self.open,
        }
    }
}

impl OutputDrain {
    /// Nothing taken yet.
    pub fn new() -> (res: OutputDrain)
        ensures
            res@ == DrainView::start(),
    {
        let res = OutputDrain { chunks: Vec::new(), running: true, open: true };
        assert(res@.chunks =~= Seq::empty());
        res
    }

    /// Takes what one more look gave.
    pub fn receive(&mut self, received: Received)
        ensures
            final(self)@ == old(self)@.step(received@),
    {
        let ghost before = self@;
        match received {
            Received::Data(data) => {
                let ghost bytes = data@;
                self.chunks.push(data);
                assert(self@.chunks =~= before.chunks.push(bytes));
            },
            Received::Empty => {
                self.open = false;
            },
            Received::Disconnected => {
                self.running = false;
                self.open = false;
            },
        }
    }

    /// Whether to look again.
    pub fn is_open(&self) -> (res: bool)
        ensures
            res == self@.open,
    {
        self.open
    }

    /// Whether the output has not ended, so that the child may still run.
    pub fn is_running(&self) -> (res: bool)
        ensures
            res == self@.running,
    {
        self.running
    }

    /// Whether anything was taken.
    pub fn has_output(&self) -> (res: bool)
        ensures
            res == (self@.chunks.len() > 0),
    {
        self.chunks.len() > 0
    }

    /// The pieces that were taken, in the order in which they came.
    pub fn chunks(&self) -> (res: &Vec<Vec<u8>>)
        ensures
            res@.map_values(|c: Vec<u8>| c@) == self@.chunks,
    {
        &self.chunks
    }
}

/// Looks that give output and then nothing take that output, in order, and end
/// there: with the output ended where the last look said so.
pub proof fn law_drain_takes_all_in_order(data: Seq<Seq<u8>>, ended: bool)
    ensures
        DrainView::after(
            data.map_values(|d: Seq<u8>| ReceivedView::Data(d)).push(
                if ended {
                    ReceivedView::Disconnected
                } else {
                    ReceivedView::Empty
                },
            ),
        ) == (DrainView { chunks: data, running: !ended, open: false }),
{
    let looks = data.map_values(|d: Seq<u8>| ReceivedView::Data(d));
    lemma_drain_data(data);
    let last = if ended {
        ReceivedView::Disconnected
    } else {
        ReceivedView::Empty
    };
    assert(looks.push(last).drop_last() =~= looks);
}

proof fn lemma_drain_data(data: Seq<Seq<u8>>)
    ensures
        DrainView::after(data.map_values(|d: Seq<u8>| ReceivedView::Data(d))) == (DrainView {
            chunks: data,
            running: true,
            open: true,
        }),
    decreases data.len(),
{
    let looks = data.map_values(|d: Seq<u8>| ReceivedView::Data(d));
    if data.len() == 0 {
        assert(data =~= Seq::empty());
    } else {
        lemma_drain_data(data.drop_last());
        assert(looks.drop_last() =~= data.drop_last().map_values(
            |d: Seq<u8>| ReceivedView::Data(d),
        ));
        assert(data.drop_last().push(data.last()) =~= data);
    }
}

// ---------------------------------------------------------------------------
// Input
// ---------------------------------------------------------------------------

/// One thing to do with the buffered writer of a terminal.
#[derive(Debug)]
pub enum PtyAction {
    /// Put these bytes into the buffer.
    Write(Vec<u8>),
    /// Hand on what the buffer holds.
    Flush,
}

/// One thing to do with the buffered writer of a terminal, as bytes.
pub enum PtyActionView {
    Write(Seq<u8>),
    Flush,
}

impl View for PtyAction {
    type V = PtyActionView;

    open spec fn view(&self) -> PtyActionView {
        match self {
            PtyAction::Write(data) => PtyActionView::Write(data@),
            PtyAction::Flush => PtyActionView::Flush,
        }
    }
}

/// Actions as bytes.
pub open spec fn action_views(v: Seq<PtyAction>) -> Seq<PtyActionView> {
    v.map_values(|a: PtyAction| a@)
}

/// How `data` is written: Windows has it handed on at once.
pub open spec fn write_actions(platform: Platform, data: Seq<u8>) -> Seq<PtyActionView> {
    if platform is Windows {
        seq![PtyActionView::Write(data), PtyActionView::Flush]
    } else {
        seq![PtyActionView::Write(data)]
    }
}

/// What tells an application that pasted text begins: `ESC [ 200 ~`.
pub open spec fn paste_begin() -> Seq<u8> {
    seq![0x1bu8, 0x5bu8, 0x32u8, 0x30u8, 0x30u8, 0x7eu8]
}

/// What tells an application that pasted text ends: `ESC [ 201 ~`.
pub open spec fn paste_end() -> Seq<u8> {
    seq![0x1bu8, 0x5bu8, 0x32u8, 0x30u8, 0x31u8, 0x7eu8]
}

/// How `text` is pasted, between the two marks where the application asked for
/// them, and handed on.
pub open spec fn paste_actions(platform: Platform, bracketed: bool, text: Seq<char>) -> Seq<
    PtyActionView,
> {
    let body = write_actions(platform, encode_utf8(text));
    let all = if bracketed {
        write_actions(platform, paste_begin()) + body + write_actions(platform, paste_end())
    } else {
        body
    };
    all.push(PtyActionView::Flush)
}

/// The bytes that the actions put into the buffer, one behind the other.
pub open spec fn written(actions: Seq<PtyActionView>) -> Seq<u8>
    decreases actions.len(),
{
    if actions.len() == 0 {
        Seq::empty()
    } else {
        match actions.last() {
            PtyActionView::Write(data) => written(actions.drop_last()) + data,
            PtyActionView::Flush => written(actions.drop_last()),
        }
    }
}

proof fn lemma_written_concat(a: Seq<PtyActionView>, b: Seq<PtyActionView>)
    ensures
        written(a + b) == written(a) + written(b),
    decreases b.len(),
{
    if b.len() == 0 {
        assert(a + b =~= a);
        assert(written(a) + written(b) =~= written(a));
    } else {
        lemma_written_concat(a, b.drop_last());
        assert((a + b).drop_last() =~= a + b.drop_last());
        assert((a + b).last() == b.last());
        assert(written(a + b) =~= written(a) + written(b));
    }
}

/// Writing puts exactly the given bytes into the buffer.
pub proof fn law_write_keeps_bytes(platform: Platform, data: Seq<u8>)
    ensures
        written(write_actions(platform, data)) == data,
{
    reveal_with_fuel(written, 3);
    let actions = write_actions(platform, data);
    let first = seq![PtyActionView::Write(data)];
    assert(first.drop_last() =~= Seq::empty());
    assert(written(first) =~= data);
    if platform is Windows {
        assert(actions.drop_last() =~= first);
    }
}

/// Pasted text reaches the application unchanged on every platform, between the
/// two marks exactly where it asked for them, and is handed on at the end.
pub proof fn law_paste_is_marked(platform: Platform, bracketed: bool, text: Seq<char>)
    ensures
        written(paste_actions(platform, bracketed, text)) == if bracketed {
            paste_begin() + encode_utf8(text) + paste_end()
        } else {
            encode_utf8(text)
        },
        paste_actions(platform, bracketed, text).last() == PtyActionView::Flush,
{
    let begin = write_actions(platform, paste_begin());
    let body = write_actions(platform, encode_utf8(text));
    let end = write_actions(platform, paste_end());
    law_write_keeps_bytes(platform, paste_begin());
    law_write_keeps_bytes(platform, encode_utf8(text));
    law_write_keeps_bytes(platform, paste_end());
    lemma_written_concat(begin, body);
    lemma_written_concat(begin + body, end);
    let all = if bracketed {
        begin + body + end
    } else {
        body
    };
    assert(all.push(PtyActionView::Flush).drop_last() =~= all);
}

/// Puts what writing `data` takes behind the actions that `out` holds.
fn push_write(out: &mut Vec<PtyAction>, platform: Platform, data: Vec<u8>)
    ensures
        action_views(final(out)@) == action_views(old(out)@) + write_actions(platform, data@),
{
    let ghost bytes = data@;
    let ghost before = action_views(out@);
    out.push(PtyAction::Write(data));
    match platform {
        Platform::Windows => out.push(PtyAction::Flush),
        _ => {},
    }
    assert(action_views(out@) =~= before + write_actions(platform, bytes));
}

/// The bytes of a slice.
fn to_vec(data: &[u8]) -> (res: Vec<u8>)
    ensures
        res@ == data@,
{
    let mut res: Vec<u8> = Vec::new();
    res.extend_from_slice(data);
    assert(res@ =~= data@);
    res
}

// ---------------------------------------------------------------------------
// The emulator
// ---------------------------------------------------------------------------

/// The exit status of a process as a signed number of the same bits.
pub open spec fn signed_status(status: u32) -> i32 {
    if status <= i32::MAX {
        status as i32
    } else {
        (status - 0x1_0000_0000) as i32
    }
}

fn to_signed(status: u32) -> (res: i32)
    ensures
        res == signed_status(status),
{
    if status <= 0x7fff_ffff {
        status as i32
    } else {
        (status as i64 - 0x1_0000_0000) as i32
    }
}

/// The exit code that is known after the child was asked whether it is alive,
/// where `known` was known before and it had the exit status `exited`, if any.
pub open spec fn known_exit(known: Option<i32>, exited: Option<u32>) -> Option<i32> {
    match (known, exited) {
        (None, Some(status)) => Some(signed_status(status)),
        _ => known,
    }
}

/// Whether the child still runs, and the exit code that is known, after its output was
/// taken in, where `running` says that the output has not ended.
pub open spec fn after_output(known: Option<i32>, running: bool, exited: Option<u32>) -> (
    bool,
    Option<i32>,
) {
    match exited {
        Some(status) if running => (false, Some(signed_status(status))),
        _ => (running, known),
    }
}

/// Once a child is known to have ended it stays so, with the same exit code,
/// whatever is heard of it later.
pub proof fn law_exit_is_final(known: Option<i32>, exited: Option<u32>, later: Option<u32>)
    requires
        known_exit(known, exited) is Some,
    ensures
        known_exit(known_exit(known, exited), later) == known_exit(known, exited),
{
}

/// Terminal emulator: what is known of the process that it runs.
#[derive(Debug)]
pub struct TerminalEmulator {
    /// Cached exit status.
    pub exit_code: Option<i32>,
    /// Name of the terminal device that the process sees.
    pub slave_name: Option<String>,
    /// Child process PID.
    pub child_pid: Option<u32>,
}

impl TerminalEmulator {
    /// What to do next in starting a terminal of `cols` columns and `rows` rows
    /// with `shell`, or with the default one. The answers to `OpenPty` and
    /// `LookUpShell` are the next event; what fails outside ends the attempt.
    pub fn startup(
        platform: Platform,
        cols: usize,
        rows: usize,
        shell: Option<&str>,
        event: StartupEvent,
    ) -> (res: StartupAction)
        ensures
            res@ == startup_step(platform, cols, rows, str_option_view(shell), event),
    {
        match event {
            StartupEvent::Requested => {
                if allowed_size(cols, rows) {
                    StartupAction::OpenPty { rows: rows as u16, cols: cols as u16 }
                } else {
                    let mut message = "Invalid terminal size ".to_string();
                    push_decimal(&mut message, cols as u64);
                    message.append("x");
                    push_decimal(&mut message, rows as u64);
                    message.append(". Allowed: 80x24, 120x40, 160x40, 200x50");
                    StartupAction::Fail(StartupError::InvalidInput(message))
                }
            },
            _ => match shell {
                None => match platform {
                    Platform::Windows => StartupAction::Spawn(
                        shell_command(Some("cmd.exe".to_string())),
                    ),
                    _ => StartupAction::Spawn(shell_command(None)),
                },
                Some(shell) => match event {
                    StartupEvent::ShellLookedUp(true) => StartupAction::Spawn(
                        shell_command(Some(shell.to_string())),
                    ),
                    StartupEvent::ShellLookedUp(false) => {
                        let mut message = "Shell '".to_string();
                        message.append(shell);
                        message.append("' not found");
                        StartupAction::Fail(StartupError::NotFound(message))
                    },
                    _ => StartupAction::LookUpShell(shell.to_string()),
                },
            },
        }
    }

    /// A terminal whose process has just started.
    pub fn new(slave_name: Option<String>, child_pid: Option<u32>) -> (res: TerminalEmulator)
        ensures
            res.exit_code is None,
            res.slave_name == slave_name,
            res.child_pid == child_pid,
    {
        TerminalEmulator { exit_code: None, slave_name, child_pid }
    }

    /// Get the name of the terminal device that the process sees. Windows has none.
    pub fn get_slave_name(&self, platform: Platform) -> (res: Option<&String>)
        ensures
            match res {
                Some(name) => !(platform is Windows) && self.slave_name == Some(*name),
                None => platform is Windows || self.slave_name is None,
            },
    {
        match platform {
            Platform::Windows => None,
            _ => self.slave_name.as_ref(),
        }
    }

    /// Get the child process ID.
    pub fn get_child_pid(&self) -> (res: Option<u32>)
        ensures
            res == self.child_pid,
    {
        self.child_pid
    }

    /// Takes in what was read of the output and, where that has not ended, the
    /// exit status of the child if it has one by now. Returns true if the child is
    /// still running.
    pub fn process_output(&mut self, drained: &OutputDrain, exited: Option<u32>) -> (res: bool)
        ensures
            res == (drained@.running && exited is None),
            (res, final(self).exit_code) == after_output(
                old(self).exit_code,
                drained@.running,
                exited,
            ),
            *final(self) == (TerminalEmulator {
                exit_code: if drained@.running && exited is Some {
                    Some(signed_status(exited->0))
                } else {
                    old(self).exit_code
                },
                ..*old(self)
            }),
    {
        if drained.is_running() {
            match exited {
                Some(status) => {
                    self.exit_code = Some(to_signed(status));
                    false
                },
                None => true,
            }
        } else {
            false
        }
    }

    /// How to write input to the process, in order; what fails ends it.
    pub fn write_input(platform: Platform, data: &[u8]) -> (res: Vec<PtyAction>)
        ensures
            action_views(res@) == write_actions(platform, data@),
    {
        let mut res: Vec<PtyAction> = Vec::new();
        push_write(&mut res, platform, to_vec(data));
        assert(action_views(res@) =~= write_actions(platform, data@));
        res
    }

    /// How to send pasted text, in order, respecting bracketed paste mode; what
    /// fails ends it.
    pub fn send_paste(platform: Platform, bracketed_paste_mode: bool, text: &str) -> (res: Vec<
        PtyAction,
    >)
        ensures
            action_views(res@) == paste_actions(platform, bracketed_paste_mode, text@),
    {
        let mut res: Vec<PtyAction> = Vec::new();
        if bracketed_paste_mode {
            push_write(&mut res, platform, vec![0x1b, 0x5b, 0x32, 0x30, 0x30, 0x7e]);
            push_write(&mut res, platform, to_vec(text.as_bytes()));
            push_write(&mut res, platform, vec![0x1b, 0x5b, 0x32, 0x30, 0x31, 0x7e]);
        } else {
            push_write(&mut res, platform, to_vec(text.as_bytes()));
        }
        let ghost before = action_views(res@);
        res.push(PtyAction::Flush);
        assert(action_views(res@) =~= before.push(PtyActionView::Flush));
        assert(action_views(res@) =~= paste_actions(platform, bracketed_paste_mode, text@));
        res
    }

    /// Whether the child has to be asked for its exit status to know if it is
    /// alive.
    pub fn must_poll(&self) -> (res: bool)
        ensures
            res == self.exit_code is None,
    {
        self.exit_code.is_none()
    }

    /// Check if the child process is still alive. `exited` is its exit status if
    /// it has one by now, and is not looked at where one is known.
    pub fn is_alive(&mut self, exited: Option<u32>) -> (res: bool)
        ensures
            res == known_exit(old(self).exit_code, exited) is None,
            *final(self) == (TerminalEmulator {
                exit_code: known_exit(old(self).exit_code, exited),
                ..*old(self)
            }),
    {
        if self.exit_code.is_some() {
            return false;
        }
        match exited {
            Some(status) => {
                self.exit_code = Some(to_signed(status));
                false
            },
            None => true,
        }
    }
}

} // verus!
