//! Which terminal emulator to launch, and how, so that the user can look at a
//! terminal from outside.
use vstd::prelude::*;
use vstd::string::*;

use crate::command::{may_answer, CommandLine, CommandView, Platform};
use crate::text::{decimal, option_view, push_decimal, str_eq, str_option_view};

verus! {

/// Result of launching a terminal emulator.
#[derive(Debug)]
pub struct LaunchResult<C> {
    /// The spawned child process.
    pub child: C,
    /// Name of the terminal emulator that was launched.
    pub terminal_name: String,
}

/// Why no terminal emulator can be launched.
#[derive(Debug)]
pub enum LaunchError {
    /// None of the known terminal emulators is installed.
    NotFound,
    /// The platform has no known way to do it.
    Unsupported,
    /// The platform has no known way to launch the terminal emulator asked for.
    UnknownEmulator,
}

impl LaunchError {
    /// What the error says.
    pub open spec fn text(self) -> Seq<char> {
        match self {
            LaunchError::NotFound =>
                "No suitable terminal emulator found. Install gnome-terminal, konsole, or xterm."@,
            LaunchError::Unsupported => "Terminal forwarding is not supported on this platform."@,
            LaunchError::UnknownEmulator =>
                "The requested terminal emulator cannot be launched on this platform."@,
        }
    }

    /// What the error says.
    pub fn message(&self) -> (res: String)
        ensures
            res@ == self.text(),
    {
        match self {
            LaunchError::NotFound =>
                "No suitable terminal emulator found. Install gnome-terminal, konsole, or xterm.".to_string(),
            LaunchError::Unsupported => "Terminal forwarding is not supported on this platform.".to_string(),
            LaunchError::UnknownEmulator =>
                "The requested terminal emulator cannot be launched on this platform.".to_string(),
        }
    }
}

// ---------------------------------------------------------------------------
// Linux: which terminal emulator
// ---------------------------------------------------------------------------

/// The terminal emulators to look for on Linux, the preferred ones first.
pub open spec fn linux_terminals() -> Seq<Seq<char>> {
    seq![
        "gnome-terminal"@,
        "konsole"@,
        "xfce4-terminal"@,
        "mate-terminal"@,
        "tilix"@,
        "alacritty"@,
        "kitty"@,
        "foot"@,
        "xterm"@,
    ]
}

/// The command that looks for the program `name`.
pub open spec fn which_command(name: Seq<char>) -> CommandView {
    CommandView { program: "which"@, args: seq![name] }
}

/// Whether looking for the program `name` by way of `run` may come out as `found`.
pub open spec fn may_find<F: Fn(&CommandLine) -> Option<bool>>(
    run: F,
    name: Seq<char>,
    found: bool,
) -> bool {
    exists|out: Option<bool>| #[trigger]
        may_answer(run, which_command(name), out) && found == (out == Some(true))
}

/// Check if a command exists on Linux. `run` runs a command to its end: nothing
/// where it cannot be run, else whether it succeeded.
pub fn which_linux<F: Fn(&CommandLine) -> Option<bool>>(cmd: &str, run: &F) -> (res: bool)
    requires
        forall|c: &CommandLine| call_requires(*run, (c,)),
    ensures
        may_find(*run, cmd@, res),
{
    let command = CommandLine::new("which").arg(cmd);
    assert(command@.args =~= seq![cmd@]);
    let out = run(&command);
    assert(may_answer(*run, which_command(cmd@), out));
    match out {
        Some(success) => success,
        None => false,
    }
}

/// The terminal emulators to look for on Linux, the preferred ones first.
fn linux_terminal_list() -> (res: Vec<&'static str>)
    ensures
        res@.len() == linux_terminals().len(),
        forall|i: int| 0 <= i < res@.len() ==> #[trigger] res@[i]@ == linux_terminals()[i],
{
    vec![
        "gnome-terminal",
        "konsole",
        "xfce4-terminal",
        "mate-terminal",
        "tilix",
        "alacritty",
        "kitty",
        "foot",
        "xterm",
    ]
}

/// Whether looking for the terminal emulators in turn may come out as `res`: the
/// first of them that was found, or none where none was.
pub open spec fn may_detect<F: Fn(&CommandLine) -> Option<bool>>(
    run: F,
    res: Option<Seq<char>>,
) -> bool {
    match res {
        Some(name) => exists|i: int|
            0 <= i < linux_terminals().len() && name == #[trigger] linux_terminals()[i] && may_find(
                run,
                linux_terminals()[i],
                true,
            ) && (forall|j: int| 0 <= j < i ==> may_find(run, #[trigger] linux_terminals()[j], false)),
        None => forall|j: int|
            0 <= j < linux_terminals().len() ==> may_find(
                run,
                #[trigger] linux_terminals()[j],
                false,
            ),
    }
}

/// Detect the best available terminal emulator on Linux. `run` is as for
/// [`which_linux`].
pub fn detect_linux_terminal<F: Fn(&CommandLine) -> Option<bool>>(run: &F) -> (res: Option<String>)
    requires
        forall|c: &CommandLine| call_requires(*run, (c,)),
    ensures
        may_detect(*run, option_view(res)),
{
    let terminals = linux_terminal_list();
    let mut i: usize = 0;
    while i < terminals.len()
        invariant
            forall|c: &CommandLine| call_requires(*run, (c,)),
            i <= terminals.len(),
            terminals@.len() == linux_terminals().len(),
            forall|j: int|
                0 <= j < terminals@.len() ==> #[trigger] terminals@[j]@ == linux_terminals()[j],
            forall|j: int| 0 <= j < i ==> may_find(*run, #[trigger] linux_terminals()[j], false),
        decreases terminals.len() - i,
    {
        let terminal = terminals[i];
        assert(terminals@[i as int]@ == linux_terminals()[i as int]);
        if which_linux(terminal, run) {
            let res = Some(terminal.to_string());
            assert(option_view(res) == Some(linux_terminals()[i as int]));
            return res;
        }
        i += 1;
    }
    None
}

// ---------------------------------------------------------------------------
// How to launch
// ---------------------------------------------------------------------------

/// The command that runs `command` under `script` on the terminal device `slave`.
pub open spec fn script_command(command: Seq<char>, slave: Seq<char>) -> CommandView {
    CommandView { program: "script"@, args: seq!["-q"@, "-c"@, command, slave] }
}

/// The command that launches `terminal` on Linux, on the terminal device `slave`.
pub open spec fn linux_launch(slave: Seq<char>, terminal: Seq<char>) -> CommandView {
    if terminal == "gnome-terminal"@ {
        script_command(terminal + " --disable-factory"@, slave)
    } else if terminal == "xfce4-terminal"@ {
        CommandView {
            program: terminal,
            args: seq![
                "-e"@,
                "script -q "@ + slave + " "@ + terminal + " -e 'cat "@ + slave + "'"@,
            ],
        }
    } else if terminal == "konsole"@ {
        script_command(terminal + " --nofork"@, slave)
    } else {
        script_command(terminal, slave)
    }
}

/// The command that opens Terminal.app on macOS.
pub open spec fn macos_launch() -> CommandView {
    CommandView {
        program: "osascript"@,
        args: seq![
            "-e"@,
            "\n        tell application \"Terminal\"\n            activate\n            do script\n        end tell\n    "@,
        ],
    }
}

/// The command whose running shows that Windows Terminal is there.
pub open spec fn windows_probe() -> CommandView {
    CommandView { program: "wt.exe"@, args: seq!["--version"@] }
}

/// The command that attaches Windows Terminal to the process `pid`.
pub open spec fn windows_attach(pid: u32) -> CommandView {
    CommandView { program: "wt.exe"@, args: seq!["--attach"@, decimal(pid as nat)] }
}

/// The command that starts a console host of its own.
pub open spec fn windows_console() -> CommandView {
    CommandView { program: "cmd"@, args: seq!["/c"@, "start"@, "/wait"@, "conhost.exe"@] }
}

/// The command that runs `command` under `script` on the terminal device `slave`.
fn script(command: &str, slave: &str) -> (res: CommandLine)
    ensures
        res@ == script_command(command@, slave@),
{
    let res = CommandLine::new("script").arg("-q").arg("-c").arg(command).arg(slave);
    assert(res@.args =~= script_command(command@, slave@).args);
    res
}

/// How to launch a terminal emulator on Linux: different ones have different
/// arguments.
pub fn launch_linux_terminal(slave_name: &str, terminal: &str) -> (res: CommandLine)
    ensures
        res@ == linux_launch(slave_name@, terminal@),
{
    if str_eq(terminal, "gnome-terminal") {
        let mut command = terminal.to_string();
        command.append(" --disable-factory");
        script(command.as_str(), slave_name)
    } else if str_eq(terminal, "xfce4-terminal") {
        let mut command = "script -q ".to_string();
        command.append(slave_name);
        command.append(" ");
        command.append(terminal);
        command.append(" -e 'cat ");
        command.append(slave_name);
        command.append("'");
        let res = CommandLine::new(terminal).arg("-e").arg(command.as_str());
        assert(res@.args =~= linux_launch(slave_name@, terminal@).args);
        res
    } else if str_eq(terminal, "konsole") {
        let mut command = terminal.to_string();
        command.append(" --nofork");
        script(command.as_str(), slave_name)
    } else {
        script(terminal, slave_name)
    }
}

/// How to launch a terminal emulator on macOS.
pub fn launch_macos_terminal() -> (res: CommandLine)
    ensures
        res@ == macos_launch(),
{
    let res = CommandLine::new("osascript").arg("-e").arg(
        "\n        tell application \"Terminal\"\n            activate\n            do script\n        end tell\n    ",
    );
    assert(res@.args =~= macos_launch().args);
    res
}

/// The commands that a list holds.
pub open spec fn command_views(v: Seq<CommandLine>) -> Seq<CommandView> {
    v.map_values(|c: CommandLine| c@)
}

/// The commands to try on Windows, where `present` says whether Windows Terminal
/// answered.
pub open spec fn windows_launch(pid: u32, present: bool) -> Seq<CommandView> {
    if present {
        seq![windows_attach(pid), windows_console()]
    } else {
        seq![windows_console()]
    }
}

/// How to launch a terminal emulator on Windows: the commands to try in turn
/// until one starts. Windows Terminal comes first where `run` can run it at all.
pub fn launch_windows_terminal<F: Fn(&CommandLine) -> Option<bool>>(pid: u32, run: &F) -> (res: Vec<
    CommandLine,
>)
    requires
        forall|c: &CommandLine| call_requires(*run, (c,)),
    ensures
        exists|out: Option<bool>| #[trigger]
            may_answer(*run, windows_probe(), out) && command_views(res@) == windows_launch(
                pid,
                out is Some,
            ),
{
    let probe = CommandLine::new("wt.exe").arg("--version");
    assert(probe@.args =~= windows_probe().args);
    let out = run(&probe);
    assert(may_answer(*run, windows_probe(), out));
    let mut res: Vec<CommandLine> = Vec::new();
    if out.is_some() {
        let mut number = String::new();
        push_decimal(&mut number, pid as u64);
        assert(number@ =~= decimal(pid as nat));
        let attach = CommandLine::new("wt.exe").arg("--attach").arg(number.as_str());
        assert(attach@.args =~= windows_attach(pid).args);
        res.push(attach);
    }
    let console = CommandLine::new("cmd").arg("/c").arg("start").arg("/wait").arg("conhost.exe");
    assert(console@.args =~= windows_console().args);
    res.push(console);
    assert(command_views(res@) =~= windows_launch(pid, out is Some));
    res
}

/// A terminal emulator to launch and the commands to try for it in turn.
#[derive(Debug)]
pub struct LaunchPlan {
    pub terminal_name: String,
    pub attempts: Vec<CommandLine>,
}

/// A launch plan as text.
pub struct LaunchPlanView {
    pub terminal_name: Seq<char>,
    pub attempts: Seq<CommandView>,
}

impl View for LaunchPlan {
    type V = LaunchPlanView;

    open spec fn view(&self) -> LaunchPlanView {
        LaunchPlanView {
            terminal_name: self.terminal_name@,
            attempts: command_views(self.attempts@),
        }
    }
}

/// What comes of a platform on which `terminal` is the terminal emulator found.
pub open spec fn linux_plan(slave: Seq<char>, terminal: Option<Seq<char>>) -> Result<
    LaunchPlanView,
    LaunchError,
> {
    match terminal {
        Some(name) => Ok(
            LaunchPlanView { terminal_name: name, attempts: seq![linux_launch(slave, name)] },
        ),
        None => Err(LaunchError::NotFound),
    }
}

/// Whether planning a launch by way of `run` may come out as `res`.
pub open spec fn may_plan<F: Fn(&CommandLine) -> Option<bool>>(
    platform: Platform,
    slave: Seq<char>,
    pid: u32,
    run: F,
    res: Result<LaunchPlanView, LaunchError>,
) -> bool {
    match platform {
        Platform::Windows => exists|out: Option<bool>| #[trigger]
            may_answer(run, windows_probe(), out) && res == Ok::<LaunchPlanView, LaunchError>(
                LaunchPlanView {
                    terminal_name: "Windows Terminal"@,
                    attempts: windows_launch(pid, out is Some),
                },
            ),
        Platform::MacOs => res == Ok::<LaunchPlanView, LaunchError>(
            LaunchPlanView { terminal_name: "Terminal.app"@, attempts: seq![macos_launch()] },
        ),
        Platform::Linux => exists|terminal: Option<Seq<char>>| #[trigger]
            may_detect(run, terminal) && res == linux_plan(slave, terminal),
        Platform::Other => res == Err::<LaunchPlanView, LaunchError>(LaunchError::Unsupported),
    }
}

/// A result with its plan as text.
pub open spec fn plan_view(res: Result<LaunchPlan, LaunchError>) -> Result<
    LaunchPlanView,
    LaunchError,
> {
    match res {
        Ok(plan) => Ok(plan@),
        Err(e) => Err(e),
    }
}

/// Plan the launch of a terminal emulator attached to the terminal device
/// `slave_name`, such as "/dev/pts/4". `pid` is the process to attach to on
/// Windows; `run` is as for [`which_linux`].
pub fn launch<F: Fn(&CommandLine) -> Option<bool>>(
    platform: Platform,
    slave_name: &str,
    pid: u32,
    run: &F,
) -> (res: Result<LaunchPlan, LaunchError>)
    requires
        forall|c: &CommandLine| call_requires(*run, (c,)),
    ensures
        may_plan(platform, slave_name@, pid, *run, plan_view(res)),
        res matches Ok(plan) ==> plan.attempts@.len() > 0,
{
    match platform {
        Platform::Windows => {
            let attempts = launch_windows_terminal(pid, run);
            assert(command_views(attempts@).len() == attempts@.len());
            Ok(LaunchPlan { terminal_name: "Windows Terminal".to_string(), attempts })
        },
        Platform::MacOs => {
            let attempts = vec![launch_macos_terminal()];
            assert(command_views(attempts@) =~= seq![macos_launch()]);
            Ok(LaunchPlan { terminal_name: "Terminal.app".to_string(), attempts })
        },
        Platform::Linux => match detect_linux_terminal(run) {
            Some(terminal) => {
                let attempts = vec![launch_linux_terminal(slave_name, terminal.as_str())];
                assert(command_views(attempts@) =~= seq![linux_launch(slave_name@, terminal@)]);
                Ok(LaunchPlan { terminal_name: terminal, attempts })
            },
            None => Err(LaunchError::NotFound),
        },
        Platform::Other => Err(LaunchError::Unsupported),
    }
}

/// The one terminal emulator that a platform knows how to launch, where it knows one
/// alone.
pub open spec fn own_emulator(platform: Platform) -> Option<Seq<char>> {
    match platform {
        Platform::Windows => Some("Windows Terminal"@),
        Platform::MacOs => Some("Terminal.app"@),
        _ => None,
    }
}

/// Whether planning a launch of `emulator`, or of the one that is found where none is
/// asked for, may come out as `res`. On Linux any terminal emulator can be asked for;
/// Windows and macOS refuse all but their own.
pub open spec fn may_plan_preferred<F: Fn(&CommandLine) -> Option<bool>>(
    platform: Platform,
    slave: Seq<char>,
    pid: u32,
    emulator: Option<Seq<char>>,
    run: F,
    res: Result<LaunchPlanView, LaunchError>,
) -> bool {
    match (platform, emulator) {
        (Platform::Linux, Some(name)) => res == linux_plan(slave, Some(name)),
        (_, Some(name)) => if own_emulator(platform) is Some && own_emulator(platform) != Some(name) {
            res == Err::<LaunchPlanView, LaunchError>(LaunchError::UnknownEmulator)
        } else {
            may_plan(platform, slave, pid, run, res)
        },
        (_, None) => may_plan(platform, slave, pid, run, res),
    }
}

/// Plan the launch of the terminal emulator `emulator`, or of the one that is found
/// where none is asked for. The rest is as for [`launch`].
pub fn launch_preferred<F: Fn(&CommandLine) -> Option<bool>>(
    platform: Platform,
    slave_name: &str,
    pid: u32,
    emulator: Option<&str>,
    run: &F,
) -> (res: Result<LaunchPlan, LaunchError>)
    requires
        forall|c: &CommandLine| call_requires(*run, (c,)),
    ensures
        may_plan_preferred(
            platform,
            slave_name@,
            pid,
            str_option_view(emulator),
            *run,
            plan_view(res),
        ),
        res matches Ok(plan) ==> plan.attempts@.len() > 0,
{
    match (platform, emulator) {
        (Platform::Linux, Some(name)) => {
            let attempts = vec![launch_linux_terminal(slave_name, name)];
            assert(command_views(attempts@) =~= seq![linux_launch(slave_name@, name@)]);
            Ok(LaunchPlan { terminal_name: name.to_string(), attempts })
        },
        (Platform::Windows, Some(name)) => {
            if str_eq(name, "Windows Terminal") {
                launch(platform, slave_name, pid, run)
            } else {
                Err(LaunchError::UnknownEmulator)
            }
        },
        (Platform::MacOs, Some(name)) => {
            if str_eq(name, "Terminal.app") {
                launch(platform, slave_name, pid, run)
            } else {
                Err(LaunchError::UnknownEmulator)
            }
        },
        _ => launch(platform, slave_name, pid, run),
    }
}

impl LaunchPlan {
    /// The command to start after the first `failed` of them did not start.
    /// Where none is left, what the last one failed with is the failure of all.
    pub fn next_attempt(&self, failed: usize) -> (res: Option<&CommandLine>)
        ensures
            match res {
                Some(c) => failed < self@.attempts.len() && c@ == self@.attempts[failed as int],
                None => failed >= self@.attempts.len(),
            },
    {
        if failed < self.attempts.len() {
            assert(self@.attempts[failed as int] == self.attempts@[failed as int]@);
            Some(&self.attempts[failed])
        } else {
            None
        }
    }

    /// The launch is done: one of the commands started as `child`.
    pub fn launched<C>(self, child: C) -> (res: LaunchResult<C>)
        ensures
            res.child == child,
            res.terminal_name@ == self@.terminal_name,
    {
        LaunchResult { child, terminal_name: self.terminal_name }
    }
}

/// A terminal emulator that is launched on Linux is one of the known ones, was
/// found, and none that is preferred to it was.
pub proof fn law_linux_prefers_first_found<F: Fn(&CommandLine) -> Option<bool>>(
    slave: Seq<char>,
    pid: u32,
    run: F,
    plan: LaunchPlanView,
)
    requires
        may_plan(Platform::Linux, slave, pid, run, Ok(plan)),
    ensures
        exists|i: int|
            0 <= i < linux_terminals().len() && plan.terminal_name
                == #[trigger] linux_terminals()[i] && may_find(run, linux_terminals()[i], true) && (
            forall|j: int| 0 <= j < i ==> may_find(run, #[trigger] linux_terminals()[j], false)),
        plan.attempts == seq![linux_launch(slave, plan.terminal_name)],
{
    let terminal = choose|terminal: Option<Seq<char>>| #[trigger]
        may_detect(run, terminal) && Ok::<LaunchPlanView, LaunchError>(plan) == linux_plan(
            slave,
            terminal,
        );
    assert(terminal == Some(plan.terminal_name));
}

} // verus!
