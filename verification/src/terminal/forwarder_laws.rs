//! What holds of launching terminal emulators.
use vstd::prelude::*;
use vstd::string::*;

use crate::command::{may_answer, CommandLine, Platform};
use crate::terminal::forwarder::{
    linux_launch, linux_plan, linux_terminals, may_detect, may_find, may_plan, may_plan_preferred,
    which_command, windows_launch, windows_probe, LaunchError, LaunchPlanView,
};
use crate::text::decimal;

verus! {

/// On Linux the terminal device that is asked for is the one that the command works
/// on, and the terminal emulator is the one that is named, with the arguments that it
/// needs.
pub proof fn law_linux_commands_name_emulator_and_device(slave: Seq<char>, terminal: Seq<char>)
    ensures
        ({
            let command = linux_launch(slave, terminal);
            &&& terminal == "xfce4-terminal"@ ==> {
                &&& command.program == terminal
                &&& command.args.len() == 2
                &&& command.args[0] == "-e"@
                &&& command.args[1] == "script -q "@ + slave + " "@ + terminal + " -e 'cat "@ + slave
                    + "'"@
            }
            &&& terminal != "xfce4-terminal"@ ==> {
                &&& command.program == "script"@
                &&& command.args.len() == 4
                &&& command.args[0] == "-q"@
                &&& command.args[1] == "-c"@
                &&& command.args[2] == (if terminal == "gnome-terminal"@ {
                    terminal + " --disable-factory"@
                } else if terminal == "konsole"@ {
                    terminal + " --nofork"@
                } else {
                    terminal
                })
                &&& command.args[3] == slave
            }
        }),
{
    reveal_strlit("gnome-terminal");
    reveal_strlit("konsole");
    reveal_strlit("xfce4-terminal");
    assert("gnome-terminal"@[0] != "xfce4-terminal"@[0]);
    assert("konsole"@.len() != "xfce4-terminal"@.len());
}

/// On Windows the process to attach to is named in the command, and a console of its
/// own comes last, whether Windows Terminal is there or not. It is there where it can
/// be asked for its version.
pub proof fn law_windows_attaches_to_the_process(pid: u32)
    ensures
        windows_probe().program == "wt.exe"@,
        windows_probe().args =~= seq!["--version"@],
        windows_launch(pid, true).len() == 2,
        windows_launch(pid, true)[0].program == "wt.exe"@,
        windows_launch(pid, true)[0].args =~= seq!["--attach"@, decimal(pid as nat)],
        windows_launch(pid, true).last() == windows_launch(pid, false).last(),
        windows_launch(pid, false).len() == 1,
        windows_launch(pid, false)[0].program == "cmd"@,
        windows_launch(pid, false)[0].args =~= seq!["/c"@, "start"@, "/wait"@, "conhost.exe"@],
{
}

/// A program counts as there exactly where looking for it by its name succeeded.
pub proof fn law_found_means_success<F: Fn(&CommandLine) -> Option<bool>>(
    run: F,
    name: Seq<char>,
    answer: Option<bool>,
)
    requires
        forall|out: Option<bool>| #[trigger]
            may_answer(run, which_command(name), out) ==> out == answer,
    ensures
        which_command(name).program == "which"@,
        which_command(name).args =~= seq![name],
        may_find(run, name, true) ==> answer == Some(true),
        may_find(run, name, false) ==> answer != Some(true),
{
}

/// Where every program that is looked for is there, the first of the known terminal
/// emulators is launched; where none is, nothing is.
pub proof fn law_linux_takes_the_first<F: Fn(&CommandLine) -> Option<bool>>(
    run: F,
    slave: Seq<char>,
    pid: u32,
    res: Result<LaunchPlanView, LaunchError>,
    there: Seq<char>,
)
    requires
        may_plan(Platform::Linux, slave, pid, run, res),
        linux_terminals().contains(there),
        forall|name: Seq<char>, found: bool| #[trigger]
            may_find(run, name, found) ==> (found <==> name == there),
    ensures
        res matches Ok(plan) && plan.terminal_name == there && plan.attempts == seq![
            linux_launch(slave, there),
        ],
{
    let terminal = choose|terminal: Option<Seq<char>>| #[trigger]
        may_detect(run, terminal) && res == linux_plan(slave, terminal);
    let k = choose|k: int| 0 <= k < linux_terminals().len() && linux_terminals()[k] == there;
    match terminal {
        Some(name) => {
            assert(may_find(run, name, true));
        },
        None => {
            assert(may_find(run, linux_terminals()[k], false));
        },
    }
}

/// What is launched has the name that the platform gives it, and a platform that is
/// not known launches nothing.
pub proof fn law_plans_are_named<F: Fn(&CommandLine) -> Option<bool>>(
    platform: Platform,
    run: F,
    slave: Seq<char>,
    pid: u32,
    emulator: Option<Seq<char>>,
    res: Result<LaunchPlanView, LaunchError>,
)
    requires
        may_plan_preferred(platform, slave, pid, emulator, run, res),
    ensures
        res matches Ok(plan) ==> {
            &&& platform is MacOs ==> plan.terminal_name == "Terminal.app"@
            &&& platform is Windows ==> plan.terminal_name == "Windows Terminal"@
            &&& emulator matches Some(name) ==> plan.terminal_name == name
            &&& platform is Linux && emulator is None ==> linux_terminals().contains(
                plan.terminal_name,
            )
            &&& !(platform is Other)
        },
        platform is Other ==> res == Err::<LaunchPlanView, LaunchError>(LaunchError::Unsupported),
        (platform is MacOs || platform is Windows) && emulator is None ==> res is Ok,
        platform is Linux && emulator is Some ==> res is Ok,
{
}

} // verus!
