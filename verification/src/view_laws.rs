//! What the values of the library stand for: every part of a value shows in what
//! contracts say of it, and an answer counts only where it was given.
use vstd::prelude::*;

use crate::cli::{Invocation, Settings};
use crate::command::{may_answer, string_views, CommandLine};
use crate::input::keys::Key;
use crate::mcp::keys::{
    input_action_views, input_views, BatchPlan, InputAction, InputActionView, KeyInput,
};
use crate::mcp::outcome::{result_view, unit_view, Interaction, Outcome};
use crate::mcp::tools::{ScrollAction, ScrollActionView};
use crate::mcp::viewer::report_view;
use crate::terminal::emulator::{
    action_views, may_exist, may_exist_in, may_find_in, PtyAction, PtyActionView, Received,
    ReceivedView, ShellCommand, StartupAction, StartupActionView, StartupError, StartupErrorView,
};
use crate::terminal::foreground::{is_trimmed, may_read, name_view, CutShort};
use crate::terminal::forwarder::{command_views, plan_view, LaunchError, LaunchPlan, LaunchPlanView};
use crate::text::{is_white_space, option_view, str_option_view, str_views};

verus! {

// ---------------------------------------------------------------------------
// Texts and results
// ---------------------------------------------------------------------------

/// An optional text stands for what it holds.
pub proof fn law_optional_texts(s: String, t: &str)
    ensures
        option_view(Some(s)) == Some(s@),
        option_view(None) is None,
        str_option_view(Some(t)) == Some(t@),
        str_option_view(None) is None,
{
}

/// Lists of texts stand for their texts, each at its place.
pub proof fn law_lists_of_texts(strings: Seq<String>, slices: Seq<&str>)
    ensures
        string_views(strings).len() == strings.len(),
        forall|i: int|
            0 <= i < strings.len() ==> #[trigger] string_views(strings)[i] == strings[i]@,
        str_views(slices).len() == slices.len(),
        forall|i: int| 0 <= i < slices.len() ==> #[trigger] str_views(slices)[i] == slices[i]@,
{
}

/// A result stands for its value, or for the text of its error.
pub proof fn law_results(s: String, port: u16)
    ensures
        result_view(Ok(s)) == Ok::<Seq<char>, Seq<char>>(s@),
        result_view(Err(s)) == Err::<Seq<char>, Seq<char>>(s@),
        unit_view(Ok(())) == Ok::<(), Seq<char>>(()),
        unit_view(Err(s)) == Err::<(), Seq<char>>(s@),
        report_view(None) is None,
        report_view(Some(Ok(port))) == Some(Ok::<u16, Seq<char>>(port)),
        report_view(Some(Err(s))) == Some(Err::<u16, Seq<char>>(s@)),
        name_view(Ok(Some(s))) == Ok::<Option<Seq<char>>, CutShort>(Some(s@)),
        name_view(Ok(None)) == Ok::<Option<Seq<char>>, CutShort>(None),
        name_view(Err(CutShort)) is Err,
{
}

/// Text that a process can be known by has some character and no white space at its
/// ends.
pub proof fn law_trimmed_text(name: Seq<char>)
    ensures
        is_trimmed(name) <==> name.len() > 0 && !is_white_space(name[0]) && !is_white_space(
            name[name.len() - 1],
        ),
{
}

// ---------------------------------------------------------------------------
// Values
// ---------------------------------------------------------------------------

/// A key shows its base and its modifiers.
pub proof fn law_keys_show_all(key: Key)
    ensures
        key@.base == key.base,
        key@.modifiers == key.modifiers@,
{
}

/// A command shows its program and every argument at its place.
pub proof fn law_commands_show_all(command: CommandLine, i: int)
    ensures
        command@.program == command.program@,
        command@.args.len() == command.args@.len(),
        0 <= i < command.args@.len() ==> command@.args[i] == command.args@[i]@,
{
}

/// What the command line asks for shows every setting.
pub proof fn law_invocations_show_all(gui: bool, cols: usize, rows: usize, shell: Option<String>)
    ensures
        Invocation::Version@ is None,
        (Invocation::Run { gui, cols, rows, shell })@ == Some(
            Settings {
                gui,
                cols,
                rows,
                shell: match shell {
                    Some(s) => Some(s@),
                    None => None,
                },
            },
        ),
{
}

/// A shell to start shows its program and its variables, each at its place.
pub proof fn law_shells_show_all(shell: ShellCommand, i: int)
    ensures
        shell@.program == (match shell.program {
            Some(s) => Some(s@),
            None => None,
        }),
        shell@.env.len() == shell.env@.len(),
        0 <= i < shell.env@.len() ==> shell@.env[i] == (shell.env@[i].0@, shell.env@[i].1@),
{
}

/// A step of starting shows what is to be done and with what.
pub proof fn law_steps_show_all(rows: u16, cols: u16, s: String, shell: ShellCommand)
    ensures
        (StartupAction::OpenPty { rows, cols })@ == (StartupActionView::OpenPty { rows, cols }),
        StartupAction::LookUpShell(s)@ == StartupActionView::LookUpShell(s@),
        StartupAction::Spawn(shell)@ == StartupActionView::Spawn(shell@),
        StartupAction::Fail(StartupError::InvalidInput(s))@ == StartupActionView::Fail(
            StartupErrorView::InvalidInput(s@),
        ),
        StartupAction::Fail(StartupError::NotFound(s))@ == StartupActionView::Fail(
            StartupErrorView::NotFound(s@),
        ),
{
}

/// What a look for output gave, and what is to be written, show all bytes.
pub proof fn law_bytes_show_all(data: Vec<u8>, actions: Seq<PtyAction>, i: int)
    ensures
        Received::Data(data)@ == ReceivedView::Data(data@),
        Received::Empty@ == ReceivedView::Empty,
        Received::Disconnected@ == ReceivedView::Disconnected,
        PtyAction::Write(data)@ == PtyActionView::Write(data@),
        PtyAction::Flush@ == PtyActionView::Flush,
        action_views(actions).len() == actions.len(),
        0 <= i < actions.len() ==> action_views(actions)[i] == actions[i]@,
{
}

/// A launch plan shows its name and every command at its place.
pub proof fn law_plans_show_all(plan: LaunchPlan, i: int, e: LaunchError)
    ensures
        plan@.terminal_name == plan.terminal_name@,
        plan@.attempts.len() == plan.attempts@.len(),
        0 <= i < plan.attempts@.len() ==> plan@.attempts[i] == plan.attempts@[i]@,
        command_views(plan.attempts@) == plan@.attempts,
        plan_view(Ok(plan)) == Ok::<LaunchPlanView, LaunchError>(plan@),
        plan_view(Err(e)) == Err::<LaunchPlanView, LaunchError>(e),
{
}

/// A thing to type shows its text and its key, and a batch every thing at its place.
pub proof fn law_things_show_all(item: KeyInput, items: Seq<KeyInput>, i: int)
    ensures
        item@.text == (match item.text {
            Some(s) => Some(s@),
            None => None,
        }),
        item@.key == (match item.key {
            Some(s) => Some(s@),
            None => None,
        }),
        input_views(items).len() == items.len(),
        0 <= i < items.len() ==> input_views(items)[i] == items[i]@,
{
}

/// What is to be done for a batch shows every action at its place, the error, the
/// number of things and the batch in short.
pub proof fn law_batches_show_all(
    plan: BatchPlan,
    i: int,
    bytes: Vec<u8>,
    key: Key,
    actions: Seq<InputAction>,
)
    ensures
        InputAction::Text(bytes)@ == InputActionView::Text(bytes@),
        InputAction::Press(key)@ == InputActionView::Press(key@),
        input_action_views(actions).len() == actions.len(),
        0 <= i < actions.len() ==> input_action_views(actions)[i] == actions[i]@,
        plan@.actions.len() == plan.actions@.len(),
        0 <= i < plan.actions@.len() ==> plan@.actions[i] == plan.actions@[i]@,
        plan@.error == (match plan.error {
            Some(e) => Some(e@),
            None => None,
        }),
        plan@.count == plan.count,
        plan@.summary == plan.summary@,
{
}

/// A way to scroll shows the text to search for.
pub proof fn law_scrolling_shows_all(text: String)
    ensures
        ScrollAction::PageUp@ == ScrollActionView::PageUp,
        ScrollAction::PageDown@ == ScrollActionView::PageDown,
        ScrollAction::Search(text)@ == ScrollActionView::Search(text@),
{
}

/// An answer shows its reply, its record with every part, and whether the terminals
/// may have changed.
pub proof fn law_answers_show_all(outcome: Outcome, record: Interaction)
    ensures
        outcome@.reply == (match outcome.reply {
            Ok(s) => Ok(s@),
            Err(e) => Err(e@),
        }),
        outcome@.list_changed == outcome.list_changed,
        outcome.interaction is None ==> outcome@.interaction is None,
        outcome.interaction == Some(record) ==> outcome@.interaction == Some(record@),
        record@.tool == record.tool@,
        record@.terminal_id == (match record.terminal_id {
            Some(s) => Some(s@),
            None => None,
        }),
        record@.params == record.params@,
        record@.success == record.success,
        record@.summary == (match record.summary {
            Some(s) => Some(s@),
            None => None,
        }),
{
}

// ---------------------------------------------------------------------------
// Answers from outside
// ---------------------------------------------------------------------------

/// An answer about a command counts only where it was given about that command.
pub proof fn law_answers_are_about_the_command<T, F: Fn(&CommandLine) -> T>(
    ask: F,
    command: CommandLine,
    out: T,
)
    requires
        may_answer(ask, command@, out),
    ensures
        exists|c: CommandLine|
            c.program@ == command.program@ && string_views(c.args@) == string_views(command.args@)
                && #[trigger] call_ensures(ask, (&c,), out),
{
    let c = choose|c: CommandLine|
        c@ == command@ && #[trigger] call_ensures(ask, (&c,), out);
    assert(c@.program == command@.program && c@.args == command@.args);
}

/// What a file holds counts only where it was read at that path.
pub proof fn law_files_are_read_at_their_path<F: Fn(&str) -> Option<String>>(
    read: F,
    path: Seq<char>,
    out: Option<Seq<char>>,
)
    requires
        may_read(read, path, out),
    ensures
        exists|p: &str, o: Option<String>|
            p@ == path && (o is Some <==> out is Some) && (o is Some ==> o->0@ == out->0)
                && #[trigger] call_ensures(read, (p,), o),
{
    let (p, o) = choose|p: &str, o: Option<String>|
        p@ == path && option_view(o) == out && #[trigger] call_ensures(read, (p,), o);
    assert(call_ensures(read, (p,), o));
}

/// A file counts as there, or as missing, only where that was the answer about it.
pub proof fn law_files_are_looked_for_by_name<E: Fn(&str) -> bool, I: Fn(&str, &str) -> bool>(
    exists_at: E,
    exists_in: I,
    dir: Seq<char>,
    name: Seq<char>,
    out: bool,
)
    ensures
        may_exist(exists_at, name, out) ==> exists|s: &str|
            s@ == name && #[trigger] call_ensures(exists_at, (s,), out),
        may_exist_in(exists_in, dir, name, out) ==> exists|d: &str, s: &str|
            d@ == dir && s@ == name && #[trigger] call_ensures(exists_in, (d, s), out),
{
}

/// A shell counts as found in the directories only where one of them has it, and as
/// missing only where none has.
pub proof fn law_finding_takes_a_directory<F: Fn(&str, &str) -> bool>(
    exists_in: F,
    dirs: Seq<String>,
    name: Seq<char>,
)
    ensures
        may_find_in(exists_in, dirs, name, true) ==> exists|i: int|
            0 <= i < dirs.len() && may_exist_in(exists_in, (#[trigger] dirs[i])@, name, true),
        may_find_in(exists_in, dirs, name, false) ==> forall|i: int|
            0 <= i < dirs.len() ==> may_exist_in(exists_in, (#[trigger] dirs[i])@, name, false),
{
}

} // verus!
