//! What the command line asks for.
use vstd::prelude::*;
use vstd::string::*;

use crate::command::string_views;
use crate::terminal::size::{
    is_allowed_size, law_sizes_go_by_their_names, name_of_size, size_from_name, size_named,
};
use crate::text::{option_view, str_eq};

verus! {

/// What the command line asks for.
#[derive(Debug)]
pub enum Invocation {
    /// To say which version this is.
    Version,
    /// To run, with these settings for a window.
    Run { gui: bool, cols: usize, rows: usize, shell: Option<String> },
}

/// The settings that the command line gives.
pub struct Settings {
    pub gui: bool,
    pub cols: usize,
    pub rows: usize,
    pub shell: Option<Seq<char>>,
}

impl Settings {
    /// The settings where the command line gives none.
    pub open spec fn start() -> Settings {
        Settings { gui: false, cols: 80, rows: 24, shell: None }
    }
}

/// An argument that asks for the version.
pub open spec fn asks_version(arg: Seq<char>) -> bool {
    arg == "--version"@ || arg == "-v"@
}

/// An argument that the next one gives a size to.
pub open spec fn asks_size(arg: Seq<char>) -> bool {
    arg == "--size"@ || arg == "-s"@
}

/// What `args` make of the settings `so_far`: nothing where one of them asks for
/// the version. Later settings replace earlier ones, and what is not known is
/// passed over.
pub open spec fn settings_after(args: Seq<Seq<char>>, so_far: Settings) -> Option<Settings>
    decreases args.len(),
{
    if args.len() == 0 {
        Some(so_far)
    } else {
        let rest = args.drop_first();
        if asks_version(args[0]) {
            None
        } else if args[0] == "--gui"@ {
            settings_after(rest, Settings { gui: true, ..so_far })
        } else if asks_size(args[0]) && rest.len() > 0 {
            let size = size_named(rest[0]);
            settings_after(rest.drop_first(), Settings { cols: size.0, rows: size.1, ..so_far })
        } else if args[0] == "--shell"@ && rest.len() > 0 {
            settings_after(rest.drop_first(), Settings { shell: Some(rest[0]), ..so_far })
        } else {
            settings_after(rest, so_far)
        }
    }
}

/// What the arguments ask for; nothing stands for the version.
pub open spec fn parse_arguments(args: Seq<Seq<char>>) -> Option<Settings> {
    settings_after(args, Settings::start())
}

impl View for Invocation {
    type V = Option<Settings>;

    open spec fn view(&self) -> Option<Settings> {
        match self {
            Invocation::Version => None,
            Invocation::Run { gui, cols, rows, shell } => Some(
                Settings { gui: *gui, cols: *cols, rows: *rows, shell: option_view(*shell) },
            ),
        }
    }
}

/// Reads the arguments behind the name of the program.
pub fn parse_args(args: &Vec<String>) -> (res: Invocation)
    ensures
        res@ == parse_arguments(string_views(args@)),
{
    let ghost all = string_views(args@);
    let mut gui = false;
    let mut cols: usize = 80;
    let mut rows: usize = 24;
    let mut shell: Option<String> = None;
    let mut i: usize = 0;
    assert(all.skip(0) =~= all);
    while i < args.len()
        invariant
            i <= args.len(),
            all == string_views(args@),
            settings_after(
                all.skip(i as int),
                (Settings { gui, cols, rows, shell: option_view(shell) }),
            ) == parse_arguments(all),
        decreases args.len() - i,
    {
        let ghost here = all.skip(i as int);
        let arg = args[i].as_str();
        assert(here[0] == arg@);
        assert(here.drop_first() =~= all.skip(i + 1));
        i += 1;
        if str_eq(arg, "--version") || str_eq(arg, "-v") {
            return Invocation::Version;
        } else if str_eq(arg, "--gui") {
            gui = true;
        } else if str_eq(arg, "--size") || str_eq(arg, "-s") {
            if i < args.len() {
                assert(here.drop_first()[0] == args@[i as int]@);
                assert(here.drop_first().drop_first() =~= all.skip(i + 1));
                let size = size_from_name(args[i].as_str());
                cols = size.0;
                rows = size.1;
                i += 1;
            }
        } else if str_eq(arg, "--shell") {
            if i < args.len() {
                assert(here.drop_first()[0] == args@[i as int]@);
                assert(here.drop_first().drop_first() =~= all.skip(i + 1));
                shell = Some(args[i].as_str().to_string());
                i += 1;
            }
        }
    }
    Invocation::Run { gui, cols, rows, shell }
}

/// What the program does.
#[derive(Debug)]
pub enum Mode {
    /// Say which version this is, and end.
    PrintVersion,
    /// Show one terminal in a window.
    Window { cols: usize, rows: usize, shell: Option<String> },
    /// Serve terminals.
    Serve,
}

/// Whether the program shows a window: where it can and was asked to.
pub open spec fn shows_window(settings: Settings, windows_built_in: bool) -> bool {
    windows_built_in && settings.gui
}

impl Invocation {
    /// What the program does, where `windows_built_in` says whether it can show a
    /// window at all.
    pub fn mode(self, windows_built_in: bool) -> (res: Mode)
        ensures
            match self@ {
                None => res is PrintVersion,
                Some(settings) => if windows_built_in && settings.gui {
                    res matches Mode::Window { cols, rows, shell } && cols == settings.cols && rows
                        == settings.rows && option_view(shell) == settings.shell
                } else {
                    res is Serve
                },
            },
            res is Window <==> self@ is Some && shows_window(self@->0, windows_built_in),
            res is PrintVersion <==> self@ is None,
    {
        match self {
            Invocation::Version => Mode::PrintVersion,
            Invocation::Run { gui, cols, rows, shell } => {
                if windows_built_in && gui {
                    Mode::Window { cols, rows, shell }
                } else {
                    Mode::Serve
                }
            },
        }
    }
}

/// What is said of the version.
pub open spec fn version_text(version: Seq<char>) -> Seq<char> {
    "npcterm "@ + version
}

/// What is said of the version.
pub fn version_line(version: &str) -> (res: String)
    ensures
        res@ == version_text(version@),
        res@ == "npcterm "@ + version@,
{
    let mut line = "npcterm ".to_string();
    line.append(version);
    line
}

/// Whatever the command line gives, a terminal can have the size that comes of it.
pub proof fn law_sizes_are_allowed(args: Seq<Seq<char>>)
    ensures
        parse_arguments(args) matches Some(settings) ==> is_allowed_size(
            settings.cols,
            settings.rows,
        ),
{
    lemma_sizes_stay_allowed(args, Settings::start());
}

proof fn lemma_sizes_stay_allowed(args: Seq<Seq<char>>, so_far: Settings)
    requires
        is_allowed_size(so_far.cols, so_far.rows),
    ensures
        settings_after(args, so_far) matches Some(settings) ==> is_allowed_size(
            settings.cols,
            settings.rows,
        ),
    decreases args.len(),
{
    if args.len() > 0 {
        let rest = args.drop_first();
        if asks_version(args[0]) {
        } else if args[0] == "--gui"@ {
            lemma_sizes_stay_allowed(rest, Settings { gui: true, ..so_far });
        } else if asks_size(args[0]) && rest.len() > 0 {
            let size = size_named(rest[0]);
            lemma_sizes_stay_allowed(
                rest.drop_first(),
                Settings { cols: size.0, rows: size.1, ..so_far },
            );
        } else if args[0] == "--shell"@ && rest.len() > 0 {
            lemma_sizes_stay_allowed(
                rest.drop_first(),
                Settings { shell: Some(rest[0]), ..so_far },
            );
        } else {
            lemma_sizes_stay_allowed(rest, so_far);
        }
    }
}

/// Arguments that are all unknown change nothing.
pub proof fn law_unknown_arguments_are_ignored(args: Seq<Seq<char>>)
    requires
        forall|i: int|
            0 <= i < args.len() ==> !asks_version(#[trigger] args[i]) && !asks_size(args[i])
                && args[i] != "--gui"@ && args[i] != "--shell"@,
    ensures
        parse_arguments(args) == Some(Settings::start()),
    decreases args.len(),
{
    if args.len() > 0 {
        assert(!asks_version(args[0]));
        assert forall|i: int| 0 <= i < args.drop_first().len() implies !asks_version(
            #[trigger] args.drop_first()[i],
        ) && !asks_size(args.drop_first()[i]) && args.drop_first()[i] != "--gui"@
            && args.drop_first()[i] != "--shell"@ by {
            assert(args.drop_first()[i] == args[i + 1]);
        }
        law_unknown_arguments_are_ignored(args.drop_first());
    }
}

/// The version is said as it is, behind the name of the program.
pub proof fn law_version_is_said_as_it_is(version: Seq<char>)
    ensures
        version_text(version).len() == 8 + version.len(),
        version_text(version).skip(8) == version,
        version_text(version).take(8) == seq!['n', 'p', 'c', 't', 'e', 'r', 'm', ' '],
{
    reveal_strlit("npcterm ");
    assert(version_text(version).skip(8) =~= version);
    assert(version_text(version).take(8) =~= seq!['n', 'p', 'c', 't', 'e', 'r', 'm', ' ']);
}

/// A window is shown where it was asked for and can be, whatever else was asked for.
pub proof fn law_windows_are_shown_where_asked(settings: Settings)
    ensures
        shows_window(settings, true) == settings.gui,
        !shows_window(settings, false),
{
}

/// What is not given on the command line is the default: no window, 80 columns and 24
/// rows, and no shell in particular.
pub proof fn law_defaults()
    ensures
        parse_arguments(Seq::<Seq<char>>::empty()) == Some(
            Settings { gui: false, cols: 80, rows: 24, shell: None },
        ),
{
}

/// Asking for the version comes before everything that follows it.
pub proof fn law_version_comes_first(arg: Seq<char>, rest: Seq<Seq<char>>)
    requires
        arg == "--version"@ || arg == "-v"@,
    ensures
        parse_arguments(seq![arg] + rest) is None,
{
    assert((seq![arg] + rest)[0] == arg);
}

/// `--gui` asks for a window, and leaves everything else to the arguments that follow.
pub proof fn law_gui_asks_for_a_window(rest: Seq<Seq<char>>)
    ensures
        match parse_arguments(rest) {
            None => parse_arguments(seq!["--gui"@] + rest) is None,
            Some(settings) => parse_arguments(seq!["--gui"@] + rest) == Some(
                Settings { gui: true, ..settings },
            ),
        },
{
    reveal_strlit("--gui");
    reveal_strlit("--version");
    reveal_strlit("-v");
    assert("--gui"@.len() == 5 && "--version"@.len() == 9 && "-v"@.len() == 2);
    let args = seq!["--gui"@] + rest;
    assert(args[0] == "--gui"@);
    assert(args.drop_first() =~= rest);
    let start = Settings::start();
    lemma_gui_stays(rest, start);
}

proof fn lemma_gui_stays(args: Seq<Seq<char>>, so_far: Settings)
    ensures
        settings_after(args, Settings { gui: true, ..so_far }) == match settings_after(args, so_far) {
            None => None,
            Some(settings) => Some(Settings { gui: true, ..settings }),
        },
    decreases args.len(),
{
    if args.len() > 0 {
        let rest = args.drop_first();
        if asks_version(args[0]) {
        } else if args[0] == "--gui"@ {
            lemma_gui_stays(rest, Settings { gui: true, ..so_far });
        } else if asks_size(args[0]) && rest.len() > 0 {
            let size = size_named(rest[0]);
            lemma_gui_stays(
                rest.drop_first(),
                Settings { cols: size.0, rows: size.1, ..so_far },
            );
        } else if args[0] == "--shell"@ && rest.len() > 0 {
            lemma_gui_stays(rest.drop_first(), Settings { shell: Some(rest[0]), ..so_far });
        } else {
            lemma_gui_stays(rest, so_far);
        }
    }
}

/// `--shell` gives the shell, as it is written, unless the arguments that follow give
/// another, and leaves everything else to them.
pub proof fn law_shell_is_taken_as_written(shell: Seq<char>, rest: Seq<Seq<char>>)
    ensures
        match parse_arguments(rest) {
            None => parse_arguments(seq!["--shell"@, shell] + rest) is None,
            Some(settings) => parse_arguments(seq!["--shell"@, shell] + rest) == Some(
                Settings {
                    shell: if settings.shell is Some {
                        settings.shell
                    } else {
                        Some(shell)
                    },
                    ..settings
                },
            ),
        },
{
    reveal_strlit("--gui");
    reveal_strlit("--version");
    reveal_strlit("-v");
    reveal_strlit("--size");
    reveal_strlit("-s");
    reveal_strlit("--shell");
    assert("--gui"@.len() == 5 && "--version"@.len() == 9 && "-v"@.len() == 2);
    assert("--size"@.len() == 6 && "-s"@.len() == 2 && "--shell"@.len() == 7);
    let args = seq!["--shell"@, shell] + rest;
    assert(args[0] == "--shell"@);
    assert(args.drop_first()[0] == shell);
    assert(args.drop_first().drop_first() =~= rest);
    let start = Settings::start();
    lemma_shell_stays(rest, start, shell);
}

proof fn lemma_shell_stays(args: Seq<Seq<char>>, so_far: Settings, shell: Seq<char>)
    requires
        so_far.shell is None,
    ensures
        settings_after(args, Settings { shell: Some(shell), ..so_far }) == match settings_after(
            args,
            so_far,
        ) {
            None => None,
            Some(settings) => Some(
                Settings {
                    shell: if settings.shell is Some {
                        settings.shell
                    } else {
                        Some(shell)
                    },
                    ..settings
                },
            ),
        },
    decreases args.len(),
{
    if args.len() > 0 {
        let rest = args.drop_first();
        if asks_version(args[0]) {
        } else if args[0] == "--gui"@ {
            lemma_shell_stays(rest, Settings { gui: true, ..so_far }, shell);
        } else if asks_size(args[0]) && rest.len() > 0 {
            let size = size_named(rest[0]);
            lemma_shell_stays(
                rest.drop_first(),
                Settings { cols: size.0, rows: size.1, ..so_far },
                shell,
            );
        } else if args[0] == "--shell"@ && rest.len() > 0 {
            lemma_shell_once_given(rest.drop_first(), Settings { shell: Some(rest[0]), ..so_far });
        } else {
            lemma_shell_stays(rest, so_far, shell);
        }
    }
}

proof fn lemma_shell_once_given(args: Seq<Seq<char>>, so_far: Settings)
    requires
        so_far.shell is Some,
    ensures
        settings_after(args, so_far) matches Some(settings) ==> settings.shell is Some,
    decreases args.len(),
{
    if args.len() > 0 {
        let rest = args.drop_first();
        if asks_version(args[0]) {
        } else if args[0] == "--gui"@ {
            lemma_shell_once_given(rest, Settings { gui: true, ..so_far });
        } else if asks_size(args[0]) && rest.len() > 0 {
            let size = size_named(rest[0]);
            lemma_shell_once_given(
                rest.drop_first(),
                Settings { cols: size.0, rows: size.1, ..so_far },
            );
        } else if args[0] == "--shell"@ && rest.len() > 0 {
            lemma_shell_once_given(rest.drop_first(), Settings { shell: Some(rest[0]), ..so_far });
        } else {
            lemma_shell_once_given(rest, so_far);
        }
    }
}

/// Arguments none of which asks for a size.
pub open spec fn gives_no_size(args: Seq<Seq<char>>) -> bool {
    forall|i: int| 0 <= i < args.len() ==> (#[trigger] args[i]) != "--size"@ && args[i] != "-s"@
}

/// `--size` gives each size that a terminal can have by its name, unless the arguments
/// that follow give another, and leaves everything else to them.
pub proof fn law_size_goes_by_name(
    arg: Seq<char>,
    cols: usize,
    rows: usize,
    rest: Seq<Seq<char>>,
)
    requires
        arg == "--size"@ || arg == "-s"@,
        is_allowed_size(cols, rows),
    ensures
        match parse_arguments(rest) {
            None => parse_arguments(seq![arg, name_of_size(cols, rows)] + rest) is None,
            Some(settings) => parse_arguments(seq![arg, name_of_size(cols, rows)] + rest) matches
                Some(sized) && sized.gui == settings.gui && sized.shell == settings.shell && ((
            sized.cols == cols && sized.rows == rows) || (sized.cols == settings.cols && sized.rows
                == settings.rows)) && (gives_no_size(rest) ==> sized.cols == cols && sized.rows
                == rows),
        },
{
    reveal_strlit("--gui");
    reveal_strlit("--version");
    reveal_strlit("-v");
    reveal_strlit("--size");
    reveal_strlit("-s");
    assert("--gui"@.len() == 5 && "--version"@.len() == 9 && "-v"@.len() == 2);
    assert("--size"@.len() == 6 && "-s"@.len() == 2 && "-v"@[1] != "-s"@[1]);
    let name = name_of_size(cols, rows);
    law_sizes_go_by_their_names(cols, rows);
    let args = seq![arg, name] + rest;
    assert(args[0] == arg);
    assert(args.drop_first()[0] == name);
    assert(args.drop_first().drop_first() =~= rest);
    let start = Settings::start();
    lemma_size_stays(rest, start, cols, rows);
}

proof fn lemma_size_stays(args: Seq<Seq<char>>, so_far: Settings, cols: usize, rows: usize)
    ensures
        match settings_after(args, so_far) {
            None => settings_after(args, Settings { cols, rows, ..so_far }) is None,
            Some(settings) => settings_after(args, Settings { cols, rows, ..so_far }) matches Some(
                sized,
            ) && sized.gui == settings.gui && sized.shell == settings.shell && ((sized.cols == cols
                && sized.rows == rows) || (sized.cols == settings.cols && sized.rows
                == settings.rows)) && (gives_no_size(args) ==> sized.cols == cols && sized.rows
                == rows),
        },
    decreases args.len(),
{
    if args.len() > 0 {
        let rest = args.drop_first();
        if gives_no_size(args) {
            assert(args[0] != "--size"@);
            assert forall|i: int| 0 <= i < rest.len() implies (#[trigger] rest[i]) != "--size"@
                && rest[i] != "-s"@ by {
                assert(rest[i] == args[i + 1]);
            }
            if rest.len() > 0 {
                let later = rest.drop_first();
                assert forall|i: int| 0 <= i < later.len() implies (#[trigger] later[i])
                    != "--size"@ && later[i] != "-s"@ by {
                    assert(later[i] == args[i + 2]);
                }
            }
        }
        if asks_version(args[0]) {
        } else if args[0] == "--gui"@ {
            lemma_size_stays(rest, Settings { gui: true, ..so_far }, cols, rows);
        } else if asks_size(args[0]) && rest.len() > 0 {
        } else if args[0] == "--shell"@ && rest.len() > 0 {
            lemma_size_stays(
                rest.drop_first(),
                Settings { shell: Some(rest[0]), ..so_far },
                cols,
                rows,
            );
        } else {
            lemma_size_stays(rest, so_far, cols, rows);
        }
    }
}

/// The last size that is given counts.
pub proof fn law_last_size_counts(
    arg: Seq<char>,
    first: Seq<char>,
    second: Seq<char>,
    rest: Seq<Seq<char>>,
)
    requires
        arg == "--size"@ || arg == "-s"@,
    ensures
        parse_arguments(seq![arg, first, arg, second] + rest) == parse_arguments(
            seq![arg, second] + rest,
        ),
{
    reveal_strlit("--gui");
    reveal_strlit("--version");
    reveal_strlit("-v");
    reveal_strlit("--size");
    reveal_strlit("-s");
    assert("--gui"@.len() == 5 && "--version"@.len() == 9 && "-v"@.len() == 2);
    assert("--size"@.len() == 6 && "-s"@.len() == 2 && "-v"@[1] != "-s"@[1]);
    reveal_with_fuel(settings_after, 3);
    let one = seq![arg, second] + rest;
    let two = seq![arg, first, arg, second] + rest;
    assert(two[0] == arg && two.drop_first()[0] == first);
    assert(two.drop_first().drop_first() =~= one);
    assert(one[0] == arg && one.drop_first()[0] == second);
    assert(one.drop_first().drop_first() =~= rest);
}

/// An argument that is not known changes nothing, wherever the rest leads.
pub proof fn law_unknown_argument_is_passed_over(arg: Seq<char>, rest: Seq<Seq<char>>)
    requires
        arg != "--version"@,
        arg != "-v"@,
        arg != "--gui"@,
        arg != "--size"@,
        arg != "-s"@,
        arg != "--shell"@,
    ensures
        parse_arguments(seq![arg] + rest) == parse_arguments(rest),
{
    assert((seq![arg] + rest)[0] == arg);
    assert((seq![arg] + rest).drop_first() =~= rest);
}

/// An option that lacks its value changes nothing.
pub proof fn law_missing_value_changes_nothing(arg: Seq<char>)
    requires
        arg == "--size"@ || arg == "-s"@ || arg == "--shell"@,
    ensures
        parse_arguments(seq![arg]) == parse_arguments(Seq::<Seq<char>>::empty()),
{
    reveal_strlit("--gui");
    reveal_strlit("--version");
    reveal_strlit("-v");
    reveal_strlit("--size");
    reveal_strlit("-s");
    reveal_strlit("--shell");
    assert("--gui"@.len() == 5 && "--version"@.len() == 9 && "-v"@.len() == 2);
    assert("--size"@.len() == 6 && "-s"@.len() == 2 && "--shell"@.len() == 7);
    assert("-v"@[1] != "-s"@[1]);
    reveal_with_fuel(settings_after, 2);
    assert(seq![arg].drop_first() =~= Seq::<Seq<char>>::empty());
}

} // verus!
