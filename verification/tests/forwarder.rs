use npcterm::command::{CommandLine, Platform};
use npcterm::terminal::forwarder::{
    detect_linux_terminal, launch, launch_linux_terminal, launch_macos_terminal, launch_preferred,
    launch_windows_terminal, which_linux, LaunchError,
};

fn line(command: &CommandLine) -> Vec<String> {
    let mut words = vec![command.program.clone()];
    words.extend(command.args.iter().cloned());
    words
}

#[test]
fn test_detect_linux_terminal() {
    let terminal = detect_linux_terminal(&|_command: &CommandLine| None);
    println!("Detected terminal: {:?}", terminal);
}

#[test]
fn which_goes_by_success() {
    let ask = |command: &CommandLine| {
        assert_eq!(line(command), vec!["which", "kitty"]);
        Some(true)
    };
    assert!(which_linux("kitty", &ask));
    assert!(!which_linux("kitty", &|_command: &CommandLine| Some(false)));
    assert!(!which_linux("kitty", &|_command: &CommandLine| None));
}

#[test]
fn the_first_terminal_found_is_taken() {
    let order = [
        "gnome-terminal", "konsole", "xfce4-terminal", "mate-terminal", "tilix", "alacritty",
        "kitty", "foot", "xterm",
    ];
    for i in 0..order.len() {
        let run = |command: &CommandLine| {
            Some(order.iter().position(|t| *t == command.args[0]).unwrap() >= i)
        };
        assert_eq!(detect_linux_terminal(&run).as_deref(), Some(order[i]));
    }
    assert_eq!(detect_linux_terminal(&|_command: &CommandLine| Some(false)), None);
}

#[test]
fn linux_terminals_have_their_own_arguments() {
    let tty = "/dev/pts/4";
    assert_eq!(
        line(&launch_linux_terminal(tty, "gnome-terminal")),
        vec!["script", "-q", "-c", "gnome-terminal --disable-factory", tty]
    );
    assert_eq!(
        line(&launch_linux_terminal(tty, "konsole")),
        vec!["script", "-q", "-c", "konsole --nofork", tty]
    );
    assert_eq!(
        line(&launch_linux_terminal(tty, "xfce4-terminal")),
        vec!["xfce4-terminal", "-e", "script -q /dev/pts/4 xfce4-terminal -e 'cat /dev/pts/4'"]
    );
    for terminal in ["mate-terminal", "xterm", "foot", "other"] {
        assert_eq!(
            line(&launch_linux_terminal(tty, terminal)),
            vec!["script", "-q", "-c", terminal, tty]
        );
    }
}

#[test]
fn macos_opens_terminal_app() {
    let command = launch_macos_terminal();
    assert_eq!(command.program, "osascript");
    assert_eq!(command.args[0], "-e");
    let script = "
        tell application \"Terminal\"
            activate
            do script
        end tell
    ";
    assert_eq!(command.args[1], script);
}

#[test]
fn windows_tries_to_attach_first() {
    let console = vec!["cmd", "/c", "start", "/wait", "conhost.exe"];
    let with = launch_windows_terminal(42, &|command: &CommandLine| {
        assert_eq!(line(command), vec!["wt.exe", "--version"]);
        Some(false)
    });
    assert_eq!(with.len(), 2);
    assert_eq!(line(&with[0]), vec!["wt.exe", "--attach", "42"]);
    assert_eq!(line(&with[1]), console);
    let without = launch_windows_terminal(42, &|_command: &CommandLine| None);
    assert_eq!(without.len(), 1);
    assert_eq!(line(&without[0]), console);
}

#[test]
fn launching_goes_by_the_platform() {
    let run = |command: &CommandLine| Some(command.args[0] == "xterm");
    let plan = launch(Platform::Linux, "/dev/pts/1", 7, &run).unwrap();
    assert_eq!(plan.terminal_name, "xterm");
    assert_eq!(
        line(plan.next_attempt(0).unwrap()),
        vec!["script", "-q", "-c", "xterm", "/dev/pts/1"]
    );
    assert!(plan.next_attempt(1).is_none());
    let launched = plan.launched(99u32);
    assert_eq!(launched.child, 99);
    assert_eq!(launched.terminal_name, "xterm");

    let plan = launch(Platform::Windows, "", 7, &run).unwrap();
    assert_eq!(plan.terminal_name, "Windows Terminal");
    assert_eq!(line(plan.next_attempt(0).unwrap())[2], "7");
    assert_eq!(line(plan.next_attempt(1).unwrap())[0], "cmd");

    let plan = launch(Platform::MacOs, "", 7, &run).unwrap();
    assert_eq!(plan.terminal_name, "Terminal.app");
    assert_eq!(plan.next_attempt(0).unwrap().program, "osascript");
}

#[test]
fn an_emulator_can_be_asked_for() {
    let tty = "/dev/pts/1";
    let run = |command: &CommandLine| Some(command.args[0] == "xterm");
    let plan = launch_preferred(Platform::Linux, tty, 7, Some("konsole"), &run).unwrap();
    assert_eq!(plan.terminal_name, "konsole");
    assert_eq!(
        line(plan.next_attempt(0).unwrap()),
        vec!["script", "-q", "-c", "konsole --nofork", tty]
    );
    assert!(plan.next_attempt(1).is_none());
    let found = launch_preferred(Platform::Linux, tty, 7, None, &run).unwrap();
    assert_eq!(found.terminal_name, "xterm");
    for (platform, own) in
        [(Platform::MacOs, "Terminal.app"), (Platform::Windows, "Windows Terminal")]
    {
        let plan = launch_preferred(platform, tty, 7, Some(own), &run).unwrap();
        assert_eq!(plan.terminal_name, own);
        let plan = launch_preferred(platform, tty, 7, None, &run).unwrap();
        assert_eq!(plan.terminal_name, own);
        let error = launch_preferred(platform, tty, 7, Some("konsole"), &run).unwrap_err();
        assert!(matches!(error, LaunchError::UnknownEmulator));
        assert_eq!(
            error.message(),
            "The requested terminal emulator cannot be launched on this platform."
        );
    }
    let none = launch_preferred(Platform::Other, tty, 7, Some("konsole"), &run).unwrap_err();
    assert!(matches!(none, LaunchError::Unsupported));
}

#[test]
fn launching_can_be_impossible() {
    let none = |_command: &CommandLine| Some(false);
    let error = launch(Platform::Linux, "", 0, &none).unwrap_err();
    assert!(matches!(error, LaunchError::NotFound));
    assert_eq!(
        error.message(),
        "No suitable terminal emulator found. Install gnome-terminal, konsole, or xterm."
    );
    let error = launch(Platform::Other, "", 0, &none).unwrap_err();
    assert!(matches!(error, LaunchError::Unsupported));
    assert_eq!(error.message(), "Terminal forwarding is not supported on this platform.");
}
