use npcterm::command::Platform;
use npcterm::terminal::emulator::{
    shell_exists, OutputDrain, PtyAction, Received, ShellCommand, StartupAction, StartupError,
    StartupEvent, TerminalEmulator, DEFAULT_MAX_SCROLLBACK,
};

fn no_dirs() -> Vec<String> {
    Vec::new()
}

#[test]
fn shells_are_looked_for() {
    // As a file.
    assert!(shell_exists("/bin/sh", &|s: &str| s == "/bin/sh", &no_dirs, &|_: &str, _: &str| false));
    // A path is not searched for.
    let dirs = || vec!["/usr/bin".to_string(), "/bin".to_string()];
    assert!(!shell_exists("./sh", &|_: &str| false, &dirs, &|_: &str, _: &str| true));
    assert!(!shell_exists("a\\sh", &|_: &str| false, &dirs, &|_: &str, _: &str| true));
    // A name is.
    let there = |d: &str, s: &str| d == "/bin" && s == "sh";
    assert!(shell_exists("sh", &|_: &str| false, &dirs, &there));
    assert!(!shell_exists("zsh", &|_: &str| false, &dirs, &there));
    assert!(!shell_exists("sh", &|_: &str| false, &no_dirs, &there));
}

fn env(command: &ShellCommand) -> Vec<(&str, &str)> {
    command.env.iter().map(|(k, v)| (k.as_str(), v.as_str())).collect()
}

#[test]
fn startup_checks_the_size_first() {
    let act = |cols, rows| {
        TerminalEmulator::startup(Platform::Linux, cols, rows, None, StartupEvent::Requested)
    };
    for (cols, rows) in [(80, 24), (120, 40), (160, 40), (200, 50)] {
        match act(cols, rows) {
            StartupAction::OpenPty { rows: r, cols: c } => {
                assert_eq!((c as usize, r as usize), (cols, rows));
            }
            other => panic!("{:?}", other),
        }
    }
    match act(80, 40) {
        StartupAction::Fail(StartupError::InvalidInput(message)) => assert_eq!(
            message,
            "Invalid terminal size 80x40. Allowed: 80x24, 120x40, 160x40, 200x50"
        ),
        other => panic!("{:?}", other),
    }
}

#[test]
fn startup_takes_the_default_shell() {
    for (platform, program) in [
        (Platform::Linux, None),
        (Platform::MacOs, None),
        (Platform::Other, None),
        (Platform::Windows, Some("cmd.exe")),
    ] {
        match TerminalEmulator::startup(platform, 80, 24, None, StartupEvent::PtyOpened) {
            StartupAction::Spawn(command) => {
                assert_eq!(command.program.as_deref(), program);
                assert_eq!(
                    env(&command),
                    vec![
                        ("TERM", "xterm-256color"),
                        ("COLORTERM", "truecolor"),
                        ("PROMPT_EOL_MARK", ""),
                        ("PROMPT_SP", ""),
                    ]
                );
            }
            other => panic!("{:?}", other),
        }
    }
}

#[test]
fn startup_looks_for_the_shell() {
    let act = |event| TerminalEmulator::startup(Platform::Windows, 80, 24, Some("fish"), event);
    assert!(matches!(act(StartupEvent::PtyOpened), StartupAction::LookUpShell(s) if s == "fish"));
    match act(StartupEvent::ShellLookedUp(true)) {
        StartupAction::Spawn(command) => assert_eq!(command.program.as_deref(), Some("fish")),
        other => panic!("{:?}", other),
    }
    match act(StartupEvent::ShellLookedUp(false)) {
        StartupAction::Fail(StartupError::NotFound(message)) => {
            assert_eq!(message, "Shell 'fish' not found");
        }
        other => panic!("{:?}", other),
    }
}

#[test]
fn output_is_drained_in_order() {
    let mut drain = OutputDrain::new();
    assert!(drain.is_open() && drain.is_running() && !drain.has_output());
    drain.receive(Received::Data(vec![1, 2]));
    drain.receive(Received::Data(vec![3]));
    assert!(drain.is_open());
    drain.receive(Received::Empty);
    assert!(!drain.is_open() && drain.is_running() && drain.has_output());
    assert_eq!(drain.chunks(), &vec![vec![1, 2], vec![3]]);

    let mut ended = OutputDrain::new();
    ended.receive(Received::Data(vec![9]));
    ended.receive(Received::Disconnected);
    assert!(!ended.is_open() && !ended.is_running());
    assert_eq!(ended.chunks(), &vec![vec![9]]);
}

fn drained(end: Received) -> OutputDrain {
    let mut drain = OutputDrain::new();
    drain.receive(end);
    drain
}

#[test]
fn output_tells_whether_the_child_runs() {
    let mut terminal = TerminalEmulator::new(Some("/dev/pts/3".to_string()), Some(12));
    assert!(terminal.process_output(&drained(Received::Empty), None));
    assert_eq!(terminal.exit_code, None);
    // Where the output has ended the exit status is not looked at.
    assert!(!terminal.process_output(&drained(Received::Disconnected), Some(1)));
    assert_eq!(terminal.exit_code, None);
    assert!(!terminal.process_output(&drained(Received::Empty), Some(3)));
    assert_eq!(terminal.exit_code, Some(3));
    assert_eq!(terminal.get_child_pid(), Some(12));
}

#[test]
fn an_exit_is_final() {
    let mut terminal = TerminalEmulator::new(None, None);
    assert!(terminal.must_poll());
    assert!(terminal.is_alive(None));
    assert!(!terminal.is_alive(Some(u32::MAX)));
    assert_eq!(terminal.exit_code, Some(-1));
    assert!(!terminal.must_poll());
    assert!(!terminal.is_alive(Some(5)));
    assert!(!terminal.is_alive(None));
    assert_eq!(terminal.exit_code, Some(-1));
}

#[test]
fn exit_codes_keep_their_bits() {
    for status in [0, 1, 0x7fff_ffff, 0x8000_0000, 0xc000_0005, u32::MAX] {
        let mut terminal = TerminalEmulator::new(None, None);
        terminal.is_alive(Some(status));
        assert_eq!(terminal.exit_code, Some(status as i32));
    }
}

#[test]
fn windows_has_no_terminal_device() {
    let terminal = TerminalEmulator::new(Some("/dev/pts/3".to_string()), None);
    assert_eq!(terminal.get_slave_name(Platform::Linux).map(String::as_str), Some("/dev/pts/3"));
    assert_eq!(terminal.get_slave_name(Platform::Windows), None);
    assert_eq!(TerminalEmulator::new(None, None).get_slave_name(Platform::Linux), None);
}

fn steps(actions: Vec<PtyAction>) -> Vec<Option<Vec<u8>>> {
    actions
        .into_iter()
        .map(|action| match action {
            PtyAction::Write(data) => Some(data),
            PtyAction::Flush => None,
        })
        .collect()
}

#[test]
fn input_is_written() {
    assert_eq!(
        steps(TerminalEmulator::write_input(Platform::Linux, b"ls\r")),
        vec![Some(b"ls\r".to_vec())]
    );
    assert_eq!(
        steps(TerminalEmulator::write_input(Platform::Windows, b"ls\r")),
        vec![Some(b"ls\r".to_vec()), None]
    );
}

#[test]
fn pasted_text_is_marked() {
    assert_eq!(
        steps(TerminalEmulator::send_paste(Platform::Linux, false, "h\u{e9}")),
        vec![Some(b"h\xc3\xa9".to_vec()), None]
    );
    assert_eq!(
        steps(TerminalEmulator::send_paste(Platform::MacOs, true, "x")),
        vec![Some(b"\x1b[200~".to_vec()), Some(b"x".to_vec()), Some(b"\x1b[201~".to_vec()), None]
    );
    let windows = steps(TerminalEmulator::send_paste(Platform::Windows, true, "x"));
    assert_eq!(windows.iter().filter(|step| step.is_none()).count(), 4);
    let bytes: Vec<u8> = windows.into_iter().flatten().flatten().collect();
    assert_eq!(bytes, b"\x1b[200~x\x1b[201~".to_vec());
}

#[test]
fn scrollback_is_bounded() {
    assert_eq!(DEFAULT_MAX_SCROLLBACK, 10000);
}
