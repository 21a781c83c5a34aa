use npcterm::cli::{parse_args, version_line, Invocation, Mode};
use npcterm::terminal::size::{allowed_size, size_from_name};

fn args(list: &[&str]) -> Vec<String> {
    list.iter().map(|s| s.to_string()).collect()
}

fn run(list: &[&str]) -> (bool, usize, usize, Option<String>) {
    match parse_args(&args(list)) {
        Invocation::Run { gui, cols, rows, shell } => (gui, cols, rows, shell),
        Invocation::Version => panic!("version"),
    }
}

#[test]
fn no_arguments_give_the_defaults() {
    assert_eq!(run(&[]), (false, 80, 24, None));
    assert_eq!(run(&["what", "-x", "--help"]), (false, 80, 24, None));
}

#[test]
fn arguments_are_read_in_order() {
    let shell = Some("/bin/zsh".to_string());
    assert_eq!(run(&["--gui", "-s", "160x40", "--shell", "/bin/zsh"]), (true, 160, 40, shell));
    // Later ones win, and an unknown size is the default one.
    assert_eq!(run(&["--size", "200x50", "-s", "120x40"]), (false, 120, 40, None));
    assert_eq!(run(&["--size", "200x50", "-s", "huge"]), (false, 80, 24, None));
    // A value that is missing is not missed.
    assert_eq!(run(&["--size"]), (false, 80, 24, None));
    assert_eq!(run(&["--gui", "--shell"]), (true, 80, 24, None));
    // A value is not looked at as an argument.
    assert_eq!(run(&["--shell", "--gui"]), (false, 80, 24, Some("--gui".to_string())));
    assert_eq!(run(&["--shell", "-v"]).3, Some("-v".to_string()));
}

#[test]
fn version_ends_everything() {
    assert!(matches!(parse_args(&args(&["-v"])), Invocation::Version));
    assert!(matches!(parse_args(&args(&["--gui", "--version", "--shell", "x"])), Invocation::Version));
    assert_eq!(version_line("1.3.3"), "npcterm 1.3.3");
}

#[test]
fn modes_follow_from_arguments() {
    assert!(matches!(parse_args(&args(&["-v"])).mode(true), Mode::PrintVersion));
    assert!(matches!(parse_args(&args(&[])).mode(true), Mode::Serve));
    assert!(matches!(parse_args(&args(&["--gui"])).mode(false), Mode::Serve));
    match parse_args(&args(&["--gui", "-s", "120x40", "--shell", "sh"])).mode(true) {
        Mode::Window { cols, rows, shell } => {
            assert_eq!((cols, rows), (120, 40));
            assert_eq!(shell.as_deref(), Some("sh"));
        }
        other => panic!("{:?}", other),
    }
}

#[test]
fn sizes_that_come_out_are_allowed() {
    for name in ["80x24", "120x40", "160x40", "200x50", "", "1x1", "120x24"] {
        let (cols, rows) = size_from_name(name);
        assert!(allowed_size(cols, rows));
        let settings = run(&["--size", name]);
        assert!(allowed_size(settings.1, settings.2));
    }
    assert_eq!(size_from_name("200x50"), (200, 50));
    assert_eq!(size_from_name("120x24"), (80, 24));
    assert!(!allowed_size(120, 24));
    assert!(!allowed_size(0, 0));
}
