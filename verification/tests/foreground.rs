use npcterm::command::{CommandLine, Platform};
use npcterm::terminal::emulator::TerminalEmulator;
use npcterm::terminal::foreground::{
    foreground_group_of, linux_foreground_name, macos_foreground_name, name_from_ps,
    name_from_wmic, windows_foreground_name,
};

const STAT: &str = "42 (my (odd) shell) S 1 42 42 34816 77 4194304 100";

#[test]
fn the_group_is_the_sixth_word() {
    assert_eq!(foreground_group_of(STAT).unwrap(), Some(77));
    assert_eq!(foreground_group_of("42 (sh) S 1 42 42 34816").unwrap(), None);
    assert_eq!(foreground_group_of("42 (sh) S 1 42 42 34816 -1 0").unwrap(), None);
    assert_eq!(foreground_group_of("no brackets at all 1 2 3 4").unwrap(), None);
    // What stands right behind the bracket is skipped, whatever it is.
    assert_eq!(foreground_group_of("1 (x)X 1 2 3 4 5 6").unwrap(), Some(6));
}

#[test]
fn a_status_can_be_cut_short() {
    assert!(foreground_group_of("42 (sh)").is_err());
    assert!(foreground_group_of("42 (sh)\u{e9} 1 2 3 4 5 6").is_err());
    assert!(foreground_group_of("42 (sh) ").is_ok());
}

#[test]
fn linux_reads_the_name_of_the_group() {
    let read = |path: &str| match path {
        "/proc/42/stat" => Some(STAT.to_string()),
        "/proc/77/comm" => Some(" vim\n".to_string()),
        "/proc/42/comm" => Some("bash\n".to_string()),
        _ => None,
    };
    assert_eq!(linux_foreground_name(42, &read).unwrap().as_deref(), Some("vim"));
    assert_eq!(linux_foreground_name(43, &read).unwrap(), None);
}

#[test]
fn linux_falls_back_on_the_child() {
    let read = |path: &str| match path {
        "/proc/42/stat" => Some(STAT.to_string()),
        "/proc/42/comm" => Some("bash\n".to_string()),
        _ => None,
    };
    assert_eq!(linux_foreground_name(42, &read).unwrap().as_deref(), Some("bash"));
    let nothing = |path: &str| match path {
        "/proc/42/stat" => Some(STAT.to_string()),
        _ => None,
    };
    assert_eq!(linux_foreground_name(42, &nothing).unwrap(), None);
    // An empty name is none, and the child is not asked then.
    let blank = |path: &str| match path {
        "/proc/42/stat" => Some(STAT.to_string()),
        "/proc/77/comm" => Some(" \n".to_string()),
        "/proc/42/comm" => Some("bash\n".to_string()),
        _ => None,
    };
    assert_eq!(linux_foreground_name(42, &blank).unwrap(), None);
    let short = |_path: &str| Some("42 (sh)".to_string());
    assert!(linux_foreground_name(42, &short).is_err());
}

#[test]
fn ps_names_lose_their_path() {
    assert_eq!(name_from_ps(b"/bin/zsh\n").as_deref(), Some("zsh"));
    assert_eq!(name_from_ps(b" -zsh \n").as_deref(), Some("-zsh"));
    assert_eq!(name_from_ps(b"dir/\n").as_deref(), Some(""));
    assert_eq!(name_from_ps(b" \n"), None);
    // Bytes that are not text are replaced.
    assert_eq!(name_from_ps(b"/bin/b\xffsh\n").as_deref(), Some("b\u{fffd}sh"));
}

fn words(command: &CommandLine) -> String {
    format!("{} {}", command.program, command.args.join(" "))
}

#[test]
fn macos_asks_ps() {
    let run = |command: &CommandLine| match words(command).as_str() {
        "ps -o tpgid= -p 42" => Some(b" 77\n".to_vec()),
        "ps -o comm= -p 77" => Some(b"/usr/bin/vim\n".to_vec()),
        _ => None,
    };
    assert_eq!(macos_foreground_name(42, &run).as_deref(), Some("vim"));
    assert_eq!(macos_foreground_name(43, &run), None);
    let blank = |command: &CommandLine| match words(command).as_str() {
        "ps -o tpgid= -p 42" => Some(b"77".to_vec()),
        "ps -o comm= -p 77" => Some(b"\n".to_vec()),
        "ps -o comm= -p 42" => Some(b"/bin/bash\n".to_vec()),
        _ => None,
    };
    assert_eq!(macos_foreground_name(42, &blank).as_deref(), Some("bash"));
    let unknown = |_command: &CommandLine| Some(b"?".to_vec());
    assert_eq!(macos_foreground_name(42, &unknown), None);
    // A group that cannot be asked about gives no name, whatever the child has.
    let gone = |command: &CommandLine| match words(command).as_str() {
        "ps -o tpgid= -p 42" => Some(b"77".to_vec()),
        "ps -o comm= -p 42" => Some(b"/bin/bash\n".to_vec()),
        _ => None,
    };
    assert_eq!(macos_foreground_name(42, &gone), None);
}

#[test]
fn wmic_names_lose_their_suffix() {
    assert_eq!(name_from_wmic(b"\r\r\n\r\r\nName=cmd.exe\r\r\n\r\r\n").as_deref(), Some("cmd"));
    assert_eq!(name_from_wmic(b"Name=System\n").as_deref(), Some("System"));
    assert_eq!(name_from_wmic(b"Name= \nName=a.exe.exe").as_deref(), Some("a.exe"));
    assert_eq!(name_from_wmic(b" Name=x\n"), None);
    assert_eq!(name_from_wmic(b""), None);
    assert_eq!(name_from_wmic(b"Name=.exe").as_deref(), Some(""));
}

#[test]
fn windows_asks_wmic() {
    let run = |command: &CommandLine| {
        assert_eq!(words(command), "wmic process where ProcessId=7 get Name /value");
        assert_eq!(command.args[2], "ProcessId=7");
        Some(b"Name=pwsh.exe\r\n".to_vec())
    };
    assert_eq!(windows_foreground_name(7, &run).as_deref(), Some("pwsh"));
    assert_eq!(windows_foreground_name(7, &|_command: &CommandLine| None), None);
}

#[test]
fn the_platform_decides_whom_to_ask() {
    let read = |path: &str| match path {
        "/proc/42/stat" => Some(STAT.to_string()),
        "/proc/77/comm" => Some("linux\n".to_string()),
        _ => None,
    };
    let run = |command: &CommandLine| match command.program.as_str() {
        "ps" if command.args[1] == "tpgid=" => Some(b"77".to_vec()),
        "ps" => Some(b"mac".to_vec()),
        _ => Some(b"Name=win.exe".to_vec()),
    };
    for (platform, name) in
        [(Platform::Linux, "linux"), (Platform::MacOs, "mac"), (Platform::Windows, "win")]
    {
        let found = TerminalEmulator::get_foreground_process_name(platform, Some(42), &read, &run);
        assert_eq!(found.unwrap().as_deref(), Some(name));
        let none = TerminalEmulator::get_foreground_process_name(platform, None, &read, &run);
        assert_eq!(none.unwrap(), None);
    }
}
