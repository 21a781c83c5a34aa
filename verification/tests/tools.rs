use npcterm::command::Platform;
use npcterm::input::keys::{BaseKey, Key};
use npcterm::json::JsonObject;
use npcterm::mcp::keys::{plan_batch, BatchRun, InputAction, KeyInput};
use npcterm::mcp::outcome::Outcome;
use npcterm::mcp::tools::{
    registry_poisoned, terminal_create, terminal_create_size, terminal_destroy, terminal_forward,
    terminal_launch_gui, terminal_list, terminal_mouse, terminal_mouse_request, terminal_not_found,
    terminal_poll_events, terminal_read_region, terminal_read_rows, terminal_read_screen,
    terminal_read_screen_request, terminal_scroll, terminal_scroll_request, terminal_select,
    terminal_send_key, terminal_send_key_request, terminal_show_screen, terminal_status,
    terminal_status_request, MouseAction, ScreenPart, ScrollAction,
};
use npcterm::terminal::emulator::{StartupAction, StartupEvent, TerminalEmulator};
use serde_json::Value;

/// The reply, whether it changes the list, and the record: tool, terminal, JSON of
/// the parameters, success and summary.
fn parts(
    outcome: Outcome,
) -> (Result<String, String>, bool, Option<(String, Option<String>, String, bool, Option<String>)>) {
    let record = outcome.interaction.map(|i| {
        (i.tool, i.terminal_id, i.params.to_json(), i.success, i.summary)
    });
    (outcome.reply, outcome.list_changed, record)
}

fn expect_done(outcome: Outcome, reply: &str, tool: &str, id: &str, params: &str, summary: &str) {
    assert_eq!(
        parts(outcome),
        (
            Ok(reply.to_string()),
            false,
            Some((
                tool.to_string(),
                Some(id.to_string()),
                params.to_string(),
                true,
                Some(summary.to_string())
            ))
        )
    );
}

fn expect_failed(outcome: Outcome, message: &str) {
    assert_eq!(parts(outcome), (Err(message.to_string()), false, None));
}

#[test]
fn terminals_can_be_out_of_reach() {
    expect_failed(terminal_not_found("t9"), "Terminal 't9' not found");
    expect_failed(registry_poisoned(), "Registry lock poisoned");
}

#[test]
fn create_gives_the_id_and_the_size() {
    assert_eq!(terminal_create_size(None), (80, 24));
    assert_eq!(terminal_create_size(Some("160x40")), (160, 40));
    assert_eq!(terminal_create_size(Some("odd")), (80, 24));
    assert_eq!(
        parts(terminal_create(120, 40, Ok("a1".to_string()))),
        (
            Ok("{\"id\":\"a1\",\"cols\":120,\"rows\":40}".to_string()),
            true,
            Some((
                "terminal_create".to_string(),
                Some("a1".to_string()),
                "{\"size\":\"120x40\"}".to_string(),
                true,
                Some("created 120x40".to_string())
            ))
        )
    );
    assert_eq!(
        parts(terminal_create(80, 24, Err("no".to_string()))),
        (Err("no".to_string()), true, None)
    );
}

#[test]
fn created_sizes_start() {
    for size in [None, Some("80x24"), Some("120x40"), Some("160x40"), Some("200x50"), Some("9x9")] {
        let (cols, rows) = terminal_create_size(size);
        let action =
            TerminalEmulator::startup(Platform::Linux, cols, rows, None, StartupEvent::Requested);
        assert!(matches!(action, StartupAction::OpenPty { .. }));
    }
}

#[test]
fn destroy_tells_whether_it_was_there() {
    for (success, reply, summary) in
        [(true, "{\"success\":true}", "destroyed"), (false, "{\"success\":false}", "not found")]
    {
        assert_eq!(
            parts(terminal_destroy("a1", success)),
            (
                Ok(reply.to_string()),
                true,
                Some((
                    "terminal_destroy".to_string(),
                    Some("a1".to_string()),
                    "{}".to_string(),
                    success,
                    Some(summary.to_string())
                ))
            )
        );
    }
}

#[test]
fn lists_are_counted() {
    assert_eq!(
        parts(terminal_list(vec![
            Value::Object(JsonObject::new().text("id", "a").into_map()),
            Value::from("b"),
            Value::Null,
        ])),
        (
            Ok("{\"terminals\":[{\"id\":\"a\"},\"b\",null]}".to_string()),
            false,
            Some((
                "terminal_list".to_string(),
                None,
                "{}".to_string(),
                true,
                Some("3 terminals".to_string())
            ))
        )
    );
    expect_done(
        terminal_poll_events("a", Vec::new()),
        "{\"events\":[]}",
        "terminal_poll_events",
        "a",
        "{}",
        "0 events",
    );
    expect_done(
        terminal_poll_events("a", vec![Value::from(-1)]),
        "{\"events\":[-1]}",
        "terminal_poll_events",
        "a",
        "{}",
        "1 events",
    );
}

#[test]
fn forwarding_names_the_terminal() {
    expect_done(
        terminal_forward("a", Ok("xterm".to_string())),
        "{\"success\":true,\"terminal\":\"xterm\"}",
        "terminal_forward",
        "a",
        "{}",
        "launched xterm",
    );
    let message = "Failed to launch terminal: gone".to_string();
    assert_eq!(
        parts(terminal_forward("a", Err("gone".to_string()))),
        (
            Err(message.clone()),
            false,
            Some((
                "terminal_forward".to_string(),
                Some("a".to_string()),
                "{}".to_string(),
                false,
                Some(message)
            ))
        )
    );
}

#[test]
fn windows_can_be_opened() {
    expect_done(
        terminal_launch_gui("a", Ok(())),
        "{\"success\":true,\"terminal_id\":\"a\",\"message\":\"GUI window launched\"}",
        "terminal_launch_gui",
        "a",
        "{}",
        "GUI launched",
    );
    expect_failed(
        terminal_launch_gui("a", Err("x".to_string())),
        "Failed to create emulator for GUI: x",
    );
}

#[test]
fn one_key_is_sent() {
    assert_eq!(
        terminal_send_key_request("Ctrl+c").unwrap(),
        Key::ctrl(BaseKey::Char('c'))
    );
    expect_failed(terminal_send_key_request("Nope").unwrap_err(), "Unknown key: Nope");
    expect_done(
        terminal_send_key("a", "Ctrl+c", Ok(())),
        "{\"success\":true}",
        "terminal_send_key",
        "a",
        "{\"key\":\"Ctrl+c\"}",
        "sent Ctrl+c",
    );
    expect_failed(terminal_send_key("a", "x", Err("eof".to_string())), "Failed to send key: eof");
}

fn text(s: &str) -> KeyInput {
    KeyInput { text: Some(s.to_string()), key: None }
}

fn key(s: &str) -> KeyInput {
    KeyInput { text: None, key: Some(s.to_string()) }
}

#[test]
fn a_batch_is_done_in_order() {
    let input = vec![text("echo h\u{e9}"), key("Enter")];
    let plan = plan_batch(&input);
    assert_eq!(plan.actions.len(), 2);
    assert!(matches!(&plan.actions[0], InputAction::Text(b) if *b == b"echo h\xc3\xa9".to_vec()));
    assert!(matches!(&plan.actions[1], InputAction::Press(k) if *k == Key::from_base(BaseKey::Enter)));
    let mut run = BatchRun::new(plan);
    assert!(!run.must_flush());
    assert!(matches!(run.next(), Some(InputAction::Text(_))));
    run.report(Ok(()));
    assert!(matches!(run.next(), Some(InputAction::Press(_))));
    run.report(Ok(()));
    assert!(run.next().is_none());
    assert!(run.must_flush());
    expect_done(
        run.outcome("a"),
        "{\"success\":true}",
        "terminal_send_keys",
        "a",
        "{\"count\":2}",
        "sent 'echo h\u{e9}' + Enter",
    );
    expect_done(
        BatchRun::new(plan_batch(&Vec::new())).outcome("a"),
        "{\"success\":true}",
        "terminal_send_keys",
        "a",
        "{\"count\":0}",
        "sent ",
    );
}

#[test]
fn text_goes_before_a_key() {
    let both = KeyInput { text: Some("x".to_string()), key: Some("Nope".to_string()) };
    let plan = plan_batch(&vec![both]);
    assert!(plan.error.is_none());
    assert_eq!(plan.summary, "'x'");
}

#[test]
fn long_text_is_cut_in_the_summary() {
    let exactly = "123456789012345678901234567890";
    assert_eq!(plan_batch(&vec![text(exactly)]).summary, format!("'{}'", exactly));
    let longer = format!("{}x", exactly);
    assert_eq!(plan_batch(&vec![text(&longer)]).summary, "'123456789012345678901234567...'");
    // Length goes by bytes, the cut by characters.
    let wide = "\u{20ac}".repeat(11);
    assert_eq!(plan_batch(&vec![text(&wide)]).summary, format!("'{}...'", wide));
    assert!(plan_batch(&vec![text(&"y".repeat(1000))]).summary.chars().count() <= 32);
}

#[test]
fn a_batch_stops_at_the_first_error() {
    let empty = KeyInput { text: None, key: None };
    let plan = plan_batch(&vec![text("a"), empty, key("Nope"), text("b")]);
    assert_eq!(plan.actions.len(), 1);
    assert_eq!(plan.summary, "'a' + ? + Nope + 'b'");
    let mut run = BatchRun::new(plan);
    run.report(Ok(()));
    assert!(run.next().is_none());
    assert!(!run.must_flush());
    expect_failed(run.outcome("t"), "Each input element must have 'text' or 'key'");
    let run = BatchRun::new(plan_batch(&vec![key("Nope")]));
    assert!(run.next().is_none());
    expect_failed(run.outcome("t"), "Unknown key: Nope");
}

#[test]
fn a_batch_can_fail_while_it_is_done() {
    let input = vec![text("a"), key("Tab"), key("Nope")];
    let mut run = BatchRun::new(plan_batch(&input));
    run.report(Err("full".to_string()));
    assert!(run.next().is_none());
    // Nothing that is heard later changes it.
    run.report(Ok(()));
    assert!(!run.must_flush());
    expect_failed(run.outcome("t"), "Failed to send text: full");
    let mut run = BatchRun::new(plan_batch(&input));
    run.report(Ok(()));
    run.report(Err("full".to_string()));
    assert!(run.next().is_none());
    expect_failed(run.outcome("t"), "Failed to send key: full");
}

#[test]
fn mouse_actions_have_names() {
    let (col, row) = (3u16, 4u16);
    let actions = [
        ("left_click", MouseAction::LeftClick { col, row }),
        ("right_click", MouseAction::RightClick { col, row }),
        ("double_click", MouseAction::DoubleClick { col, row }),
        ("move", MouseAction::MoveTo { col, row }),
        ("get_position", MouseAction::GetPosition),
        ("set_position", MouseAction::SetPosition { col, row }),
    ];
    for (name, action) in actions {
        assert_eq!(terminal_mouse_request(name, Some(3), Some(4)).unwrap(), action);
    }
    assert_eq!(
        terminal_mouse_request("move", Some(0), Some(0x1_0002)).unwrap(),
        MouseAction::MoveTo { col: 0, row: 2 }
    );
    assert_eq!(
        terminal_mouse_request("get_position", None, None).unwrap(),
        MouseAction::GetPosition
    );
    expect_failed(
        terminal_mouse_request("drag", None, None).unwrap_err(),
        "Unknown action: drag",
    );
}

#[test]
fn mouse_actions_have_to_say_where() {
    for name in ["left_click", "right_click", "double_click", "move", "set_position"] {
        for (col, row) in [(None, None), (None, Some(2)), (Some(1), None)] {
            let message = format!("Missing 'col' or 'row' for {}", name);
            expect_failed(terminal_mouse_request(name, col, row).unwrap_err(), &message);
            expect_failed(
                terminal_mouse("a", name, col, row, Ok("{}".to_string())),
                &message,
            );
        }
    }
    expect_failed(
        terminal_mouse("a", "drag", None, None, Ok("{}".to_string())),
        "Unknown action: drag",
    );
}

#[test]
fn mouse_actions_are_recorded() {
    expect_done(
        terminal_mouse("a", "get_position", None, None, Ok("{}".to_string())),
        "{}",
        "terminal_mouse",
        "a",
        "{\"action\":\"get_position\",\"col\":0,\"row\":0}",
        "get_position at (0, 0)",
    );
    expect_done(
        terminal_mouse("a", "move", Some(65537), Some(0), Ok("{}".to_string())),
        "{}",
        "terminal_mouse",
        "a",
        "{\"action\":\"move\",\"col\":1,\"row\":0}",
        "move at (1, 0)",
    );
    let failed = terminal_mouse("a", "move", Some(1), Some(2), Err("bad".to_string()));
    assert!(failed.interaction.is_some());
    assert_eq!(failed.reply, Err("Serialization failed: bad".to_string()));
}

#[test]
fn screens_are_read_in_two_modes() {
    assert_eq!(terminal_read_screen_request(None, None), ScreenPart::Full);
    assert_eq!(terminal_read_screen_request(Some("full"), Some(7)), ScreenPart::Full);
    assert_eq!(terminal_read_screen_request(Some("odd"), None), ScreenPart::Full);
    for (asked, lines) in
        [(None, 50), (Some(0), 1), (Some(1), 1), (Some(120), 120), (Some(200), 200), (Some(9999), 200)]
    {
        assert_eq!(
            terminal_read_screen_request(Some("changes"), asked),
            ScreenPart::Changes(lines)
        );
    }
    expect_done(
        terminal_read_screen("a", None, "text".to_string()),
        "text",
        "terminal_read_screen",
        "a",
        "{\"mode\":\"full\"}",
        "read screen (full)",
    );
    expect_done(
        terminal_read_screen("a", Some("odd"), "text".to_string()),
        "text",
        "terminal_read_screen",
        "a",
        "{\"mode\":\"odd\"}",
        "read screen (odd)",
    );
    expect_done(
        terminal_show_screen("a", "text".to_string()),
        "text",
        "terminal_show_screen",
        "a",
        "{}",
        "show screen",
    );
}

#[test]
fn parts_of_screens_are_read() {
    expect_done(
        terminal_read_rows("a", 1, 20, "rows".to_string()),
        "rows",
        "terminal_read_rows",
        "a",
        "{\"start\":1,\"end\":20}",
        "rows 1-20",
    );
    expect_done(
        terminal_read_region("a", 1, 2, 3, 4, "region".to_string()),
        "region",
        "terminal_read_region",
        "a",
        "{\"col1\":1,\"row1\":2,\"col2\":3,\"row2\":4}",
        "region (1,2) to (3,4)",
    );
    expect_done(
        terminal_select("a", 1, 2, 3, 4, "h\u{e9}\n"),
        "{\"selected_text\":\"h\u{e9}\\n\"}",
        "terminal_select",
        "a",
        "{\"start_col\":1,\"start_row\":2,\"end_col\":3,\"end_row\":4}",
        "selected 4 chars",
    );
}

#[test]
fn a_status_is_recorded() {
    assert_eq!(terminal_status_request(None), 5);
    assert_eq!(terminal_status_request(Some(12)), 12);
    expect_done(
        terminal_status("a", None, "Running", Ok("{}".to_string())),
        "{}",
        "terminal_status",
        "a",
        "{\"last_n\":5}",
        "status [Running]",
    );
    let failed = terminal_status("a", Some(0), "Idle", Err("bad".to_string()));
    assert_eq!(failed.reply, Err("Serialization failed: bad".to_string()));
    assert_eq!(failed.interaction.unwrap().summary.unwrap(), "status [Idle]");
}

#[test]
fn scrolling_goes_by_its_name() {
    assert!(matches!(terminal_scroll_request("page_up", None), Ok(ScrollAction::PageUp)));
    assert!(matches!(terminal_scroll_request("page_down", Some("x")), Ok(ScrollAction::PageDown)));
    match terminal_scroll_request("search", Some("needle")) {
        Ok(ScrollAction::Search(text)) => assert_eq!(text, "needle"),
        other => panic!("{:?}", other),
    }
    for missing in [None, Some("")] {
        expect_failed(
            terminal_scroll_request("search", missing).unwrap_err(),
            "Missing 'text' for search",
        );
    }
    expect_failed(
        terminal_scroll_request("jump", None).unwrap_err(),
        "Unknown scroll action: jump",
    );
}

#[test]
fn scrolling_tells_where_it_came_to() {
    expect_done(
        terminal_scroll("a", "page_up", 24, None),
        "{\"scroll_offset\":24}",
        "terminal_scroll",
        "a",
        "{\"action\":\"page_up\"}",
        "scroll page_up",
    );
    expect_done(
        terminal_scroll("a", "search", 0, Some(false)),
        "{\"scroll_offset\":0,\"found\":false}",
        "terminal_scroll",
        "a",
        "{\"action\":\"search\"}",
        "scroll search",
    );
}
