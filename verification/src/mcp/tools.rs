//! The tools that work on terminals.
use vstd::prelude::*;
use vstd::string::*;
use vstd::utf8::*;

use crate::command::{CommandLine, Platform};
use crate::input::keys::{parse_key, Key, KeyView};
use crate::json::{list_text, object_text, JsonObject, JsonView};
use crate::mcp::keys::success_reply;
use crate::mcp::outcome::{
    done, failed, joined, make_done, make_failed, make_record, record, result_view, unit_view,
    Interaction, InteractionView, Outcome, OutcomeView,
};
use crate::terminal::emulator::{startup_step, StartupActionView, StartupEvent};
use crate::terminal::forwarder::{
    linux_launch, may_plan_preferred, LaunchError, LaunchPlanView,
};
use crate::terminal::size::{is_allowed_size, size_from_name, size_named};
use crate::text::{decimal, push_decimal, str_eq, str_option_view};

verus! {

// ---------------------------------------------------------------------------
// What any tool can fail with
// ---------------------------------------------------------------------------

/// What is said of a terminal that is not there.
pub open spec fn not_found_text(id: Seq<char>) -> Seq<char> {
    "Terminal '"@ + id + "' not found"@
}

/// The answer where the terminal `id` is not there.
pub fn terminal_not_found(id: &str) -> (res: Outcome)
    ensures
        res@ == failed(not_found_text(id@)),
{
    let mut message = "Terminal '".to_string();
    message.append(id);
    message.append("' not found");
    make_failed(message)
}

/// The answer where the terminals cannot be got at.
pub fn registry_poisoned() -> (res: Outcome)
    ensures
        res@ == failed("Registry lock poisoned"@),
{
    make_failed("Registry lock poisoned".to_string())
}

// ---------------------------------------------------------------------------
// terminal_create, terminal_destroy, terminal_list
// ---------------------------------------------------------------------------

/// The size of a new terminal: the one with the name `size`, or the default one.
pub open spec fn created_size(size: Option<Seq<char>>) -> (usize, usize) {
    match size {
        Some(name) => size_named(name),
        None => size_named("80x24"@),
    }
}

/// Whatever size is asked for, starting the terminal that is created does not
/// fail on its size.
pub proof fn law_created_sizes_start(
    size: Option<Seq<char>>,
    platform: Platform,
    shell: Option<Seq<char>>,
)
    ensures
        ({
            let (cols, rows) = created_size(size);
            startup_step(platform, cols, rows, shell, StartupEvent::Requested)
                == (StartupActionView::OpenPty { rows: rows as u16, cols: cols as u16 })
        }),
{
}

/// A size as it is written.
pub open spec fn size_text(cols: usize, rows: usize) -> Seq<char> {
    decimal(cols as nat) + "x"@ + decimal(rows as nat)
}

/// What `terminal_create` answers, where creating a terminal of this size gave its
/// id or an error.
pub open spec fn create_outcome(
    cols: usize,
    rows: usize,
    created: Result<Seq<char>, Seq<char>>,
) -> OutcomeView {
    match created {
        Ok(id) => OutcomeView {
            list_changed: true,
            ..done(
                object_text(
                    seq![
                        ("id"@, JsonView::Text(id)),
                        ("cols"@, JsonView::Count(cols as nat)),
                        ("rows"@, JsonView::Count(rows as nat)),
                    ],
                ),
                "terminal_create"@,
                id,
                seq![("size"@, JsonView::Text(size_text(cols, rows)))],
                "created "@ + size_text(cols, rows),
            )
        },
        Err(e) => OutcomeView { list_changed: true, ..failed(e) },
    }
}

/// The size of a new terminal, in columns and rows.
pub fn terminal_create_size(size: Option<&str>) -> (res: (usize, usize))
    ensures
        res == created_size(str_option_view(size)),
        is_allowed_size(res.0, res.1),
{
    match size {
        Some(name) => size_from_name(name),
        None => size_from_name("80x24"),
    }
}

/// A size as it is written.
fn write_size(cols: usize, rows: usize) -> (res: String)
    ensures
        res@ == size_text(cols, rows),
{
    let mut res = String::new();
    push_decimal(&mut res, cols as u64);
    res.append("x");
    push_decimal(&mut res, rows as u64);
    assert(res@ =~= size_text(cols, rows));
    res
}

/// What `terminal_create` answers, where creating a terminal of this size gave its
/// id or an error.
pub fn terminal_create(cols: usize, rows: usize, created: Result<String, String>) -> (res: Outcome)
    ensures
        res@ == create_outcome(cols, rows, result_view(created)),
{
    match created {
        Ok(id) => {
            proof {
                reveal_strlit("id");
                reveal_strlit("cols");
                reveal_strlit("rows");
                assert("cols"@[0] != "rows"@[0]);
            }
            let size = write_size(cols, rows);
            let reply = JsonObject::new().text("id", id.as_str()).count("cols", cols as u64).count(
                "rows",
                rows as u64,
            );
            assert(reply@ =~= seq![
                ("id"@, JsonView::Text(id@)),
                ("cols"@, JsonView::Count(cols as nat)),
                ("rows"@, JsonView::Count(rows as nat)),
            ]);
            let params = JsonObject::new().text("size", size.as_str());
            assert(params@ =~= seq![("size"@, JsonView::Text(size@))]);
            let outcome = make_done(
                reply.to_json(),
                "terminal_create",
                id.as_str(),
                params,
                joined("created ", size.as_str()),
            );
            Outcome { list_changed: true, ..outcome }
        },
        Err(e) => {
            let outcome = make_failed(e);
            Outcome { list_changed: true, ..outcome }
        },
    }
}

/// What `terminal_destroy` answers, where the terminal `id` was there or not.
pub open spec fn destroy_outcome(id: Seq<char>, success: bool) -> OutcomeView {
    OutcomeView {
        reply: Ok(object_text(seq![("success"@, JsonView::Flag(success))])),
        interaction: Some(
            InteractionView {
                success,
                ..record(
                    "terminal_destroy"@,
                    id,
                    Seq::empty(),
                    if success {
                        "destroyed"@
                    } else {
                        "not found"@
                    },
                )
            },
        ),
        list_changed: true,
    }
}

/// What `terminal_destroy` answers, where the terminal `id` was there or not.
pub fn terminal_destroy(id: &str, success: bool) -> (res: Outcome)
    ensures
        res@ == destroy_outcome(id@, success),
{
    let reply = JsonObject::new().flag("success", success);
    assert(reply@ =~= seq![("success"@, JsonView::Flag(success))]);
    let summary = if success {
        "destroyed".to_string()
    } else {
        "not found".to_string()
    };
    let interaction = make_record("terminal_destroy", id, JsonObject::new(), summary);
    Outcome {
        reply: Ok(reply.to_json()),
        interaction: Some(Interaction { success, ..interaction }),
        list_changed: true,
    }
}

/// `n` and `rest`, one behind the other.
fn count_text(n: u64, rest: &str) -> (res: String)
    ensures
        res@ == decimal(n as nat) + rest@,
{
    let mut res = String::new();
    push_decimal(&mut res, n);
    res.append(rest);
    assert(res@ =~= decimal(n as nat) + rest@);
    res
}

/// A list under the name `key`, as JSON.
pub open spec fn list_reply(key: Seq<char>, values: Seq<serde_json::Value>) -> Seq<char> {
    object_text(seq![(key, JsonView::Other(list_text(values)))])
}

/// A list under the name `key`, as JSON.
fn write_list(key: &str, values: Vec<serde_json::Value>) -> (res: String)
    ensures
        res@ == list_reply(key@, values@),
{
    let ghost text = list_text(values@);
    let object = JsonObject::new().list(key, values);
    assert(object@ =~= seq![(key@, JsonView::Other(text))]);
    object.to_json()
}

/// What `terminal_list` answers with the list of all terminals.
pub open spec fn list_outcome(terminals: Seq<serde_json::Value>) -> OutcomeView {
    OutcomeView {
        reply: Ok(list_reply("terminals"@, terminals)),
        interaction: Some(
            InteractionView {
                tool: "terminal_list"@,
                terminal_id: None,
                params: Seq::empty(),
                success: true,
                summary: Some(decimal(terminals.len()) + " terminals"@),
            },
        ),
        list_changed: false,
    }
}

/// What `terminal_list` answers with the list of all terminals.
pub fn terminal_list(terminals: Vec<serde_json::Value>) -> (res: Outcome)
    ensures
        res@ == list_outcome(terminals@),
        res@ == (OutcomeView {
            reply: Ok(list_reply("terminals"@, terminals@)),
            interaction: Some(
                InteractionView {
                    tool: "terminal_list"@,
                    terminal_id: None,
                    params: Seq::empty(),
                    success: true,
                    summary: Some(decimal(terminals@.len()) + " terminals"@),
                },
            ),
            list_changed: false,
        }),
{
    let count: usize = terminals.len();
    Outcome {
        reply: Ok(write_list("terminals", terminals)),
        interaction: Some(
            Interaction {
                tool: "terminal_list".to_string(),
                terminal_id: None,
                params: JsonObject::new(),
                success: true,
                summary: Some(count_text(count as u64, " terminals")),
            },
        ),
        list_changed: false,
    }
}

// ---------------------------------------------------------------------------
// terminal_forward, terminal_launch_gui
// ---------------------------------------------------------------------------

/// What `terminal_forward` answers, where launching a terminal emulator gave its
/// name or an error.
pub open spec fn forward_outcome(id: Seq<char>, launched: Result<Seq<char>, Seq<char>>) -> OutcomeView {
    match launched {
        Ok(name) => done(
            object_text(
                seq![("success"@, JsonView::Flag(true)), ("terminal"@, JsonView::Text(name))],
            ),
            "terminal_forward"@,
            id,
            Seq::empty(),
            "launched "@ + name,
        ),
        Err(e) => OutcomeView {
            reply: Err("Failed to launch terminal: "@ + e),
            interaction: Some(
                InteractionView {
                    success: false,
                    ..record(
                        "terminal_forward"@,
                        id,
                        Seq::empty(),
                        "Failed to launch terminal: "@ + e,
                    )
                },
            ),
            list_changed: false,
        },
    }
}

/// A terminal emulator that is asked for is the one that is launched and named in the
/// answer, or none is; on Linux it always is.
pub proof fn law_forward_uses_the_emulator<F: Fn(&CommandLine) -> Option<bool>>(
    id: Seq<char>,
    platform: Platform,
    slave: Seq<char>,
    pid: u32,
    emulator: Seq<char>,
    run: F,
    res: Result<LaunchPlanView, LaunchError>,
)
    requires
        may_plan_preferred(platform, slave, pid, Some(emulator), run, res),
    ensures
        res matches Ok(plan) ==> forward_outcome(id, Ok(plan.terminal_name)).reply == Ok::<
            Seq<char>,
            Seq<char>,
        >(
            object_text(
                seq![("success"@, JsonView::Flag(true)), ("terminal"@, JsonView::Text(emulator))],
            ),
        ),
        platform is Linux ==> (res matches Ok(plan) && plan.attempts == seq![
            linux_launch(slave, emulator),
        ]),
{
}

/// What `terminal_forward` answers, where launching a terminal emulator gave its
/// name or an error.
pub fn terminal_forward(id: &str, launched: Result<String, String>) -> (res: Outcome)
    ensures
        res@ == forward_outcome(id@, result_view(launched)),
{
    match launched {
        Ok(name) => {
            proof {
                reveal_strlit("success");
                reveal_strlit("terminal");
            }
            let reply = JsonObject::new().flag("success", true).text("terminal", name.as_str());
            assert(reply@ =~= seq![
                ("success"@, JsonView::Flag(true)),
                ("terminal"@, JsonView::Text(name@)),
            ]);
            make_done(
                reply.to_json(),
                "terminal_forward",
                id,
                JsonObject::new(),
                joined("launched ", name.as_str()),
            )
        },
        Err(e) => {
            let message = joined("Failed to launch terminal: ", e.as_str());
            let interaction = make_record("terminal_forward", id, JsonObject::new(), message.clone());
            Outcome {
                reply: Err(message),
                interaction: Some(Interaction { success: false, ..interaction }),
                list_changed: false,
            }
        },
    }
}

/// What `terminal_launch_gui` answers, where opening a window for the terminal
/// `id` worked or gave an error.
pub open spec fn gui_outcome(id: Seq<char>, launched: Result<(), Seq<char>>) -> OutcomeView {
    match launched {
        Ok(_) => done(
            object_text(
                seq![
                    ("success"@, JsonView::Flag(true)),
                    ("terminal_id"@, JsonView::Text(id)),
                    ("message"@, JsonView::Text("GUI window launched"@)),
                ],
            ),
            "terminal_launch_gui"@,
            id,
            Seq::empty(),
            "GUI launched"@,
        ),
        Err(e) => failed("Failed to create emulator for GUI: "@ + e),
    }
}

/// What `terminal_launch_gui` answers, where opening a window for the terminal
/// `id` worked or gave an error.
pub fn terminal_launch_gui(id: &str, launched: Result<(), String>) -> (res: Outcome)
    ensures
        res@ == gui_outcome(id@, unit_view(launched)),
{
    match launched {
        Ok(_) => {
            proof {
                reveal_strlit("success");
                reveal_strlit("terminal_id");
                reveal_strlit("message");
                assert("success"@[0] != "message"@[0]);
            }
            let reply = JsonObject::new().flag("success", true).text("terminal_id", id).text(
                "message",
                "GUI window launched",
            );
            assert(reply@ =~= seq![
                ("success"@, JsonView::Flag(true)),
                ("terminal_id"@, JsonView::Text(id@)),
                ("message"@, JsonView::Text("GUI window launched"@)),
            ]);
            make_done(
                reply.to_json(),
                "terminal_launch_gui",
                id,
                JsonObject::new(),
                "GUI launched".to_string(),
            )
        },
        Err(e) => make_failed(joined("Failed to create emulator for GUI: ", e.as_str())),
    }
}

// ---------------------------------------------------------------------------
// terminal_send_key
// ---------------------------------------------------------------------------

/// The key that `terminal_send_key` sends for the name `key`, or its answer where
/// that names none. This comes before the terminal is looked for.
pub fn terminal_send_key_request(key: &str) -> (res: Result<Key, Outcome>)
    ensures
        match res {
            Ok(parsed) => parsed.modifiers.valid() && parse_key(key@) == Ok::<KeyView, Seq<char>>(
                parsed@,
            ),
            Err(outcome) => parse_key(key@) matches Err(e) && outcome@ == failed(e),
        },
{
    match Key::from_str(key) {
        Ok(parsed) => Ok(parsed),
        Err(e) => Err(make_failed(e)),
    }
}

/// What `terminal_send_key` answers, where sending the key with the name `key`
/// worked or gave an error.
pub open spec fn send_key_outcome(
    id: Seq<char>,
    key: Seq<char>,
    sent: Result<(), Seq<char>>,
) -> OutcomeView {
    match sent {
        Ok(_) => done(
            object_text(seq![("success"@, JsonView::Flag(true))]),
            "terminal_send_key"@,
            id,
            seq![("key"@, JsonView::Text(key))],
            "sent "@ + key,
        ),
        Err(e) => failed("Failed to send key: "@ + e),
    }
}

/// What `terminal_send_key` answers, where sending the key with the name `key`
/// worked or gave an error.
pub fn terminal_send_key(id: &str, key: &str, sent: Result<(), String>) -> (res: Outcome)
    ensures
        res@ == send_key_outcome(id@, key@, unit_view(sent)),
{
    match sent {
        Ok(_) => {
            let params = JsonObject::new().text("key", key);
            assert(params@ =~= seq![("key"@, JsonView::Text(key@))]);
            make_done(success_reply(), "terminal_send_key", id, params, joined("sent ", key))
        },
        Err(e) => make_failed(joined("Failed to send key: ", e.as_str())),
    }
}

// ---------------------------------------------------------------------------
// terminal_mouse
// ---------------------------------------------------------------------------

/// Something to do with the mouse.
#[derive(Debug, Clone, Copy, PartialEq, Eq, Structural)]
pub enum MouseAction {
    LeftClick { col: u16, row: u16 },
    RightClick { col: u16, row: u16 },
    DoubleClick { col: u16, row: u16 },
    MoveTo { col: u16, row: u16 },
    GetPosition,
    SetPosition { col: u16, row: u16 },
}

/// A coordinate as it is handed on and recorded: its low 16 bits, and 0 where none is
/// given.
pub open spec fn coordinate(n: Option<u64>) -> u16 {
    match n {
        Some(n) => (n % 0x1_0000) as u16,
        None => 0,
    }
}

/// What to do with the mouse for the action with the name `name`.
pub open spec fn mouse_action_named(name: Seq<char>, col: u16, row: u16) -> Option<MouseAction> {
    if name == "left_click"@ {
        Some(MouseAction::LeftClick { col, row })
    } else if name == "right_click"@ {
        Some(MouseAction::RightClick { col, row })
    } else if name == "double_click"@ {
        Some(MouseAction::DoubleClick { col, row })
    } else if name == "move"@ {
        Some(MouseAction::MoveTo { col, row })
    } else if name == "get_position"@ {
        Some(MouseAction::GetPosition)
    } else if name == "set_position"@ {
        Some(MouseAction::SetPosition { col, row })
    } else {
        None
    }
}

/// What to do with the mouse for the action with the name `name`, or what is wrong
/// with it. Every action but asking for the position has to say where.
pub open spec fn mouse_request(name: Seq<char>, col: Option<u64>, row: Option<u64>) -> Result<
    MouseAction,
    Seq<char>,
> {
    match mouse_action_named(name, coordinate(col), coordinate(row)) {
        None => Err("Unknown action: "@ + name),
        Some(mouse) => if mouse is GetPosition || (col is Some && row is Some) {
            Ok(mouse)
        } else {
            Err("Missing 'col' or 'row' for "@ + name)
        },
    }
}

/// A coordinate as the mouse takes it.
fn to_coordinate(n: Option<u64>) -> (res: u16)
    ensures
        res == coordinate(n),
{
    match n {
        Some(n) => (n % 0x1_0000) as u16,
        None => 0,
    }
}

/// What `terminal_mouse` does, or its answer where the action is unknown or does not
/// say where. This comes before the terminal is looked for.
pub fn terminal_mouse_request(action: &str, col: Option<u64>, row: Option<u64>) -> (res: Result<
    MouseAction,
    Outcome,
>)
    ensures
        match res {
            Ok(mouse) => {
                &&& mouse_request(action@, col, row) == Ok::<MouseAction, Seq<char>>(mouse)
                &&& mouse_action_named(action@, coordinate(col), coordinate(row)) == Some(mouse)
                &&& action@ == "get_position"@ || (col is Some && row is Some)
            },
            Err(outcome) => mouse_request(action@, col, row) matches Err(e) && outcome@ == failed(e),
        },
{
    let placed = col.is_some() && row.is_some();
    let col = to_coordinate(col);
    let row = to_coordinate(row);
    let mouse = if str_eq(action, "left_click") {
        MouseAction::LeftClick { col, row }
    } else if str_eq(action, "right_click") {
        MouseAction::RightClick { col, row }
    } else if str_eq(action, "double_click") {
        MouseAction::DoubleClick { col, row }
    } else if str_eq(action, "move") {
        MouseAction::MoveTo { col, row }
    } else if str_eq(action, "get_position") {
        return Ok(MouseAction::GetPosition);
    } else if str_eq(action, "set_position") {
        MouseAction::SetPosition { col, row }
    } else {
        return Err(make_failed(joined("Unknown action: ", action)));
    };
    if placed {
        Ok(mouse)
    } else {
        Err(make_failed(joined("Missing 'col' or 'row' for ", action)))
    }
}

/// An answer that was written as JSON, or what is said where it could not be.
pub open spec fn serialized(written: Result<Seq<char>, Seq<char>>) -> Result<Seq<char>, Seq<char>> {
    match written {
        Ok(text) => Ok(text),
        Err(e) => Err("Serialization failed: "@ + e),
    }
}

/// An answer that was written as JSON, or what is said where it could not be.
fn serialized_reply(written: Result<String, String>) -> (res: Result<String, String>)
    ensures
        result_view(res) == serialized(result_view(written)),
{
    match written {
        Ok(text) => Ok(text),
        Err(e) => Err(joined("Serialization failed: ", e.as_str())),
    }
}

/// What `terminal_mouse` answers, where what the mouse gave was written as JSON. An
/// action that nothing was done for is answered with what is wrong with it.
pub open spec fn mouse_outcome(
    id: Seq<char>,
    action: Seq<char>,
    col: Option<u64>,
    row: Option<u64>,
    written: Result<Seq<char>, Seq<char>>,
) -> OutcomeView {
    match mouse_request(action, col, row) {
        Err(e) => failed(e),
        Ok(_) => OutcomeView {
            reply: serialized(written),
            interaction: Some(
                record(
                    "terminal_mouse"@,
                    id,
                    seq![
                        ("action"@, JsonView::Text(action)),
                        ("col"@, JsonView::Count(coordinate(col) as nat)),
                        ("row"@, JsonView::Count(coordinate(row) as nat)),
                    ],
                    action + " at ("@ + decimal(coordinate(col) as nat) + ", "@ + decimal(
                        coordinate(row) as nat,
                    ) + ")"@,
                ),
            ),
            list_changed: false,
        },
    }
}

/// An action that has to say where and does not is refused, with no action for the
/// mouse, and is answered with an error.
pub proof fn law_mouse_actions_say_where(
    id: Seq<char>,
    action: Seq<char>,
    col: Option<u64>,
    row: Option<u64>,
    written: Result<Seq<char>, Seq<char>>,
)
    requires
        action == "left_click"@ || action == "right_click"@ || action == "double_click"@ || action
            == "move"@ || action == "set_position"@,
        col is None || row is None,
    ensures
        mouse_request(action, col, row) is Err,
        mouse_outcome(id, action, col, row, written) == failed(
            "Missing 'col' or 'row' for "@ + action,
        ),
{
    reveal_strlit("left_click");
    reveal_strlit("right_click");
    reveal_strlit("double_click");
    reveal_strlit("move");
    reveal_strlit("get_position");
    reveal_strlit("set_position");
    assert("get_position"@[0] != "set_position"@[0] && "get_position"@[0] != "double_click"@[0]);
    assert("left_click"@.len() == 10 && "right_click"@.len() == 11 && "move"@.len() == 4);
    assert("get_position"@.len() == 12);
}

/// What `terminal_mouse` answers, where what the mouse gave was written as JSON.
pub fn terminal_mouse(
    id: &str,
    action: &str,
    col: Option<u64>,
    row: Option<u64>,
    written: Result<String, String>,
) -> (res: Outcome)
    ensures
        res@ == mouse_outcome(id@, action@, col, row, result_view(written)),
{
    match terminal_mouse_request(action, col, row) {
        Ok(_) => {},
        Err(outcome) => return outcome,
    }
    let col = to_coordinate(col);
    let row = to_coordinate(row);
    proof {
        reveal_strlit("action");
        reveal_strlit("col");
        reveal_strlit("row");
        assert("col"@[0] != "row"@[0]);
    }
    let params = JsonObject::new().text("action", action).count("col", col as u64).count(
        "row",
        row as u64,
    );
    assert(params@ =~= seq![
        ("action"@, JsonView::Text(action@)),
        ("col"@, JsonView::Count(col as nat)),
        ("row"@, JsonView::Count(row as nat)),
    ]);
    let mut summary = action.to_string();
    summary.append(" at (");
    push_decimal(&mut summary, col as u64);
    summary.append(", ");
    push_decimal(&mut summary, row as u64);
    summary.append(")");
    Outcome {
        reply: serialized_reply(written),
        interaction: Some(make_record("terminal_mouse", id, params, summary)),
        list_changed: false,
    }
}

// ---------------------------------------------------------------------------
// terminal_read_screen, terminal_show_screen
// ---------------------------------------------------------------------------

/// What of a screen to read.
#[derive(Debug, Clone, Copy, PartialEq, Eq, Structural)]
pub enum ScreenPart {
    /// The complete screen.
    Full,
    /// What is new since the last reading, in at most so many lines.
    Changes(usize),
}

/// The mode that a screen is read in.
pub open spec fn read_mode(mode: Option<Seq<char>>) -> Seq<char> {
    match mode {
        Some(mode) => mode,
        None => "full"@,
    }
}

/// The greatest number of lines to return: what is asked for brought between 1 and
/// 200, and 50 where nothing is.
pub open spec fn line_limit(max_lines: Option<u64>) -> usize {
    match max_lines {
        Some(n) => if (n as usize) < 1 {
            1
        } else if (n as usize) > 200 {
            200
        } else {
            n as usize
        },
        None => 50,
    }
}

/// What of a screen to read in this mode.
pub open spec fn screen_part(mode: Option<Seq<char>>, max_lines: Option<u64>) -> ScreenPart {
    if read_mode(mode) == "changes"@ {
        ScreenPart::Changes(line_limit(max_lines))
    } else {
        ScreenPart::Full
    }
}

/// The mode that a screen is read in.
fn mode_or_full<'a>(mode: Option<&'a str>) -> (res: &'a str)
    ensures
        res@ == read_mode(str_option_view(mode)),
{
    match mode {
        Some(mode) => mode,
        None => "full",
    }
}

/// What of a screen `terminal_read_screen` reads.
pub fn terminal_read_screen_request(mode: Option<&str>, max_lines: Option<u64>) -> (res: ScreenPart)
    ensures
        res == screen_part(str_option_view(mode), max_lines),
        res matches ScreenPart::Changes(n) ==> 1 <= n <= 200,
{
    let limit: usize = match max_lines {
        Some(n) => {
            let n: usize = n as usize;
            if n < 1 {
                1
            } else if n > 200 {
                200
            } else {
                n
            }
        },
        None => 50,
    };
    if str_eq(mode_or_full(mode), "changes") {
        ScreenPart::Changes(limit)
    } else {
        ScreenPart::Full
    }
}

/// What `terminal_read_screen` answers with the text that it read.
pub open spec fn read_screen_outcome(
    id: Seq<char>,
    mode: Option<Seq<char>>,
    text: Seq<char>,
) -> OutcomeView {
    done(
        text,
        "terminal_read_screen"@,
        id,
        seq![("mode"@, JsonView::Text(read_mode(mode)))],
        "read screen ("@ + read_mode(mode) + ")"@,
    )
}

/// What `terminal_read_screen` answers with the text that it read.
pub fn terminal_read_screen(id: &str, mode: Option<&str>, text: String) -> (res: Outcome)
    ensures
        res@ == read_screen_outcome(id@, str_option_view(mode), text@),
        res@ == done(
            text@,
            "terminal_read_screen"@,
            id@,
            seq![("mode"@, JsonView::Text(read_mode(str_option_view(mode))))],
            "read screen ("@ + read_mode(str_option_view(mode)) + ")"@,
        ),
{
    let mode = mode_or_full(mode);
    let params = JsonObject::new().text("mode", mode);
    assert(params@ =~= seq![("mode"@, JsonView::Text(mode@))]);
    let mut summary = joined("read screen (", mode);
    summary.append(")");
    make_done(text, "terminal_read_screen", id, params, summary)
}

/// What `terminal_show_screen` answers with the text that it read.
pub open spec fn show_screen_outcome(id: Seq<char>, text: Seq<char>) -> OutcomeView {
    done(text, "terminal_show_screen"@, id, Seq::empty(), "show screen"@)
}

/// What `terminal_show_screen` answers with the text that it read.
pub fn terminal_show_screen(id: &str, text: String) -> (res: Outcome)
    ensures
        res@ == show_screen_outcome(id@, text@),
        res@ == done(text@, "terminal_show_screen"@, id@, Seq::empty(), "show screen"@),
{
    make_done(text, "terminal_show_screen", id, JsonObject::new(), "show screen".to_string())
}

// ---------------------------------------------------------------------------
// terminal_read_rows, terminal_read_region, terminal_select
// ---------------------------------------------------------------------------

/// What `terminal_read_rows` answers with the text of the rows.
pub open spec fn read_rows_outcome(
    id: Seq<char>,
    start_row: u64,
    end_row: u64,
    text: Seq<char>,
) -> OutcomeView {
    done(
        text,
        "terminal_read_rows"@,
        id,
        seq![
            ("start"@, JsonView::Count(start_row as nat)),
            ("end"@, JsonView::Count(end_row as nat)),
        ],
        "rows "@ + decimal(start_row as nat) + "-"@ + decimal(end_row as nat),
    )
}

/// What `terminal_read_rows` answers with the text of the rows.
pub fn terminal_read_rows(id: &str, start_row: u64, end_row: u64, text: String) -> (res: Outcome)
    ensures
        res@ == read_rows_outcome(id@, start_row, end_row, text@),
        res@ == done(
            text@,
            "terminal_read_rows"@,
            id@,
            seq![
                ("start"@, JsonView::Count(start_row as nat)),
                ("end"@, JsonView::Count(end_row as nat)),
            ],
            "rows "@ + decimal(start_row as nat) + "-"@ + decimal(end_row as nat),
        ),
{
    proof {
        reveal_strlit("start");
        reveal_strlit("end");
        assert("start"@.len() != "end"@.len());
    }
    let params = JsonObject::new().count("start", start_row).count("end", end_row);
    assert(params@ =~= seq![
        ("start"@, JsonView::Count(start_row as nat)),
        ("end"@, JsonView::Count(end_row as nat)),
    ]);
    let mut summary = "rows ".to_string();
    push_decimal(&mut summary, start_row);
    summary.append("-");
    push_decimal(&mut summary, end_row);
    make_done(text, "terminal_read_rows", id, params, summary)
}

/// A point as it is written.
pub open spec fn point_text(col: u64, row: u64) -> Seq<char> {
    "("@ + decimal(col as nat) + ","@ + decimal(row as nat) + ")"@
}

/// What `terminal_read_region` answers with the text of the region.
pub open spec fn read_region_outcome(
    id: Seq<char>,
    col1: u64,
    row1: u64,
    col2: u64,
    row2: u64,
    text: Seq<char>,
) -> OutcomeView {
    done(
        text,
        "terminal_read_region"@,
        id,
        seq![
            ("col1"@, JsonView::Count(col1 as nat)),
            ("row1"@, JsonView::Count(row1 as nat)),
            ("col2"@, JsonView::Count(col2 as nat)),
            ("row2"@, JsonView::Count(row2 as nat)),
        ],
        "region "@ + point_text(col1, row1) + " to "@ + point_text(col2, row2),
    )
}

/// What `terminal_read_region` answers with the text of the region.
pub fn terminal_read_region(id: &str, col1: u64, row1: u64, col2: u64, row2: u64, text: String) -> (res:
    Outcome)
    ensures
        res@ == read_region_outcome(id@, col1, row1, col2, row2, text@),
        res@ == done(
            text@,
            "terminal_read_region"@,
            id@,
            seq![
                ("col1"@, JsonView::Count(col1 as nat)),
                ("row1"@, JsonView::Count(row1 as nat)),
                ("col2"@, JsonView::Count(col2 as nat)),
                ("row2"@, JsonView::Count(row2 as nat)),
            ],
            "region "@ + point_text(col1, row1) + " to "@ + point_text(col2, row2),
        ),
{
    proof {
        reveal_strlit("col1");
        reveal_strlit("row1");
        reveal_strlit("col2");
        reveal_strlit("row2");
        assert("col1"@[0] != "row1"@[0] && "col1"@[3] != "col2"@[3] && "col1"@[0] != "row2"@[0]);
        assert("row1"@[0] != "col2"@[0] && "row1"@[3] != "row2"@[3] && "col2"@[0] != "row2"@[0]);
    }
    let params = JsonObject::new().count("col1", col1).count("row1", row1).count(
        "col2",
        col2,
    ).count("row2", row2);
    assert(params@ =~= seq![
        ("col1"@, JsonView::Count(col1 as nat)),
        ("row1"@, JsonView::Count(row1 as nat)),
        ("col2"@, JsonView::Count(col2 as nat)),
        ("row2"@, JsonView::Count(row2 as nat)),
    ]);
    let mut summary = "region ".to_string();
    push_point(&mut summary, col1, row1);
    summary.append(" to ");
    push_point(&mut summary, col2, row2);
    make_done(text, "terminal_read_region", id, params, summary)
}

/// Puts a point behind what `out` holds.
fn push_point(out: &mut String, col: u64, row: u64)
    ensures
        final(out)@ == old(out)@ + point_text(col, row),
{
    out.append("(");
    push_decimal(out, col);
    out.append(",");
    push_decimal(out, row);
    out.append(")");
    assert(out@ =~= old(out)@ + point_text(col, row));
}

/// What `terminal_select` answers with the selected text.
pub open spec fn select_outcome(
    id: Seq<char>,
    start_col: u64,
    start_row: u64,
    end_col: u64,
    end_row: u64,
    text: Seq<char>,
) -> OutcomeView {
    done(
        object_text(seq![("selected_text"@, JsonView::Text(text))]),
        "terminal_select"@,
        id,
        seq![
            ("start_col"@, JsonView::Count(start_col as nat)),
            ("start_row"@, JsonView::Count(start_row as nat)),
            ("end_col"@, JsonView::Count(end_col as nat)),
            ("end_row"@, JsonView::Count(end_row as nat)),
        ],
        "selected "@ + decimal(encode_utf8(text).len()) + " chars"@,
    )
}

/// What `terminal_select` answers with the selected text.
pub fn terminal_select(
    id: &str,
    start_col: u64,
    start_row: u64,
    end_col: u64,
    end_row: u64,
    text: &str,
) -> (res: Outcome)
    ensures
        res@ == select_outcome(id@, start_col, start_row, end_col, end_row, text@),
{
    proof {
        reveal_strlit("start_col");
        reveal_strlit("start_row");
        reveal_strlit("end_col");
        reveal_strlit("end_row");
        assert("start_col"@[6] != "start_row"@[6] && "end_col"@[4] != "end_row"@[4]);
    }
    let reply = JsonObject::new().text("selected_text", text);
    assert(reply@ =~= seq![("selected_text"@, JsonView::Text(text@))]);
    let params = JsonObject::new().count("start_col", start_col).count("start_row", start_row).count(
        "end_col",
        end_col,
    ).count("end_row", end_row);
    assert(params@ =~= seq![
        ("start_col"@, JsonView::Count(start_col as nat)),
        ("start_row"@, JsonView::Count(start_row as nat)),
        ("end_col"@, JsonView::Count(end_col as nat)),
        ("end_row"@, JsonView::Count(end_row as nat)),
    ]);
    let mut summary = "selected ".to_string();
    push_decimal(&mut summary, text.as_bytes().len() as u64);
    summary.append(" chars");
    make_done(reply.to_json(), "terminal_select", id, params, summary)
}

// ---------------------------------------------------------------------------
// terminal_status, terminal_poll_events
// ---------------------------------------------------------------------------

/// The number of screen lines that a status ends with: 5 where none is given.
pub open spec fn status_lines(last_n_lines: Option<u64>) -> usize {
    match last_n_lines {
        Some(n) => n as usize,
        None => 5,
    }
}

/// The number of screen lines that `terminal_status` asks for.
pub fn terminal_status_request(last_n_lines: Option<u64>) -> (res: usize)
    ensures
        res == status_lines(last_n_lines),
{
    match last_n_lines {
        Some(n) => n as usize,
        None => 5,
    }
}

/// What `terminal_status` answers, where the status was written as JSON and says
/// that the process is in the state `state`.
pub open spec fn status_outcome(
    id: Seq<char>,
    last_n_lines: Option<u64>,
    state: Seq<char>,
    written: Result<Seq<char>, Seq<char>>,
) -> OutcomeView {
    OutcomeView {
        reply: serialized(written),
        interaction: Some(
            record(
                "terminal_status"@,
                id,
                seq![("last_n"@, JsonView::Count(status_lines(last_n_lines) as nat))],
                "status ["@ + state + "]"@,
            ),
        ),
        list_changed: false,
    }
}

/// What `terminal_status` answers, where the status was written as JSON and says
/// that the process is in the state `state`.
pub fn terminal_status(
    id: &str,
    last_n_lines: Option<u64>,
    state: &str,
    written: Result<String, String>,
) -> (res: Outcome)
    ensures
        res@ == status_outcome(id@, last_n_lines, state@, result_view(written)),
        res@ == (OutcomeView {
            reply: serialized(result_view(written)),
            interaction: Some(
                record(
                    "terminal_status"@,
                    id@,
                    seq![("last_n"@, JsonView::Count(status_lines(last_n_lines) as nat))],
                    "status ["@ + state@ + "]"@,
                ),
            ),
            list_changed: false,
        }),
{
    let last_n: usize = terminal_status_request(last_n_lines);
    let params = JsonObject::new().count("last_n", last_n as u64);
    assert(params@ =~= seq![("last_n"@, JsonView::Count(last_n as nat))]);
    let mut summary = joined("status [", state);
    summary.append("]");
    Outcome {
        reply: serialized_reply(written),
        interaction: Some(make_record("terminal_status", id, params, summary)),
        list_changed: false,
    }
}

/// What `terminal_poll_events` answers with the events that it took.
pub open spec fn poll_events_outcome(
    id: Seq<char>,
    events: Seq<serde_json::Value>,
) -> OutcomeView {
    done(
        list_reply("events"@, events),
        "terminal_poll_events"@,
        id,
        Seq::empty(),
        decimal(events.len()) + " events"@,
    )
}

/// What `terminal_poll_events` answers with the events that it took.
pub fn terminal_poll_events(id: &str, events: Vec<serde_json::Value>) -> (res: Outcome)
    ensures
        res@ == poll_events_outcome(id@, events@),
        res@ == done(
            list_reply("events"@, events@),
            "terminal_poll_events"@,
            id@,
            Seq::empty(),
            decimal(events@.len()) + " events"@,
        ),
{
    let count: usize = events.len();
    make_done(
        write_list("events", events),
        "terminal_poll_events",
        id,
        JsonObject::new(),
        count_text(count as u64, " events"),
    )
}

// ---------------------------------------------------------------------------
// terminal_scroll
// ---------------------------------------------------------------------------

/// A way to move through what has left the screen.
#[derive(Debug)]
pub enum ScrollAction {
    PageUp,
    PageDown,
    Search(String),
}

/// A way to move through what has left the screen, as text.
pub enum ScrollActionView {
    PageUp,
    PageDown,
    Search(Seq<char>),
}

impl View for ScrollAction {
    type V = ScrollActionView;

    open spec fn view(&self) -> ScrollActionView {
        match self {
            ScrollAction::PageUp => ScrollActionView::PageUp,
            ScrollAction::PageDown => ScrollActionView::PageDown,
            ScrollAction::Search(text) => ScrollActionView::Search(text@),
        }
    }
}

/// How to move for the action with the name `action`, or what is wrong with it. A
/// search has to say what for.
pub open spec fn scroll_action(action: Seq<char>, text: Option<Seq<char>>) -> Result<
    ScrollActionView,
    Seq<char>,
> {
    if action == "page_up"@ {
        Ok(ScrollActionView::PageUp)
    } else if action == "page_down"@ {
        Ok(ScrollActionView::PageDown)
    } else if action == "search"@ {
        match text {
            Some(text) => if text.len() > 0 {
                Ok(ScrollActionView::Search(text))
            } else {
                Err("Missing 'text' for search"@)
            },
            None => Err("Missing 'text' for search"@),
        }
    } else {
        Err("Unknown scroll action: "@ + action)
    }
}

/// How `terminal_scroll` moves, or its answer where that cannot be told. This
/// comes after the terminal is found.
pub fn terminal_scroll_request(action: &str, text: Option<&str>) -> (res: Result<
    ScrollAction,
    Outcome,
>)
    ensures
        match res {
            Ok(scroll) => scroll_action(action@, str_option_view(text)) == Ok::<
                ScrollActionView,
                Seq<char>,
            >(scroll@),
            Err(outcome) => scroll_action(action@, str_option_view(text)) matches Err(e)
                && outcome@ == failed(e),
        },
{
    if str_eq(action, "page_up") {
        Ok(ScrollAction::PageUp)
    } else if str_eq(action, "page_down") {
        Ok(ScrollAction::PageDown)
    } else if str_eq(action, "search") {
        match text {
            Some(text) => {
                if text.is_empty() {
                    Err(make_failed("Missing 'text' for search".to_string()))
                } else {
                    Ok(ScrollAction::Search(text.to_string()))
                }
            },
            None => Err(make_failed("Missing 'text' for search".to_string())),
        }
    } else {
        Err(make_failed(joined("Unknown scroll action: ", action)))
    }
}

/// What `terminal_scroll` says of where it came to, and, after a search, of
/// whether the text was found.
pub open spec fn scroll_reply(offset: u64, found: Option<bool>) -> Seq<char> {
    match found {
        Some(found) => object_text(
            seq![
                ("scroll_offset"@, JsonView::Count(offset as nat)),
                ("found"@, JsonView::Flag(found)),
            ],
        ),
        None => object_text(seq![("scroll_offset"@, JsonView::Count(offset as nat))]),
    }
}

/// What `terminal_scroll` answers after it came to `offset`, with whether the text
/// was found where it searched.
pub open spec fn scroll_outcome(
    id: Seq<char>,
    action: Seq<char>,
    offset: u64,
    found: Option<bool>,
) -> OutcomeView {
    done(
        scroll_reply(offset, found),
        "terminal_scroll"@,
        id,
        seq![("action"@, JsonView::Text(action))],
        "scroll "@ + action,
    )
}

/// What `terminal_scroll` answers after it came to `offset`, with whether the text
/// was found where it searched.
pub fn terminal_scroll(id: &str, action: &str, offset: u64, found: Option<bool>) -> (res: Outcome)
    requires
        found is Some <==> action@ == "search"@,
    ensures
        res@ == scroll_outcome(id@, action@, offset, found),
        res@ == done(
            scroll_reply(offset, found),
            "terminal_scroll"@,
            id@,
            seq![("action"@, JsonView::Text(action@))],
            "scroll "@ + action@,
        ),
        found matches Some(b) ==> res@.reply == Ok::<Seq<char>, Seq<char>>(
            object_text(
                seq![
                    ("scroll_offset"@, JsonView::Count(offset as nat)),
                    ("found"@, JsonView::Flag(b)),
                ],
            ),
        ),
        found is None ==> res@.reply == Ok::<Seq<char>, Seq<char>>(
            object_text(seq![("scroll_offset"@, JsonView::Count(offset as nat))]),
        ),
{
    let params = JsonObject::new().text("action", action);
    assert(params@ =~= seq![("action"@, JsonView::Text(action@))]);
    let reply = JsonObject::new().count("scroll_offset", offset);
    assert(reply@ =~= seq![("scroll_offset"@, JsonView::Count(offset as nat))]);
    let reply = match found {
        Some(found) => {
            proof {
                reveal_strlit("scroll_offset");
                reveal_strlit("found");
            }
            let reply = reply.flag("found", found);
            assert(reply@ =~= seq![
                ("scroll_offset"@, JsonView::Count(offset as nat)),
                ("found"@, JsonView::Flag(found)),
            ]);
            reply
        },
        None => reply,
    };
    make_done(reply.to_json(), "terminal_scroll", id, params, joined("scroll ", action))
}

} // verus!
