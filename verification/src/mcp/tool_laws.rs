//! What the tools that work on terminals do and answer, word for word.
use vstd::prelude::*;
use vstd::string::*;
use vstd::utf8::*;

use crate::json::{json_chars, list_text, value_json, JsonView};
use crate::json_laws::{
    field, is_plain, law_lists_are_their_values, law_objects_are_their_fields,
};
use crate::mcp::outcome::{done, failed, record, InteractionView, OutcomeView};
use crate::mcp::tools::{
    coordinate, create_outcome, created_size, destroy_outcome, forward_outcome, gui_outcome,
    list_outcome, list_reply, mouse_outcome, mouse_request, not_found_text, point_text,
    poll_events_outcome, read_mode, read_region_outcome, read_rows_outcome, read_screen_outcome,
    screen_part, scroll_action, scroll_outcome, scroll_reply, select_outcome, send_key_outcome,
    serialized, show_screen_outcome, size_text, status_lines, status_outcome, MouseAction,
    ScreenPart, ScrollActionView,
};
use crate::terminal::size::{
    is_allowed_size, law_other_names_give_the_default_size, law_sizes_go_by_their_names,
    name_of_size,
};
use crate::text::decimal;
use crate::text_laws::law_decimals_differ;

verus! {

/// Text in quotes, as JSON.
pub open spec fn quoted(s: Seq<char>) -> Seq<char> {
    seq!['"'] + json_chars(s) + seq!['"']
}

/// A flag as JSON.
pub open spec fn flag_text(b: bool) -> Seq<char> {
    if b {
        "true"@
    } else {
        "false"@
    }
}

// ---------------------------------------------------------------------------
// Answers and records
// ---------------------------------------------------------------------------

/// A tool that failed answers with its message alone: it leaves no record and no
/// change.
pub proof fn law_failures_leave_no_record(message: Seq<char>)
    ensures
        failed(message).reply == Err::<Seq<char>, Seq<char>>(message),
        failed(message).interaction is None,
        !failed(message).list_changed,
{
}

/// A tool that did its work answers with its reply and leaves a record of its name,
/// its terminal, its parameters and what it did.
pub proof fn law_work_is_recorded(
    reply: Seq<char>,
    tool: Seq<char>,
    id: Seq<char>,
    params: Seq<(Seq<char>, JsonView)>,
    summary: Seq<char>,
)
    ensures
        done(reply, tool, id, params, summary) == (OutcomeView {
            reply: Ok(reply),
            interaction: Some(
                InteractionView {
                    tool,
                    terminal_id: Some(id),
                    params,
                    success: true,
                    summary: Some(summary),
                },
            ),
            list_changed: false,
        }),
        record(tool, id, params, summary) == (InteractionView {
            tool,
            terminal_id: Some(id),
            params,
            success: true,
            summary: Some(summary),
        }),
{
}

/// A terminal that is not there is named in the message.
pub proof fn law_missing_terminals_are_named(id: Seq<char>)
    ensures
        not_found_text(id) == "Terminal '"@ + id + "' not found"@,
{
}

// ---------------------------------------------------------------------------
// Creating, destroying, listing
// ---------------------------------------------------------------------------

/// Each size that a terminal can have is the one that is created for its name, and
/// the name reads back from how that size is written; any other name, and none, give
/// 80x24.
pub proof fn law_the_size_asked_for_is_created(cols: usize, rows: usize, name: Seq<char>)
    ensures
        is_allowed_size(cols, rows) ==> created_size(Some(size_text(cols, rows))) == (cols, rows),
        is_allowed_size(cols, rows) ==> created_size(Some(name_of_size(cols, rows))) == (cols, rows),
        created_size(Some(name)) == (80usize, 24usize) || name == name_of_size(
            created_size(Some(name)).0,
            created_size(Some(name)).1,
        ),
        created_size(None) == (80usize, 24usize),
        size_text(cols, rows) == name_of_size(cols, rows),
{
    reveal_strlit("x");
    reveal_strlit("80x24");
    reveal_strlit("120x40");
    assert("x"@ =~= seq!['x']);
    assert(size_text(cols, rows) =~= name_of_size(cols, rows));
    if is_allowed_size(cols, rows) {
        law_sizes_go_by_their_names(cols, rows);
    }
    law_other_names_give_the_default_size(name);
    law_sizes_go_by_their_names(80, 24);
    reveal_with_fuel(decimal, 4);
    assert(name_of_size(80, 24) =~= "80x24"@);
}

/// The answer to creating a terminal holds its id and its size, and the record names
/// both; an error is passed on. Either way the terminals are shown anew.
pub proof fn law_create_answers_with_id_and_size(
    cols: usize,
    rows: usize,
    id: Seq<char>,
    e: Seq<char>,
)
    ensures
        create_outcome(cols, rows, Ok(id)) == (OutcomeView {
            reply: Ok(
                seq!['{'] + field("id"@, quoted(id)) + seq![','] + field(
                    "cols"@,
                    decimal(cols as nat),
                ) + seq![','] + field("rows"@, decimal(rows as nat)) + seq!['}'],
            ),
            interaction: Some(
                InteractionView {
                    tool: "terminal_create"@,
                    terminal_id: Some(id),
                    params: seq![("size"@, JsonView::Text(name_of_size(cols, rows)))],
                    success: true,
                    summary: Some("created "@ + name_of_size(cols, rows)),
                },
            ),
            list_changed: true,
        }),
        create_outcome(cols, rows, Err(e)) == (OutcomeView {
            reply: Err(e),
            interaction: None,
            list_changed: true,
        }),
{
    reveal_strlit("id");
    reveal_strlit("cols");
    reveal_strlit("rows");
    reveal_strlit("x");
    assert("x"@ =~= seq!['x']);
    assert(size_text(cols, rows) =~= name_of_size(cols, rows));
    law_objects_are_their_fields(
        ("id"@, JsonView::Text(id)),
        ("cols"@, JsonView::Count(cols as nat)),
        ("rows"@, JsonView::Count(rows as nat)),
    );
}

/// The answer to destroying a terminal says whether it was there, in the reply and in
/// the record alike.
pub proof fn law_destroy_says_whether_it_was_there(id: Seq<char>, success: bool)
    ensures
        destroy_outcome(id, success).reply == Ok::<Seq<char>, Seq<char>>(
            seq!['{'] + field("success"@, flag_text(success)) + seq!['}'],
        ),
        destroy_outcome(id, success).list_changed,
        destroy_outcome(id, success).interaction == Some(
            InteractionView {
                tool: "terminal_destroy"@,
                terminal_id: Some(id),
                params: Seq::empty(),
                success,
                summary: Some(
                    if success {
                        "destroyed"@
                    } else {
                        "not found"@
                    },
                ),
            },
        ),
{
    reveal_strlit("success");
    let entry = ("success"@, JsonView::Flag(success));
    law_objects_are_their_fields(entry, entry, entry);
}

/// A list is answered whole and in its order, under its name.
pub proof fn law_lists_are_answered_whole(
    key: Seq<char>,
    values: Seq<serde_json::Value>,
    value: serde_json::Value,
)
    requires
        is_plain(key),
    ensures
        list_reply(key, values) == seq!['{'] + field(key, list_text(values)) + seq!['}'],
        list_text(Seq::<serde_json::Value>::empty()) == seq!['[', ']'],
        list_text(seq![value]) == seq!['['] + value_json(value) + seq![']'],
        values.len() > 0 ==> list_text(values.push(value)) == list_text(values).drop_last()
            + seq![','] + value_json(value) + seq![']'],
{
    let entry = (key, JsonView::Other(list_text(values)));
    law_objects_are_their_fields(entry, entry, entry);
    law_lists_are_their_values(values, value);
}

// ---------------------------------------------------------------------------
// Forwarding, windows, keys
// ---------------------------------------------------------------------------

/// The answer to forwarding names the terminal emulator that was launched, or says
/// why none was, in the reply and in the record alike.
pub proof fn law_forward_answers_with_the_emulator(id: Seq<char>, name: Seq<char>, e: Seq<char>)
    ensures
        forward_outcome(id, Ok(name)) == (OutcomeView {
            reply: Ok(
                seq!['{'] + field("success"@, "true"@) + seq![','] + field(
                    "terminal"@,
                    quoted(name),
                ) + seq!['}'],
            ),
            interaction: Some(
                InteractionView {
                    tool: "terminal_forward"@,
                    terminal_id: Some(id),
                    params: Seq::empty(),
                    success: true,
                    summary: Some("launched "@ + name),
                },
            ),
            list_changed: false,
        }),
        forward_outcome(id, Err(e)) == (OutcomeView {
            reply: Err("Failed to launch terminal: "@ + e),
            interaction: Some(
                InteractionView {
                    tool: "terminal_forward"@,
                    terminal_id: Some(id),
                    params: Seq::empty(),
                    success: false,
                    summary: Some("Failed to launch terminal: "@ + e),
                },
            ),
            list_changed: false,
        }),
{
    reveal_strlit("success");
    reveal_strlit("terminal");
    law_objects_are_their_fields(
        ("success"@, JsonView::Flag(true)),
        ("terminal"@, JsonView::Text(name)),
        ("success"@, JsonView::Flag(true)),
    );
}

/// The answer to opening a window names the terminal, or says why there is none.
pub proof fn law_gui_answers_with_the_terminal(id: Seq<char>, e: Seq<char>)
    ensures
        gui_outcome(id, Ok(())) == (OutcomeView {
            reply: Ok(
                seq!['{'] + field("success"@, "true"@) + seq![','] + field(
                    "terminal_id"@,
                    quoted(id),
                ) + seq![','] + field("message"@, quoted("GUI window launched"@)) + seq!['}'],
            ),
            interaction: Some(
                InteractionView {
                    tool: "terminal_launch_gui"@,
                    terminal_id: Some(id),
                    params: Seq::empty(),
                    success: true,
                    summary: Some("GUI launched"@),
                },
            ),
            list_changed: false,
        }),
        gui_outcome(id, Err(e)) == (OutcomeView {
            reply: Err("Failed to create emulator for GUI: "@ + e),
            interaction: None,
            list_changed: false,
        }),
{
    reveal_strlit("success");
    reveal_strlit("terminal_id");
    reveal_strlit("message");
    law_objects_are_their_fields(
        ("success"@, JsonView::Flag(true)),
        ("terminal_id"@, JsonView::Text(id)),
        ("message"@, JsonView::Text("GUI window launched"@)),
    );
}

/// The answer to sending a key records the name as it was written, or says what went
/// wrong.
pub proof fn law_send_key_records_the_name(id: Seq<char>, key: Seq<char>, e: Seq<char>)
    ensures
        send_key_outcome(id, key, Ok(())) == (OutcomeView {
            reply: Ok(seq!['{'] + field("success"@, "true"@) + seq!['}']),
            interaction: Some(
                InteractionView {
                    tool: "terminal_send_key"@,
                    terminal_id: Some(id),
                    params: seq![("key"@, JsonView::Text(key))],
                    success: true,
                    summary: Some("sent "@ + key),
                },
            ),
            list_changed: false,
        }),
        send_key_outcome(id, key, Err(e)) == (OutcomeView {
            reply: Err("Failed to send key: "@ + e),
            interaction: None,
            list_changed: false,
        }),
{
    reveal_strlit("success");
    let entry = ("success"@, JsonView::Flag(true));
    law_objects_are_their_fields(entry, entry, entry);
}

// ---------------------------------------------------------------------------
// The mouse
// ---------------------------------------------------------------------------

/// A coordinate below 65536 is taken as it is, and a greater one by its low 16 bits.
pub proof fn law_coordinates_are_kept(n: u64)
    ensures
        n < 65536 ==> coordinate(Some(n)) as int == n as int,
        coordinate(Some(n)) as int == n as int % 65536,
        coordinate(None) == 0,
{
}

/// Where a mouse action takes place, for the actions that say so.
pub open spec fn place_of(mouse: MouseAction) -> Option<(u16, u16)> {
    match mouse {
        MouseAction::LeftClick { col, row } => Some((col, row)),
        MouseAction::RightClick { col, row } => Some((col, row)),
        MouseAction::DoubleClick { col, row } => Some((col, row)),
        MouseAction::MoveTo { col, row } => Some((col, row)),
        MouseAction::SetPosition { col, row } => Some((col, row)),
        MouseAction::GetPosition => None,
    }
}

/// Every mouse action goes by its own name and takes place exactly where it is asked
/// for, column and row in their order; any other name is refused.
pub proof fn law_mouse_actions_take_place_where_asked(action: Seq<char>, col: u64, row: u64)
    requires
        col < 65536,
        row < 65536,
    ensures
        match mouse_request(action, Some(col), Some(row)) {
            Ok(mouse) => {
                &&& mouse is LeftClick <==> action == "left_click"@
                &&& mouse is RightClick <==> action == "right_click"@
                &&& mouse is DoubleClick <==> action == "double_click"@
                &&& mouse is MoveTo <==> action == "move"@
                &&& mouse is GetPosition <==> action == "get_position"@
                &&& mouse is SetPosition <==> action == "set_position"@
                &&& place_of(mouse) matches Some(place) ==> place.0 as int == col as int
                    && place.1 as int == row as int
            },
            Err(e) => {
                &&& e == "Unknown action: "@ + action
                &&& action != "left_click"@ && action != "right_click"@ && action
                    != "double_click"@ && action != "move"@ && action != "get_position"@ && action
                    != "set_position"@
            },
        },
        mouse_request("get_position"@, None, None) == Ok::<MouseAction, Seq<char>>(
            MouseAction::GetPosition,
        ),
{
    reveal_strlit("left_click");
    reveal_strlit("right_click");
    reveal_strlit("double_click");
    reveal_strlit("move");
    reveal_strlit("get_position");
    reveal_strlit("set_position");
    assert("get_position"@[0] != "set_position"@[0] && "get_position"@[0] != "double_click"@[0]);
    assert("set_position"@[0] != "double_click"@[0]);
    assert("left_click"@.len() == 10 && "right_click"@.len() == 11 && "move"@.len() == 4);
    assert("get_position"@.len() == 12 && "double_click"@.len() == 12 && "set_position"@.len()
        == 12);
}

/// A mouse action that was done is recorded with its name and its place, and answered
/// with what the terminal gave.
pub proof fn law_mouse_actions_are_recorded(
    id: Seq<char>,
    action: Seq<char>,
    col: Option<u64>,
    row: Option<u64>,
    written: Result<Seq<char>, Seq<char>>,
)
    requires
        mouse_request(action, col, row) is Ok,
    ensures
        ({
            let outcome = mouse_outcome(id, action, col, row, written);
            &&& written matches Ok(text) ==> outcome.reply == Ok::<Seq<char>, Seq<char>>(text)
            &&& written matches Err(e) ==> outcome.reply == Err::<Seq<char>, Seq<char>>(
                "Serialization failed: "@ + e,
            )
            &&& !outcome.list_changed
            &&& outcome.interaction == Some(
                InteractionView {
                    tool: "terminal_mouse"@,
                    terminal_id: Some(id),
                    params: seq![
                        ("action"@, JsonView::Text(action)),
                        ("col"@, JsonView::Count(coordinate(col) as nat)),
                        ("row"@, JsonView::Count(coordinate(row) as nat)),
                    ],
                    success: true,
                    summary: Some(
                        action + " at ("@ + decimal(coordinate(col) as nat) + ", "@ + decimal(
                            coordinate(row) as nat,
                        ) + ")"@,
                    ),
                },
            )
        }),
{
}

// ---------------------------------------------------------------------------
// Screens
// ---------------------------------------------------------------------------

/// Only the mode 'changes' reads changes, in as many lines as are asked for from 1 to
/// 200, in the nearest number of lines outside these, and in 50 where none is.
pub proof fn law_changes_have_the_lines_asked_for(mode: Seq<char>, n: u64)
    requires
        n <= 0xffff_ffff,
    ensures
        screen_part(Some("changes"@), None) == ScreenPart::Changes(50),
        1 <= n <= 200 ==> (screen_part(Some("changes"@), Some(n)) matches ScreenPart::Changes(k) && k
            as int == n as int),
        n < 1 ==> screen_part(Some("changes"@), Some(n)) == ScreenPart::Changes(1),
        n > 200 ==> screen_part(Some("changes"@), Some(n)) == ScreenPart::Changes(200),
        mode != "changes"@ ==> screen_part(Some(mode), Some(n)) == ScreenPart::Full && screen_part(
            Some(mode),
            None,
        ) == ScreenPart::Full,
        screen_part(None, Some(n)) == ScreenPart::Full && screen_part(None, None)
            == ScreenPart::Full,
        read_mode(Some(mode)) == mode,
        read_mode(None) == "full"@,
{
    reveal_strlit("full");
    reveal_strlit("changes");
    assert("full"@.len() != "changes"@.len());
}

/// A status ends with as many lines as are asked for, and with 5 where none is.
pub proof fn law_status_has_the_lines_asked_for(n: u64)
    requires
        n <= 0xffff_ffff,
    ensures
        status_lines(Some(n)) as int == n as int,
        status_lines(None) == 5,
{
}

/// What was written as JSON is answered as it is; what could not be says why.
pub proof fn law_written_answers_are_kept(text: Seq<char>)
    ensures
        serialized(Ok(text)) == Ok::<Seq<char>, Seq<char>>(text),
        serialized(Err(text)) == Err::<Seq<char>, Seq<char>>("Serialization failed: "@ + text),
{
}

/// A point is written with its column first.
pub proof fn law_points_are_column_and_row(col: u64, row: u64)
    ensures
        point_text(col, row) == "("@ + decimal(col as nat) + ","@ + decimal(row as nat) + ")"@,
{
}

/// The text that was selected is answered whole, and its bytes are counted.
pub proof fn law_selected_text_is_answered_whole(
    id: Seq<char>,
    start_col: u64,
    start_row: u64,
    end_col: u64,
    end_row: u64,
    text: Seq<char>,
)
    ensures
        select_outcome(id, start_col, start_row, end_col, end_row, text) == (OutcomeView {
            reply: Ok(seq!['{'] + field("selected_text"@, quoted(text)) + seq!['}']),
            interaction: Some(
                InteractionView {
                    tool: "terminal_select"@,
                    terminal_id: Some(id),
                    params: seq![
                        ("start_col"@, JsonView::Count(start_col as nat)),
                        ("start_row"@, JsonView::Count(start_row as nat)),
                        ("end_col"@, JsonView::Count(end_col as nat)),
                        ("end_row"@, JsonView::Count(end_row as nat)),
                    ],
                    success: true,
                    summary: Some(
                        "selected "@ + decimal(encode_utf8(text).len()) + " chars"@,
                    ),
                },
            ),
            list_changed: false,
        }),
{
    reveal_strlit("selected_text");
    let entry = ("selected_text"@, JsonView::Text(text));
    law_objects_are_their_fields(entry, entry, entry);
}

/// The text that was read is answered as it is, and the record names what was read:
/// the mode, the rows from the first to the last, or the region between two corners.
pub proof fn law_read_text_is_answered_as_it_is(
    id: Seq<char>,
    mode: Option<Seq<char>>,
    a: u64,
    b: u64,
    c: u64,
    d: u64,
    text: Seq<char>,
)
    ensures
        read_screen_outcome(id, mode, text) == (OutcomeView {
            reply: Ok(text),
            interaction: Some(
                InteractionView {
                    tool: "terminal_read_screen"@,
                    terminal_id: Some(id),
                    params: seq![
                        (
                            "mode"@,
                            JsonView::Text(
                                if mode is Some {
                                    mode->0
                                } else {
                                    "full"@
                                },
                            ),
                        ),
                    ],
                    success: true,
                    summary: Some(
                        "read screen ("@ + (if mode is Some {
                            mode->0
                        } else {
                            "full"@
                        }) + ")"@,
                    ),
                },
            ),
            list_changed: false,
        }),
        show_screen_outcome(id, text) == (OutcomeView {
            reply: Ok(text),
            interaction: Some(
                InteractionView {
                    tool: "terminal_show_screen"@,
                    terminal_id: Some(id),
                    params: Seq::empty(),
                    success: true,
                    summary: Some("show screen"@),
                },
            ),
            list_changed: false,
        }),
        read_rows_outcome(id, a, b, text) == (OutcomeView {
            reply: Ok(text),
            interaction: Some(
                InteractionView {
                    tool: "terminal_read_rows"@,
                    terminal_id: Some(id),
                    params: seq![
                        ("start"@, JsonView::Count(a as nat)),
                        ("end"@, JsonView::Count(b as nat)),
                    ],
                    success: true,
                    summary: Some("rows "@ + decimal(a as nat) + "-"@ + decimal(b as nat)),
                },
            ),
            list_changed: false,
        }),
        read_region_outcome(id, a, b, c, d, text) == (OutcomeView {
            reply: Ok(text),
            interaction: Some(
                InteractionView {
                    tool: "terminal_read_region"@,
                    terminal_id: Some(id),
                    params: seq![
                        ("col1"@, JsonView::Count(a as nat)),
                        ("row1"@, JsonView::Count(b as nat)),
                        ("col2"@, JsonView::Count(c as nat)),
                        ("row2"@, JsonView::Count(d as nat)),
                    ],
                    success: true,
                    summary: Some(
                        "region "@ + ("("@ + decimal(a as nat) + ","@ + decimal(b as nat) + ")"@)
                            + " to "@ + ("("@ + decimal(c as nat) + ","@ + decimal(d as nat)
                            + ")"@),
                    ),
                },
            ),
            list_changed: false,
        }),
{
}

/// A status is answered as it was written, and the record names its state and the
/// number of lines.
pub proof fn law_status_is_answered_as_written(
    id: Seq<char>,
    lines: Option<u64>,
    state: Seq<char>,
    written: Seq<char>,
)
    ensures
        status_outcome(id, lines, state, Ok(written)) == (OutcomeView {
            reply: Ok(written),
            interaction: Some(
                InteractionView {
                    tool: "terminal_status"@,
                    terminal_id: Some(id),
                    params: seq![("last_n"@, JsonView::Count(status_lines(lines) as nat))],
                    success: true,
                    summary: Some("status ["@ + state + "]"@),
                },
            ),
            list_changed: false,
        }),
        status_outcome(id, lines, state, Err(written)).reply == Err::<Seq<char>, Seq<char>>(
            "Serialization failed: "@ + written,
        ),
        status_outcome(id, lines, state, Err(written)).interaction == status_outcome(
            id,
            lines,
            state,
            Ok(written),
        ).interaction,
{
}

/// Lists of terminals and of events are answered whole and counted.
pub proof fn law_lists_are_counted(id: Seq<char>, values: Seq<serde_json::Value>)
    ensures
        list_outcome(values) == (OutcomeView {
            reply: Ok(seq!['{'] + field("terminals"@, list_text(values)) + seq!['}']),
            interaction: Some(
                InteractionView {
                    tool: "terminal_list"@,
                    terminal_id: None,
                    params: Seq::empty(),
                    success: true,
                    summary: Some(decimal(values.len()) + " terminals"@),
                },
            ),
            list_changed: false,
        }),
        poll_events_outcome(id, values) == (OutcomeView {
            reply: Ok(seq!['{'] + field("events"@, list_text(values)) + seq!['}']),
            interaction: Some(
                InteractionView {
                    tool: "terminal_poll_events"@,
                    terminal_id: Some(id),
                    params: Seq::empty(),
                    success: true,
                    summary: Some(decimal(values.len()) + " events"@),
                },
            ),
            list_changed: false,
        }),
{
    reveal_strlit("terminals");
    reveal_strlit("events");
    let terminals = ("terminals"@, JsonView::Other(list_text(values)));
    let events = ("events"@, JsonView::Other(list_text(values)));
    law_objects_are_their_fields(terminals, terminals, terminals);
    law_objects_are_their_fields(events, events, events);
}

// ---------------------------------------------------------------------------
// Scrolling
// ---------------------------------------------------------------------------

/// Scrolling goes by its name; a search takes the text that it is given, which may not
/// be missing or empty, and any other name is refused.
pub proof fn law_scrolling_goes_by_its_name(action: Seq<char>, text: Option<Seq<char>>)
    ensures
        match scroll_action(action, text) {
            Ok(scroll) => {
                &&& scroll is PageUp <==> action == "page_up"@
                &&& scroll is PageDown <==> action == "page_down"@
                &&& scroll is Search <==> action == "search"@
                &&& scroll matches ScrollActionView::Search(needle) ==> text == Some(needle)
                    && needle.len() > 0
            },
            Err(e) => {
                &&& action != "page_up"@ && action != "page_down"@
                &&& action == "search"@ ==> e == "Missing 'text' for search"@ && (text is None
                    || text->0.len() == 0)
                &&& action != "search"@ ==> e == "Unknown scroll action: "@ + action
            },
        },
{
    reveal_strlit("page_up");
    reveal_strlit("page_down");
    reveal_strlit("search");
    assert("page_up"@.len() == 7 && "page_down"@.len() == 9 && "search"@.len() == 6);
}

/// The answer to scrolling says where it came to, and that to a search whether the
/// text was found, as it was.
pub proof fn law_search_answers_whether_it_found(offset: u64, found: bool)
    ensures
        scroll_reply(offset, Some(found)) == seq!['{'] + field(
            "scroll_offset"@,
            decimal(offset as nat),
        ) + seq![','] + field("found"@, flag_text(found)) + seq!['}'],
        scroll_reply(offset, None) == seq!['{'] + field("scroll_offset"@, decimal(offset as nat))
            + seq!['}'],
{
    reveal_strlit("scroll_offset");
    reveal_strlit("found");
    let a = ("scroll_offset"@, JsonView::Count(offset as nat));
    let b = ("found"@, JsonView::Flag(found));
    law_objects_are_their_fields(a, b, b);
}

/// Scrolling is recorded by its name and answered with where it came to.
pub proof fn law_scrolling_is_recorded(
    id: Seq<char>,
    action: Seq<char>,
    offset: u64,
    found: Option<bool>,
)
    ensures
        scroll_outcome(id, action, offset, found).reply == Ok::<Seq<char>, Seq<char>>(
            match found {
                Some(b) => seq!['{'] + field("scroll_offset"@, decimal(offset as nat)) + seq![',']
                    + field("found"@, flag_text(b)) + seq!['}'],
                None => seq!['{'] + field("scroll_offset"@, decimal(offset as nat)) + seq!['}'],
            },
        ),
        !scroll_outcome(id, action, offset, found).list_changed,
        scroll_outcome(id, action, offset, found).interaction == Some(
            InteractionView {
                tool: "terminal_scroll"@,
                terminal_id: Some(id),
                params: seq![("action"@, JsonView::Text(action))],
                success: true,
                summary: Some("scroll "@ + action),
            },
        ),
{
    law_search_answers_whether_it_found(offset, true);
    law_search_answers_whether_it_found(offset, false);
}

/// A search that found its text and one that did not are answered differently, and so
/// are two that came to different places.
pub proof fn law_search_answers_differ(offset: u64, other: u64)
    ensures
        scroll_reply(offset, Some(true)) != scroll_reply(offset, Some(false)),
        scroll_reply(offset, None) == scroll_reply(other, None) ==> offset == other,
{
    law_search_answers_whether_it_found(offset, true);
    law_search_answers_whether_it_found(offset, false);
    law_search_answers_whether_it_found(other, true);
    reveal_strlit("true");
    reveal_strlit("false");
    assert("true"@.len() == 4 && "false"@.len() == 5);
    assert(scroll_reply(offset, Some(true)).len() != scroll_reply(offset, Some(false)).len());
    if scroll_reply(offset, None) == scroll_reply(other, None) {
        let x = decimal(offset as nat);
        let y = decimal(other as nat);
        let k: int = "scroll_offset"@.len() + 4int;
        let s = scroll_reply(offset, None);
        let t = scroll_reply(other, None);
        assert(s.len() == k + x.len() + 1);
        assert(t.len() == k + y.len() + 1);
        assert(s.subrange(k, k + x.len()) =~= x);
        assert(t.subrange(k, k + y.len()) =~= y);
        law_decimals_differ(offset as nat, other as nat);
    }
}

} // verus!
