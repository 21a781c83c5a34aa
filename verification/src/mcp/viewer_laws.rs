//! What the tools that start, stop and open the viewer answer, word for word.
use vstd::prelude::*;
use vstd::string::*;

use crate::command::Platform;
use crate::json::{object_text, JsonView};
use crate::json_laws::{field, law_objects_are_their_fields};
use crate::mcp::outcome::{InteractionView, OutcomeView};
use crate::mcp::tool_laws::quoted;
use crate::mcp::viewer::{
    browser_command, opened_outcome, port_after_start, requested_port, start_decision,
    started_outcome, stop_outcome, url_text,
};
use crate::text::decimal;
use crate::text_laws::law_decimals_differ;

verus! {

/// A port that there can be is the one that the viewer is started on; a greater number
/// counts by its low 16 bits, and none stands for 8039.
pub proof fn law_the_port_asked_for_is_used(port: u64)
    ensures
        port < 65536 ==> (start_decision(None, Some(port)) matches Ok(bind) && bind as int == port
            as int),
        start_decision(None, Some(port)) matches Ok(bind) && bind as int == port as int % 65536,
        start_decision(None, None) == Ok::<u16, OutcomeView>(8039),
        requested_port(Some(port)) as int == port as int % 65536,
{
}

/// The address of the viewer is that of its port, and tells the ports apart.
pub proof fn law_addresses_tell_ports_apart(a: u16, b: u16)
    ensures
        url_text(a) == "http://localhost:"@ + decimal(a as nat),
        url_text(a) == url_text(b) ==> a == b,
{
    if url_text(a) == url_text(b) {
        let k = "http://localhost:"@.len() as int;
        assert(url_text(a).skip(k) =~= decimal(a as nat));
        assert(url_text(b).skip(k) =~= decimal(b as nat));
        law_decimals_differ(a as nat, b as nat);
    }
}

proof fn lemma_running_reply(port: u16, status: Seq<char>)
    ensures
        object_text(
            seq![
                ("url"@, JsonView::Text(url_text(port))),
                ("port"@, JsonView::Count(port as nat)),
                ("status"@, JsonView::Text(status)),
            ],
        ) == seq!['{'] + field("url"@, quoted("http://localhost:"@ + decimal(port as nat)))
            + seq![','] + field("port"@, decimal(port as nat)) + seq![','] + field(
            "status"@,
            quoted(status),
        ) + seq!['}'],
{
    reveal_strlit("url");
    reveal_strlit("port");
    reveal_strlit("status");
    law_objects_are_their_fields(
        ("url"@, JsonView::Text(url_text(port))),
        ("port"@, JsonView::Count(port as nat)),
        ("status"@, JsonView::Text(status)),
    );
}

/// A viewer that runs answers with where it runs, whatever port is asked for.
pub proof fn law_running_viewers_answer_with_their_port(bound: u16, asked: Option<u64>)
    ensures
        start_decision(Some(bound), asked) == Err::<u16, OutcomeView>(
            OutcomeView {
                reply: Ok(
                    seq!['{'] + field("url"@, quoted("http://localhost:"@ + decimal(bound as nat)))
                        + seq![','] + field("port"@, decimal(bound as nat)) + seq![','] + field(
                        "status"@,
                        quoted("already_running"@),
                    ) + seq!['}'],
                ),
                interaction: Some(
                    InteractionView {
                        tool: "viewer_start"@,
                        terminal_id: None,
                        params: seq![("port"@, JsonView::Count(bound as nat))],
                        success: true,
                        summary: Some(
                            "already running at "@ + ("http://localhost:"@ + decimal(bound as nat)),
                        ),
                    },
                ),
                list_changed: false,
            },
        ),
{
    lemma_running_reply(bound, "already_running"@);
}

/// A viewer that was started is bound to the port that it reported and answers with
/// it; one that was not stays as it was, and its error is passed on.
pub proof fn law_started_viewers_answer_with_their_port(
    bound: Option<u16>,
    port: u16,
    e: Seq<char>,
)
    ensures
        port_after_start(bound, Some(Ok(port))) == Some(port),
        port_after_start(bound, Some(Err(e))) == bound,
        port_after_start(bound, None) == bound,
        started_outcome(Some(Ok(port))) == (OutcomeView {
            reply: Ok(
                seq!['{'] + field("url"@, quoted("http://localhost:"@ + decimal(port as nat)))
                    + seq![','] + field("port"@, decimal(port as nat)) + seq![','] + field(
                    "status"@,
                    quoted("started"@),
                ) + seq!['}'],
            ),
            interaction: Some(
                InteractionView {
                    tool: "viewer_start"@,
                    terminal_id: None,
                    params: seq![("port"@, JsonView::Count(port as nat))],
                    success: true,
                    summary: Some("started at "@ + ("http://localhost:"@ + decimal(port as nat))),
                },
            ),
            list_changed: false,
        }),
        started_outcome(Some(Err(e))) == (OutcomeView {
            reply: Err(e),
            interaction: None,
            list_changed: false,
        }),
        started_outcome(None) == (OutcomeView {
            reply: Err("Viewer thread died before reporting port"@),
            interaction: None,
            list_changed: false,
        }),
{
    lemma_running_reply(port, "started"@);
}

/// Stopping says whether a viewer ran, and records the port that it had.
pub proof fn law_stopping_says_whether_it_ran(port: u16)
    ensures
        stop_outcome(Some(port)) == (OutcomeView {
            reply: Ok(
                seq!['{'] + field("success"@, "true"@) + seq![','] + field(
                    "status"@,
                    quoted("stopped"@),
                ) + seq!['}'],
            ),
            interaction: Some(
                InteractionView {
                    tool: "viewer_stop"@,
                    terminal_id: None,
                    params: seq![("port"@, JsonView::Count(port as nat))],
                    success: true,
                    summary: Some("stopped"@),
                },
            ),
            list_changed: false,
        }),
        stop_outcome(None) == (OutcomeView {
            reply: Ok(
                seq!['{'] + field("success"@, "true"@) + seq![','] + field(
                    "status"@,
                    quoted("not_running"@),
                ) + seq!['}'],
            ),
            interaction: Some(
                InteractionView {
                    tool: "viewer_stop"@,
                    terminal_id: None,
                    params: Seq::empty(),
                    success: true,
                    summary: Some("not running"@),
                },
            ),
            list_changed: false,
        }),
{
    reveal_strlit("success");
    reveal_strlit("status");
    let flag = ("success"@, JsonView::Flag(true));
    law_objects_are_their_fields(flag, ("status"@, JsonView::Text("stopped"@)), flag);
    law_objects_are_their_fields(flag, ("status"@, JsonView::Text("not_running"@)), flag);
}

/// Opening names the address that was opened, and what went wrong where it was not.
pub proof fn law_opening_names_the_address(url: Seq<char>, e: Seq<char>)
    ensures
        opened_outcome(url, Ok(())) == (OutcomeView {
            reply: Ok(
                seq!['{'] + field("url"@, quoted(url)) + seq![','] + field("opened"@, "true"@)
                    + seq!['}'],
            ),
            interaction: Some(
                InteractionView {
                    tool: "viewer_open"@,
                    terminal_id: None,
                    params: seq![("url"@, JsonView::Text(url))],
                    success: true,
                    summary: Some("opened "@ + url),
                },
            ),
            list_changed: false,
        }),
        opened_outcome(url, Err(e)) == (OutcomeView {
            reply: Ok(
                seq!['{'] + field("url"@, quoted(url)) + seq![','] + field("opened"@, "false"@)
                    + seq![','] + field("error"@, quoted(e)) + seq!['}'],
            ),
            interaction: Some(
                InteractionView {
                    tool: "viewer_open"@,
                    terminal_id: None,
                    params: seq![("url"@, JsonView::Text(url))],
                    success: false,
                    summary: Some("failed: "@ + e),
                },
            ),
            list_changed: false,
        }),
{
    reveal_strlit("url");
    reveal_strlit("opened");
    reveal_strlit("error");
    let address = ("url"@, JsonView::Text(url));
    law_objects_are_their_fields(address, ("opened"@, JsonView::Flag(true)), address);
    law_objects_are_their_fields(
        address,
        ("opened"@, JsonView::Flag(false)),
        ("error"@, JsonView::Text(e)),
    );
}

/// Wherever a browser can be opened, the address is the last argument, as it was given.
pub proof fn law_browsers_get_the_address(platform: Platform, url: Seq<char>)
    ensures
        browser_command(platform, url) is None <==> platform is Other,
        browser_command(platform, url) matches Some(command) ==> {
            &&& command.args.last() == url
            &&& platform is MacOs ==> command.program == "open"@ && command.args.len() == 1
            &&& platform is Linux ==> command.program == "xdg-open"@ && command.args.len() == 1
            &&& platform is Windows ==> command.program == "cmd"@ && command.args == seq![
                "/c"@,
                "start"@,
                url,
            ]
        },
{
}

} // verus!
