//! The web viewer: whether it runs, where, and what the tools that start, stop
//! and open it answer.
use vstd::prelude::*;
use vstd::string::*;

use crate::command::{CommandLine, CommandView, Platform};
use crate::json::{object_text, JsonObject, JsonView};
use crate::mcp::outcome::{
    failed, joined, make_failed, unit_view, Interaction, InteractionView, Outcome, OutcomeView,
};
use crate::text::{decimal, push_decimal};

verus! {

/// The port that the viewer is bound to where none is asked for.
pub const DEFAULT_VIEWER_PORT: u16 = 8039;

/// The web viewer, by the port that it is bound to while it runs.
#[derive(Debug)]
pub struct Viewer {
    pub port: Option<u16>,
}

/// Where the viewer is to be seen.
pub open spec fn url_text(port: u16) -> Seq<char> {
    "http://localhost:"@ + decimal(port as nat)
}

/// The port to bind the viewer to: the low 16 bits of what is asked for.
pub open spec fn requested_port(port: Option<u64>) -> u16 {
    match port {
        Some(port) => (port % 0x1_0000) as u16,
        None => DEFAULT_VIEWER_PORT,
    }
}

/// The record of a tool that was used on the viewer.
pub open spec fn viewer_record(
    tool: Seq<char>,
    params: Seq<(Seq<char>, JsonView)>,
    success: bool,
    summary: Seq<char>,
) -> InteractionView {
    InteractionView { tool, terminal_id: None, params, success, summary: Some(summary) }
}

/// The answer of a tool that did its work on the viewer.
pub open spec fn viewer_done(
    reply: Seq<(Seq<char>, JsonView)>,
    record: InteractionView,
) -> OutcomeView {
    OutcomeView {
        reply: Ok(object_text(reply)),
        interaction: Some(record),
        list_changed: false,
    }
}

/// What `viewer_start` answers with the viewer bound to `port`, in short and in
/// words.
pub open spec fn running_outcome(port: u16, status: Seq<char>, words: Seq<char>) -> OutcomeView {
    viewer_done(
        seq![
            ("url"@, JsonView::Text(url_text(port))),
            ("port"@, JsonView::Count(port as nat)),
            ("status"@, JsonView::Text(status)),
        ],
        viewer_record(
            "viewer_start"@,
            seq![("port"@, JsonView::Count(port as nat))],
            true,
            words + url_text(port),
        ),
    )
}

/// What `viewer_start` does with a viewer bound to `bound`: the port to start it
/// on, or its answer where it already runs.
pub open spec fn start_decision(bound: Option<u16>, port: Option<u64>) -> Result<u16, OutcomeView> {
    match bound {
        Some(bound) => Err(running_outcome(bound, "already_running"@, "already running at "@)),
        None => Ok(requested_port(port)),
    }
}

/// The port that the viewer is bound to after it was started, where it had been
/// bound to `bound` and reported `report`, if anything.
pub open spec fn port_after_start(
    bound: Option<u16>,
    report: Option<Result<u16, Seq<char>>>,
) -> Option<u16> {
    match report {
        Some(Ok(port)) => Some(port),
        _ => bound,
    }
}

/// What `viewer_start` answers after the viewer was started and reported
/// `report`, if anything.
pub open spec fn started_outcome(report: Option<Result<u16, Seq<char>>>) -> OutcomeView {
    match report {
        None => failed("Viewer thread died before reporting port"@),
        Some(Err(e)) => failed(e),
        Some(Ok(port)) => running_outcome(port, "started"@, "started at "@),
    }
}

/// What `viewer_stop` answers with a viewer bound to `bound`.
pub open spec fn stop_outcome(bound: Option<u16>) -> OutcomeView {
    match bound {
        Some(port) => viewer_done(
            seq![("success"@, JsonView::Flag(true)), ("status"@, JsonView::Text("stopped"@))],
            viewer_record(
                "viewer_stop"@,
                seq![("port"@, JsonView::Count(port as nat))],
                true,
                "stopped"@,
            ),
        ),
        None => viewer_done(
            seq![("success"@, JsonView::Flag(true)), ("status"@, JsonView::Text("not_running"@))],
            viewer_record("viewer_stop"@, Seq::empty(), true, "not running"@),
        ),
    }
}

/// What `viewer_open` answers, where opening `url` in a browser worked or gave an
/// error.
pub open spec fn opened_outcome(url: Seq<char>, opened: Result<(), Seq<char>>) -> OutcomeView {
    match opened {
        Ok(_) => viewer_done(
            seq![("url"@, JsonView::Text(url)), ("opened"@, JsonView::Flag(true))],
            viewer_record(
                "viewer_open"@,
                seq![("url"@, JsonView::Text(url))],
                true,
                "opened "@ + url,
            ),
        ),
        Err(e) => viewer_done(
            seq![
                ("url"@, JsonView::Text(url)),
                ("opened"@, JsonView::Flag(false)),
                ("error"@, JsonView::Text(e)),
            ],
            viewer_record(
                "viewer_open"@,
                seq![("url"@, JsonView::Text(url))],
                false,
                "failed: "@ + e,
            ),
        ),
    }
}

/// Where the viewer is to be seen.
pub fn viewer_url(port: u16) -> (res: String)
    ensures
        res@ == url_text(port),
{
    let mut url = "http://localhost:".to_string();
    push_decimal(&mut url, port as u64);
    url
}

/// The answer of a tool that did its work on the viewer.
fn make_viewer_done(
    reply: JsonObject,
    tool: &str,
    params: JsonObject,
    success: bool,
    summary: String,
) -> (res: Outcome)
    ensures
        res@ == viewer_done(reply@, viewer_record(tool@, params@, success, summary@)),
{
    Outcome {
        reply: Ok(reply.to_json()),
        interaction: Some(
            Interaction {
                tool: tool.to_string(),
                terminal_id: None,
                params,
                success,
                summary: Some(summary),
            },
        ),
        list_changed: false,
    }
}

/// What `viewer_start` answers with the viewer bound to `port`.
fn make_running(port: u16, status: &str, words: &str) -> (res: Outcome)
    ensures
        res@ == running_outcome(port, status@, words@),
{
    proof {
        reveal_strlit("url");
        reveal_strlit("port");
        reveal_strlit("status");
        assert("url"@.len() == 3 && "port"@.len() == 4 && "status"@.len() == 6);
    }
    let url = viewer_url(port);
    let reply = JsonObject::new().text("url", url.as_str()).count("port", port as u64).text(
        "status",
        status,
    );
    assert(reply@ =~= seq![
        ("url"@, JsonView::Text(url@)),
        ("port"@, JsonView::Count(port as nat)),
        ("status"@, JsonView::Text(status@)),
    ]);
    let params = JsonObject::new().count("port", port as u64);
    assert(params@ =~= seq![("port"@, JsonView::Count(port as nat))]);
    make_viewer_done(reply, "viewer_start", params, true, joined(words, url.as_str()))
}

/// What a report of the viewer says, as text.
pub open spec fn report_view(report: Option<Result<u16, String>>) -> Option<Result<u16, Seq<char>>> {
    match report {
        None => None,
        Some(Ok(port)) => Some(Ok(port)),
        Some(Err(e)) => Some(Err(e@)),
    }
}

impl Viewer {
    /// A viewer that does not run.
    pub fn new() -> (res: Viewer)
        ensures
            res.port is None,
    {
        Viewer { port: None }
    }

    /// The port that `viewer_start` starts the viewer on, or its answer where it
    /// already runs.
    pub fn start_request(&self, port: Option<u64>) -> (res: Result<u16, Outcome>)
        ensures
            match res {
                Ok(bind) => start_decision(self.port, port) == Ok::<u16, OutcomeView>(bind),
                Err(outcome) => start_decision(self.port, port) == Err::<u16, OutcomeView>(outcome@),
            },
    {
        match self.port {
            Some(bound) => Err(make_running(bound, "already_running", "already running at ")),
            None => match port {
                Some(port) => Ok((port % 0x1_0000) as u16),
                None => Ok(DEFAULT_VIEWER_PORT),
            },
        }
    }

    /// What `viewer_start` answers after the viewer was started and reported the
    /// port that it is bound to, an error, or nothing.
    pub fn started(&mut self, report: Option<Result<u16, String>>) -> (res: Outcome)
        ensures
            final(self).port == port_after_start(old(self).port, report_view(report)),
            res@ == started_outcome(report_view(report)),
    {
        match report {
            None => make_failed("Viewer thread died before reporting port".to_string()),
            Some(Err(e)) => make_failed(e),
            Some(Ok(port)) => {
                self.port = Some(port);
                make_running(port, "started", "started at ")
            },
        }
    }

    /// What `viewer_stop` answers. The viewer that runs, if one does, is to be shut
    /// down; it is given back by its port.
    pub fn stop(&mut self) -> (res: (Option<u16>, Outcome))
        ensures
            final(self).port is None,
            res.0 == old(self).port,
            res.1@ == stop_outcome(old(self).port),
    {
        let bound = self.port;
        self.port = None;
        proof {
            reveal_strlit("success");
            reveal_strlit("status");
        }
        match bound {
            Some(port) => {
                let reply = JsonObject::new().flag("success", true).text("status", "stopped");
                assert(reply@ =~= seq![
                    ("success"@, JsonView::Flag(true)),
                    ("status"@, JsonView::Text("stopped"@)),
                ]);
                let params = JsonObject::new().count("port", port as u64);
                assert(params@ =~= seq![("port"@, JsonView::Count(port as nat))]);
                (bound, make_viewer_done(reply, "viewer_stop", params, true, "stopped".to_string()))
            },
            None => {
                let reply = JsonObject::new().flag("success", true).text("status", "not_running");
                assert(reply@ =~= seq![
                    ("success"@, JsonView::Flag(true)),
                    ("status"@, JsonView::Text("not_running"@)),
                ]);
                (
                    None,
                    make_viewer_done(
                        reply,
                        "viewer_stop",
                        JsonObject::new(),
                        true,
                        "not running".to_string(),
                    ),
                )
            },
        }
    }

    /// Whether `viewer_open` has to start the viewer first.
    pub fn must_start(&self) -> (res: bool)
        ensures
            res == self.port is None,
    {
        self.port.is_none()
    }

    /// What `viewer_open` opens, or its answer where the viewer does not run even
    /// though it was started.
    pub fn open_request(&self) -> (res: Result<String, Outcome>)
        ensures
            match res {
                Ok(url) => self.port matches Some(port) && url@ == url_text(port),
                Err(outcome) => self.port is None && outcome@ == failed("Viewer failed to start"@),
            },
    {
        match self.port {
            Some(port) => Ok(viewer_url(port)),
            None => Err(make_failed("Viewer failed to start".to_string())),
        }
    }
}

/// What `viewer_open` answers, where opening `url` in a browser worked or gave an
/// error.
pub fn viewer_opened(url: &str, opened: Result<(), String>) -> (res: Outcome)
    ensures
        res@ == opened_outcome(url@, unit_view(opened)),
{
    proof {
        reveal_strlit("url");
        reveal_strlit("opened");
        reveal_strlit("error");
    }
    let params = JsonObject::new().text("url", url);
    assert(params@ =~= seq![("url"@, JsonView::Text(url@))]);
    match opened {
        Ok(_) => {
            let reply = JsonObject::new().text("url", url).flag("opened", true);
            assert(reply@ =~= seq![
                ("url"@, JsonView::Text(url@)),
                ("opened"@, JsonView::Flag(true)),
            ]);
            make_viewer_done(reply, "viewer_open", params, true, joined("opened ", url))
        },
        Err(e) => {
            let reply = JsonObject::new().text("url", url).flag("opened", false).text(
                "error",
                e.as_str(),
            );
            assert(reply@ =~= seq![
                ("url"@, JsonView::Text(url@)),
                ("opened"@, JsonView::Flag(false)),
                ("error"@, JsonView::Text(e@)),
            ]);
            make_viewer_done(reply, "viewer_open", params, false, joined("failed: ", e.as_str()))
        },
    }
}

/// The answer of the viewer's tools where there is no viewer to run.
pub fn viewer_disabled() -> (res: Outcome)
    ensures
        res@ == failed("Viewer feature not enabled. Rebuild with --features viewer"@),
{
    make_failed("Viewer feature not enabled. Rebuild with --features viewer".to_string())
}

/// The answer of the viewer's tools where the viewer cannot be got at.
pub fn viewer_poisoned() -> (res: Outcome)
    ensures
        res@ == failed("Viewer handle lock poisoned"@),
{
    make_failed("Viewer handle lock poisoned".to_string())
}

// ---------------------------------------------------------------------------
// The browser
// ---------------------------------------------------------------------------

/// The command that opens `url` in the browser of the system, where the platform
/// has a known one.
pub open spec fn browser_command(platform: Platform, url: Seq<char>) -> Option<CommandView> {
    match platform {
        Platform::MacOs => Some(CommandView { program: "open"@, args: seq![url] }),
        Platform::Linux => Some(CommandView { program: "xdg-open"@, args: seq![url] }),
        Platform::Windows => Some(
            CommandView { program: "cmd"@, args: seq!["/c"@, "start"@, url] },
        ),
        Platform::Other => None,
    }
}

/// How to open `url` in the browser of the system.
pub fn open_browser(platform: Platform, url: &str) -> (res: Result<CommandLine, String>)
    ensures
        match res {
            Ok(command) => browser_command(platform, url@) == Some(command@),
            Err(e) => browser_command(platform, url@) is None && e@ == "Unsupported platform"@,
        },
{
    match platform {
        Platform::MacOs => {
            let command = CommandLine::new("open").arg(url);
            assert(command@.args =~= seq![url@]);
            Ok(command)
        },
        Platform::Linux => {
            let command = CommandLine::new("xdg-open").arg(url);
            assert(command@.args =~= seq![url@]);
            Ok(command)
        },
        Platform::Windows => {
            let command = CommandLine::new("cmd").arg("/c").arg("start").arg(url);
            assert(command@.args =~= seq!["/c"@, "start"@, url@]);
            Ok(command)
        },
        Platform::Other => Err("Unsupported platform".to_string()),
    }
}

/// What is said where the browser could not be started.
pub fn browser_failure(e: &str) -> (res: String)
    ensures
        res@ == "Failed to open browser: "@ + e@,
{
    joined("Failed to open browser: ", e)
}

// ---------------------------------------------------------------------------
// Laws
// ---------------------------------------------------------------------------

/// A viewer that was started and reported its port is not started again: asked
/// for any port, it answers with the one that it has.
pub proof fn law_started_viewer_stays(bound: Option<u16>, port: u16, asked: Option<u64>)
    ensures
        start_decision(port_after_start(bound, Some(Ok(port))), asked) == Err::<u16, OutcomeView>(
            running_outcome(port, "already_running"@, "already running at "@),
        ),
{
}

/// A viewer that could not be started can be started again.
pub proof fn law_failed_start_leaves_viewer_stopped(report: Option<Result<u16, Seq<char>>>, asked: Option<u64>)
    requires
        !(report matches Some(Ok(_))),
    ensures
        port_after_start(None, report) is None,
        start_decision(port_after_start(None, report), asked) == Ok::<u16, OutcomeView>(
            requested_port(asked),
        ),
{
}

} // verus!
