use npcterm::command::Platform;
use npcterm::mcp::outcome::Outcome;
use npcterm::mcp::viewer::{
    browser_failure, open_browser, viewer_disabled, viewer_opened, viewer_poisoned, viewer_url,
    Viewer,
};

fn expect(outcome: Outcome, reply: &str, tool: &str, params: &str, success: bool, summary: &str) {
    assert_eq!(outcome.reply, Ok(reply.to_string()));
    assert!(!outcome.list_changed);
    let record = outcome.interaction.unwrap();
    assert_eq!(record.tool, tool);
    assert_eq!(record.terminal_id, None);
    assert_eq!(record.params.to_json(), params);
    assert_eq!(record.success, success);
    assert_eq!(record.summary.as_deref(), Some(summary));
}

fn expect_failed(outcome: Outcome, message: &str) {
    assert_eq!(outcome.reply, Err(message.to_string()));
    assert!(outcome.interaction.is_none());
}

#[test]
fn a_viewer_starts_on_a_port() {
    let viewer = Viewer::new();
    assert!(viewer.must_start());
    assert_eq!(viewer.start_request(None).unwrap(), 8039);
    assert_eq!(viewer.start_request(Some(9000)).unwrap(), 9000);
    assert_eq!(viewer.start_request(Some(65537)).unwrap(), 1);
}

#[test]
fn a_started_viewer_stays() {
    let mut viewer = Viewer::new();
    expect(
        viewer.started(Some(Ok(8041))),
        "{\"url\":\"http://localhost:8041\",\"port\":8041,\"status\":\"started\"}",
        "viewer_start",
        "{\"port\":8041}",
        true,
        "started at http://localhost:8041",
    );
    assert!(!viewer.must_start());
    for asked in [None, Some(1), Some(8041)] {
        expect(
            viewer.start_request(asked).unwrap_err(),
            "{\"url\":\"http://localhost:8041\",\"port\":8041,\"status\":\"already_running\"}",
            "viewer_start",
            "{\"port\":8041}",
            true,
            "already running at http://localhost:8041",
        );
    }
    assert_eq!(viewer.port, Some(8041));
}

#[test]
fn a_viewer_can_fail_to_start() {
    let mut viewer = Viewer::new();
    expect_failed(viewer.started(None), "Viewer thread died before reporting port");
    expect_failed(viewer.started(Some(Err("in use".to_string()))), "in use");
    assert!(viewer.must_start());
    assert_eq!(viewer.start_request(None).unwrap(), 8039);
    expect_failed(viewer.open_request().unwrap_err(), "Viewer failed to start");
}

#[test]
fn a_viewer_stops_once() {
    let mut viewer = Viewer::new();
    viewer.started(Some(Ok(5000)));
    let (port, outcome) = viewer.stop();
    assert_eq!(port, Some(5000));
    expect(
        outcome,
        "{\"success\":true,\"status\":\"stopped\"}",
        "viewer_stop",
        "{\"port\":5000}",
        true,
        "stopped",
    );
    let (port, outcome) = viewer.stop();
    assert_eq!(port, None);
    expect(
        outcome,
        "{\"success\":true,\"status\":\"not_running\"}",
        "viewer_stop",
        "{}",
        true,
        "not running",
    );
    assert!(viewer.must_start());
}

#[test]
fn a_viewer_is_opened() {
    let mut viewer = Viewer::new();
    viewer.started(Some(Ok(80)));
    let url = viewer.open_request().unwrap();
    assert_eq!(url, "http://localhost:80");
    assert_eq!(viewer_url(65535), "http://localhost:65535");
    expect(
        viewer_opened(&url, Ok(())),
        "{\"url\":\"http://localhost:80\",\"opened\":true}",
        "viewer_open",
        "{\"url\":\"http://localhost:80\"}",
        true,
        "opened http://localhost:80",
    );
    expect(
        viewer_opened(&url, Err("no browser".to_string())),
        "{\"url\":\"http://localhost:80\",\"opened\":false,\"error\":\"no browser\"}",
        "viewer_open",
        "{\"url\":\"http://localhost:80\"}",
        false,
        "failed: no browser",
    );
}

#[test]
fn a_viewer_can_be_out_of_reach() {
    expect_failed(
        viewer_disabled(),
        "Viewer feature not enabled. Rebuild with --features viewer",
    );
    expect_failed(viewer_poisoned(), "Viewer handle lock poisoned");
}

#[test]
fn browsers_are_opened_by_the_platform() {
    let line = |platform| {
        open_browser(platform, "u").map(|c| format!("{} {}", c.program, c.args.join(" ")))
    };
    assert_eq!(line(Platform::MacOs), Ok("open u".to_string()));
    assert_eq!(line(Platform::Linux), Ok("xdg-open u".to_string()));
    assert_eq!(line(Platform::Windows), Ok("cmd /c start u".to_string()));
    assert_eq!(line(Platform::Other), Err("Unsupported platform".to_string()));
    assert_eq!(browser_failure("denied"), "Failed to open browser: denied");
}
