use openhanse::runner::{
    default_cli_path, normalize_output, Backend, BackendSession, LaunchRequest, PaneState, ProcessKey, RunnerApp,
    RunnerEvent,
};
use std::sync::{Arc, Mutex};

struct FakeSession {
    fail: bool,
    lines: Arc<Mutex<Vec<String>>>,
}

impl BackendSession for FakeSession {
    fn send_line(&mut self, line: &str) -> Result<(), String> {
        if self.fail {
            return Err("pipe closed".to_string());
        }
        self.lines.lock().expect("lock").push(line.to_string());
        Ok(())
    }

    fn stop(&mut self) -> Result<(), String> {
        Ok(())
    }
}

struct FakeBackend {
    refuse: bool,
    fail_input: bool,
    requests: Arc<Mutex<Vec<LaunchRequest>>>,
    lines: Arc<Mutex<Vec<String>>>,
}

impl Backend for FakeBackend {
    type Session = FakeSession;

    fn name(&self) -> &'static str {
        "fake"
    }

    fn spawn(&self, request: LaunchRequest) -> Result<FakeSession, String> {
        if self.refuse {
            return Err("no such program".to_string());
        }
        self.requests.lock().expect("lock").push(request);
        Ok(FakeSession { fail: self.fail_input, lines: self.lines.clone() })
    }
}

fn app(refuse: bool, fail_input: bool) -> (RunnerApp<FakeBackend>, Arc<Mutex<Vec<LaunchRequest>>>, Arc<Mutex<Vec<String>>>) {
    let requests = Arc::new(Mutex::new(Vec::new()));
    let lines = Arc::new(Mutex::new(Vec::new()));
    let backend = FakeBackend { refuse, fail_input, requests: requests.clone(), lines: lines.clone() };
    (RunnerApp::new(backend, "/ws".to_string()), requests, lines)
}

#[test]
fn titles_name_the_processes() {
    assert_eq!(ProcessKey::Hub.title(), "Hub");
    assert_eq!(ProcessKey::GatewayB.title(), "Gateway B");
}

#[test]
fn a_new_runner_has_three_idle_panes() {
    let (app, _, _) = app(false, false);
    assert_eq!(app.cli_path, "/ws/Source/openhanse-cli/Artefact/openhanse-cli-macos-apple-silicon");
    assert_eq!(app.panes.len(), 3);
    assert_eq!(app.panes[1].title, "Gateway A");
    assert_eq!(app.panes[2].status, "idle");
    assert_eq!(default_cli_path("/x/"), "/x/Source/openhanse-cli/Artefact/openhanse-cli-macos-apple-silicon");
}

#[test]
fn gateways_start_with_target_server_and_host() {
    let (app, _, _) = app(false, false);
    assert_eq!(app.args_for(ProcessKey::Hub), vec!["--id", "hub", "--peer-mode", "hub", "--server", "http://127.0.0.1:8080"]);
    assert_eq!(
        app.args_for(ProcessKey::GatewayB),
        vec![
            "--id", "gateway-b", "--target", "gateway-a", "--peer-mode", "gateway", "--server",
            "http://127.0.0.1:8080", "--host", "127.0.0.1"
        ]
    );
}

#[test]
fn starting_spawns_once_and_marks_running() {
    let (mut app, requests, _) = app(false, false);
    assert!(app.start_process(ProcessKey::GatewayA).is_ok());
    assert!(app.start_process(ProcessKey::GatewayA).is_ok());
    assert_eq!(requests.lock().expect("lock").len(), 1);
    let request = requests.lock().expect("lock")[0].clone();
    assert_eq!(request.key, ProcessKey::GatewayA);
    assert_eq!(request.workspace_dir, "/ws");
    assert_eq!(request.args[1], "gateway-a");
    assert_eq!(app.panes[1].status, "running (fake)");
    app.stop_process(ProcessKey::GatewayA);
    assert_eq!(app.panes[1].status, "stopped");
    assert!(app.panes[1].session.is_none());
}

#[test]
fn a_refused_spawn_leaves_the_pane_idle() {
    let (mut app, _, _) = app(true, false);
    assert_eq!(app.start_process(ProcessKey::Hub), Err("no such program".to_string()));
    assert_eq!(app.panes[0].status, "idle");
}

#[test]
fn typed_lines_go_to_running_processes() {
    let (mut app, _, lines) = app(false, false);
    app.panes[0].input = "/status  \t".to_string();
    app.send_input(ProcessKey::Hub);
    assert_eq!(app.panes[0].output, "[info] process is not running\n");
    app.start_all();
    app.send_input(ProcessKey::Hub);
    assert_eq!(lines.lock().expect("lock").as_slice(), ["/status".to_string()]);
    assert_eq!(app.panes[0].input, "");
    assert!(app.panes[0].output.ends_with("[stdin] /status\n"));
    app.send_input(ProcessKey::Hub);
    assert_eq!(lines.lock().expect("lock").len(), 1);
    app.clear_output(ProcessKey::Hub);
    assert_eq!(app.panes[0].output, "");
    app.stop_all();
    assert!(app.panes.iter().all(|p| p.status == "stopped"));
}

#[test]
fn failed_input_is_reported() {
    let (mut app, _, _) = app(false, true);
    app.start_process(ProcessKey::GatewayB).expect("start");
    app.panes[2].input = "hello".to_string();
    app.send_input(ProcessKey::GatewayB);
    assert_eq!(app.panes[2].output, "[error] failed to send input: pipe closed\n");
    assert_eq!(app.panes[2].input, "hello");
}

#[test]
fn output_is_framed_by_line() {
    let mut pane: PaneState<FakeSession> = PaneState::new(ProcessKey::Hub);
    pane.append_output("stdout", "");
    assert_eq!(pane.output, "");
    pane.append_output("stdout", "a\r\nb\rc\n");
    assert_eq!(pane.output, "[stdout] a\n[stdout] b\n[stdout] c\n");
    pane.append_output("stderr", "partial");
    assert_eq!(pane.output, "[stdout] a\n[stdout] b\n[stdout] c\n[stderr] partial\n\n");
    assert_eq!(normalize_output("x\r\r\ny"), "x\n\ny");
}

#[test]
fn events_reach_their_panes() {
    let (mut app, _, _) = app(false, false);
    app.process_events(vec![
        RunnerEvent::Output { key: ProcessKey::GatewayB, channel: "pty".to_string(), text: "ready\n".to_string() },
        RunnerEvent::Status { key: ProcessKey::Hub, text: "exited".to_string() },
    ]);
    assert_eq!(app.panes[2].output, "[pty] ready\n");
    assert_eq!(app.panes[0].status, "exited");
}

#[test]
fn the_workspace_root_is_three_levels_up_unless_canonical() {
    assert_eq!(openhanse::runner::openhanse_root("/a/b/c/d", None), "/a/b/c/d/../../..");
    assert_eq!(openhanse::runner::openhanse_root("/a/b/c/d", Some("/a".to_string())), "/a");
}

#[test]
fn starting_all_starts_each_idle_pane_once() {
    let (mut app, requests, _) = app(false, false);
    assert!(app.start_process(ProcessKey::Hub).is_ok());
    app.start_all();
    assert_eq!(requests.lock().expect("lock").len(), 3);
    for pane in app.panes.iter() {
        assert_eq!(pane.status, "running (fake)");
        assert!(pane.session.is_some());
    }
}

#[test]
fn starting_all_on_a_refusing_backend_changes_nothing() {
    let (mut app, _, _) = app(true, false);
    app.start_all();
    for pane in app.panes.iter() {
        assert_eq!(pane.status, "idle");
        assert!(pane.session.is_none());
    }
}
