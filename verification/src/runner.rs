//! A runner for a local demo: a hub and two gateways, each started as a
//! command-line process and shown in a pane with its output, its status and
//! a line of input. Starting processes is left to a backend.
use crate::cli::{trim_end_chars, trim_end_ws};
use crate::gateway::{join_path, join_path_spec};
use crate::text::{chars_of, push_str, string_of};
use vstd::prelude::*;

verus! {

/// The processes of the demo.
#[derive(Debug, Clone, Copy, PartialEq, Eq, Structural)]
pub enum ProcessKey {
    Hub,
    GatewayA,
    GatewayB,
}

/// The title of a process's pane.
pub open spec fn title_spec(k: ProcessKey) -> Seq<char> {
    match k {
        ProcessKey::Hub => "Hub"@,
        ProcessKey::GatewayA => "Gateway A"@,
        ProcessKey::GatewayB => "Gateway B"@,
    }
}

impl ProcessKey {
    /// The title of the process's pane.
    pub fn title(self) -> (r: &'static str)
        ensures
            r@ == title_spec(self),
    {
        match self {
            ProcessKey::Hub => "Hub",
            ProcessKey::GatewayA => "Gateway A",
            ProcessKey::GatewayB => "Gateway B",
        }
    }
}

/// What a running process tells: output on a channel, or a new status.
#[derive(Debug, Clone)]
pub enum RunnerEvent {
    Output { key: ProcessKey, channel: String, text: String },
    Status { key: ProcessKey, text: String },
}

/// How to start one process: which program, from where, with which
/// arguments. Paths are strings.
#[derive(Debug, Clone)]
pub struct LaunchRequest {
    pub key: ProcessKey,
    pub cli_path: String,
    pub workspace_dir: String,
    pub args: Vec<String>,
}

/// A started process.
pub trait BackendSession {
    /// Writes `line` to the process's input.
    fn send_line(&mut self, line: &str) -> Result<(), String>;

    /// Stops the process.
    fn stop(&mut self) -> Result<(), String>;
}

/// A way of starting processes.
pub trait Backend {
    /// The processes it starts.
    type Session: BackendSession;

    /// The backend's name.
    fn name(&self) -> &'static str;

    /// Starts the process that `request` describes.
    fn spawn(&self, request: LaunchRequest) -> Result<Self::Session, String>;
}

// ---------------------------------------------------------------------------
// Output of a pane
// ---------------------------------------------------------------------------

/// `s` with each `\r\n` and each other `\r` turned into `\n`.
pub open spec fn normalize_spec(s: Seq<char>) -> Seq<char>
    decreases s.len(),
{
    if s.len() == 0 {
        s
    } else if s.len() >= 2 && s[0] == '\r' && s[1] == '\n' {
        seq!['\n'] + normalize_spec(s.subrange(2, s.len() as int))
    } else if s[0] == '\r' {
        seq!['\n'] + normalize_spec(s.drop_first())
    } else {
        seq![s[0]] + normalize_spec(s.drop_first())
    }
}

/// `value` with each `\r\n` and each other `\r` turned into `\n`.
pub fn normalize_output(value: &str) -> (r: String)
    ensures
        r@ == normalize_spec(value@),
{
    let cs = chars_of(value);
    let n = cs.len();
    let mut out: Vec<char> = Vec::new();
    let mut i: usize = 0;
    assert(cs@.subrange(0, n as int) == cs@);
    while i < n
        invariant
            n == cs@.len(),
            cs@ == value@,
            i <= n,
            out@ + normalize_spec(cs@.subrange(i as int, n as int)) == normalize_spec(cs@),
        decreases n - i,
    {
        let ghost rest = cs@.subrange(i as int, n as int);
        if cs[i] == '\r' && i + 1 < n && cs[i + 1] == '\n' {
            assert(rest.subrange(2, rest.len() as int) == cs@.subrange(i + 2, n as int));
            out.push('\n');
            i = i + 2;
        } else {
            assert(rest.drop_first() == cs@.subrange(i + 1, n as int));
            if cs[i] == '\r' {
                out.push('\n');
            } else {
                out.push(cs[i]);
            }
            i = i + 1;
        }
    }
    assert(out@ + normalize_spec(cs@.subrange(n as int, n as int)) == out@);
    string_of(out.as_slice())
}

/// The lines of `t` (which holds no `\r`), each after `[channel] ` and
/// ended by a newline; `at_start` says whether a line starts here.
pub open spec fn framed_lines(channel: Seq<char>, t: Seq<char>, at_start: bool) -> Seq<char>
    decreases t.len(),
{
    if t.len() == 0 {
        if at_start {
            Seq::empty()
        } else {
            seq!['\n']
        }
    } else {
        (if at_start {
            "["@ + channel + "] "@
        } else {
            Seq::empty()
        }) + seq![t[0]] + framed_lines(channel, t.drop_first(), t[0] == '\n')
    }
}

/// A pane's output after `text` arrived on `channel`: each of its lines,
/// after `[channel] ` and ended by a newline, and one more newline when the
/// text did not end a line itself.
pub open spec fn appended_spec(out: Seq<char>, channel: Seq<char>, text: Seq<char>) -> Seq<char> {
    if text.len() == 0 {
        out
    } else {
        out + framed_lines(channel, normalize_spec(text), true) + if text.last() == '\n' || text.last() == '\r' {
            Seq::<char>::empty()
        } else {
            seq!['\n']
        }
    }
}

// ---------------------------------------------------------------------------
// Panes
// ---------------------------------------------------------------------------

/// The pane of one process.
pub struct PaneState<S> {
    pub key: ProcessKey,
    pub title: String,
    pub input: String,
    pub output: String,
    pub status: String,
    pub session: Option<S>,
}

/// The view of a [`PaneState`]: its texts, and whether its process runs.
pub struct PaneView {
    pub key: ProcessKey,
    pub title: Seq<char>,
    pub input: Seq<char>,
    pub output: Seq<char>,
    pub status: Seq<char>,
    pub running: bool,
}

impl<S> View for PaneState<S> {
    type V = PaneView;

    open spec fn view(&self) -> PaneView {
        PaneView {
            key: self.key,
            title: self.title@,
            input: self.input@,
            output: self.output@,
            status: self.status@,
            running: self.session is Some,
        }
    }
}

/// The idle pane of the process `key`.
pub open spec fn idle_pane(key: ProcessKey) -> PaneView {
    PaneView { key, title: title_spec(key), input: Seq::empty(), output: Seq::empty(), status: "idle"@, running: false }
}

impl<S> PaneState<S> {
    /// The idle pane of the process `key`.
    pub fn new(key: ProcessKey) -> (r: Self)
        ensures
            r@ == idle_pane(key),
    {
        PaneState {
            key,
            title: key.title().to_owned(),
            input: String::new(),
            output: String::new(),
            status: "idle".to_owned(),
            session: None,
        }
    }

    /// Adds `text`, which arrived on `channel`, to the output.
    pub fn append_output(&mut self, channel: &str, text: &str)
        ensures
            final(self)@ == (PaneView { output: appended_spec(old(self)@.output, channel@, text@), ..old(self)@ }),
    {
        let tc = chars_of(text);
        if tc.len() == 0 {
            return;
        }
        let normalized = normalize_output(text);
        let t = chars_of(normalized.as_str());
        let n = t.len();
        let mut out = chars_of(self.output.as_str());
        let ghost start = out@;
        let mut at_start = true;
        let mut i: usize = 0;
        assert(t@.subrange(0, n as int) == t@);
        while i < n
            invariant
                n == t@.len(),
                i <= n,
                out@ + framed_lines(channel@, t@.subrange(i as int, n as int), at_start) == start
                    + framed_lines(channel@, t@, true),
            decreases n - i,
        {
            let ghost rest = t@.subrange(i as int, n as int);
            let ghost before = out@;
            assert(rest.drop_first() == t@.subrange(i + 1, n as int));
            if at_start {
                push_str(&mut out, "[");
                push_str(&mut out, channel);
                push_str(&mut out, "] ");
            }
            out.push(t[i]);
            proof {
                let head = if at_start { "["@ + channel@ + "] "@ } else { Seq::<char>::empty() };
                assert(out@ == before + head + seq![rest[0]]);
            }
            at_start = t[i] == '\n';
            i = i + 1;
        }
        assert(t@.subrange(n as int, n as int) =~= Seq::<char>::empty());
        if !at_start {
            out.push('\n');
        }
        assert(out@ == start + framed_lines(channel@, t@, true));
        let last = tc[tc.len() - 1];
        if last != '\n' && last != '\r' {
            out.push('\n');
        }
        proof {
            assert(tc@.last() == text@.last());
            assert(t@ == normalize_spec(text@));
            assert(start == old(self)@.output);
            assert(text@.len() > 0);
            if last != '\n' && last != '\r' {
                assert(out@ == old(self)@.output + framed_lines(channel@, normalize_spec(text@), true) + seq!['\n']);
            } else {
                assert(out@ == old(self)@.output + framed_lines(channel@, normalize_spec(text@), true) + Seq::<char>::empty());
            }
            assert(out@ == appended_spec(old(self)@.output, channel@, text@));
        }
        self.output = string_of(out.as_slice());
    }
}

// ---------------------------------------------------------------------------
// The runner
// ---------------------------------------------------------------------------

/// The workspace root seen from the runner's own directory `runner_dir`:
/// three levels up, in the canonical form `canonical` that the file system
/// gives for that path when it gives one.
pub fn openhanse_root(runner_dir: &str, canonical: Option<String>) -> (r: String)
    ensures
        r@ == match canonical {
            Some(c) => c@,
            None => join_path_spec(runner_dir@, "../../.."@),
        },
{
    match canonical {
        Some(c) => c,
        None => join_path(runner_dir, "../../.."),
    }
}

/// The program the runner starts, under the workspace `root`.
pub open spec fn cli_path_spec(root: Seq<char>) -> Seq<char> {
    join_path_spec(root, "Source/openhanse-cli/Artefact/openhanse-cli-macos-apple-silicon"@)
}

/// The program the runner starts, under the workspace `root`.
pub fn default_cli_path(root: &str) -> (r: String)
    ensures
        r@ == cli_path_spec(root@),
{
    join_path(root, "Source/openhanse-cli/Artefact/openhanse-cli-macos-apple-silicon")
}

/// The runner: the backend, what to start, and the three panes.
pub struct RunnerApp<B: Backend> {
    pub backend: B,
    pub cli_path: String,
    pub server_url: String,
    pub gateway_host: String,
    pub workspace_dir: String,
    pub panes: Vec<PaneState<B::Session>>,
}

/// The position of a process's pane.
pub open spec fn pane_index(k: ProcessKey) -> int {
    match k {
        ProcessKey::Hub => 0,
        ProcessKey::GatewayA => 1,
        ProcessKey::GatewayB => 2,
    }
}

/// The views of a sequence of panes.
pub open spec fn panes_view<S>(s: Seq<PaneState<S>>) -> Seq<PaneView> {
    s.map_values(|p: PaneState<S>| p@)
}

/// Whether the panes are the hub's, then gateway A's, then gateway B's.
pub open spec fn panes_wf(p: Seq<PaneView>) -> bool {
    &&& p.len() == 3
    &&& p[0].key == ProcessKey::Hub
    &&& p[1].key == ProcessKey::GatewayA
    &&& p[2].key == ProcessKey::GatewayB
}

/// The pane `p` once `line` has been written to its process: the line is
/// echoed as input and the input field is emptied.
pub open spec fn input_sent(p: PaneView, line: Seq<char>) -> PaneView {
    PaneView { output: p.output + "[stdin] "@ + line + "\n"@, input: Seq::empty(), ..p }
}

/// The pane `p` once writing to its process failed with error `e`: the
/// error is shown and the input is kept.
pub open spec fn input_failed(p: PaneView, e: Seq<char>) -> PaneView {
    PaneView { output: p.output + "[error] failed to send input: "@ + e + "\n"@, ..p }
}

/// The pane `p` once its process has started on a backend named `name`.
pub open spec fn started_pane(p: PaneView, name: Seq<char>) -> PaneView {
    PaneView { status: "running ("@ + name + ")"@, running: true, ..p }
}

/// What an attempt to start the process of pane `before` may leave as
/// `after`: a running pane stays as it was; any other either stays as it
/// was (the backend could not start the process) or runs, with the
/// backend's name in its status.
pub open spec fn start_outcome(before: PaneView, after: PaneView) -> bool {
    if before.running {
        after == before
    } else {
        after == before || exists|name: Seq<char>| after == #[trigger] started_pane(before, name)
    }
}

/// The panes after event `e`.
pub open spec fn apply_event(p: Seq<PaneView>, e: RunnerEvent) -> Seq<PaneView> {
    match e {
        RunnerEvent::Output { key, channel, text } => p.update(
            pane_index(key),
            PaneView { output: appended_spec(p[pane_index(key)].output, channel@, text@), ..p[pane_index(key)] },
        ),
        RunnerEvent::Status { key, text } => p.update(pane_index(key), PaneView { status: text@, ..p[pane_index(key)] }),
    }
}

/// The panes after the events `es`, in order.
pub open spec fn apply_events(p: Seq<PaneView>, es: Seq<RunnerEvent>) -> Seq<PaneView>
    decreases es.len(),
{
    if es.len() == 0 {
        p
    } else {
        apply_event(apply_events(p, es.drop_last()), es.last())
    }
}

/// The arguments that start process `k` against the hub at `server` with
/// gateways bound to `host`.
pub open spec fn args_spec(k: ProcessKey, server: Seq<char>, host: Seq<char>) -> Seq<Seq<char>> {
    match k {
        ProcessKey::Hub => seq!["--id"@, "hub"@, "--peer-mode"@, "hub"@, "--server"@, server],
        ProcessKey::GatewayA => seq![
            "--id"@,
            "gateway-a"@,
            "--target"@,
            "gateway-b"@,
            "--peer-mode"@,
            "gateway"@,
            "--server"@,
            server,
            "--host"@,
            host,
        ],
        ProcessKey::GatewayB => seq![
            "--id"@,
            "gateway-b"@,
            "--target"@,
            "gateway-a"@,
            "--peer-mode"@,
            "gateway"@,
            "--server"@,
            server,
            "--host"@,
            host,
        ],
    }
}

/// The character sequences of a list of strings.
pub open spec fn strings_view(v: Seq<String>) -> Seq<Seq<char>> {
    v.map_values(|s: String| s@)
}

fn push_string(v: &mut Vec<String>, s: &str)
    ensures
        strings_view(final(v)@) == strings_view(old(v)@).push(s@),
{
    let ghost before = v@;
    v.push(s.to_owned());
    assert(strings_view(v@) =~= strings_view(before).push(s@));
}

impl<B: Backend> RunnerApp<B> {
    /// The views of the panes.
    pub open spec fn panes_spec(&self) -> Seq<PaneView> {
        panes_view(self.panes@)
    }

    /// A runner with `backend` for the workspace at `workspace_dir`: it
    /// starts the workspace's command-line program against a hub on the
    /// local host, and all panes are idle.
    pub fn new(backend: B, workspace_dir: String) -> (r: Self)
        ensures
            r.cli_path@ == cli_path_spec(workspace_dir@),
            r.server_url@ == "http://127.0.0.1:8080"@,
            r.gateway_host@ == "127.0.0.1"@,
            r.workspace_dir@ == workspace_dir@,
            r.panes_spec() == seq![idle_pane(ProcessKey::Hub), idle_pane(ProcessKey::GatewayA), idle_pane(ProcessKey::GatewayB)],
            panes_wf(r.panes_spec()),
    {
        let cli_path = default_cli_path(workspace_dir.as_str());
        let mut panes: Vec<PaneState<B::Session>> = Vec::new();
        let hub = PaneState::new(ProcessKey::Hub);
        let a = PaneState::new(ProcessKey::GatewayA);
        let b = PaneState::new(ProcessKey::GatewayB);
        let ghost (hv, av, bv) = (hub@, a@, b@);
        panes.push(hub);
        panes.push(a);
        panes.push(b);
        assert(panes_view(panes@) =~= seq![hv, av, bv]);
        RunnerApp {
            backend,
            cli_path,
            server_url: "http://127.0.0.1:8080".to_owned(),
            gateway_host: "127.0.0.1".to_owned(),
            workspace_dir,
            panes,
        }
    }

    /// The arguments that start process `key`.
    pub fn args_for(&self, key: ProcessKey) -> (r: Vec<String>)
        ensures
            strings_view(r@) == args_spec(key, self.server_url@, self.gateway_host@),
    {
        let mut v: Vec<String> = Vec::new();
        assert(strings_view(v@) =~= Seq::<Seq<char>>::empty());
        match key {
            ProcessKey::Hub => {
                push_string(&mut v, "--id");
                push_string(&mut v, "hub");
                push_string(&mut v, "--peer-mode");
                push_string(&mut v, "hub");
                push_string(&mut v, "--server");
                push_string(&mut v, self.server_url.as_str());
            },
            ProcessKey::GatewayA => {
                push_string(&mut v, "--id");
                push_string(&mut v, "gateway-a");
                push_string(&mut v, "--target");
                push_string(&mut v, "gateway-b");
                push_string(&mut v, "--peer-mode");
                push_string(&mut v, "gateway");
                push_string(&mut v, "--server");
                push_string(&mut v, self.server_url.as_str());
                push_string(&mut v, "--host");
                push_string(&mut v, self.gateway_host.as_str());
            },
            ProcessKey::GatewayB => {
                push_string(&mut v, "--id");
                push_string(&mut v, "gateway-b");
                push_string(&mut v, "--target");
                push_string(&mut v, "gateway-a");
                push_string(&mut v, "--peer-mode");
                push_string(&mut v, "gateway");
                push_string(&mut v, "--server");
                push_string(&mut v, self.server_url.as_str());
                push_string(&mut v, "--host");
                push_string(&mut v, self.gateway_host.as_str());
            },
        }
        v
    }

    /// What starting process `key` hands to the backend.
    pub fn launch_request(&self, key: ProcessKey) -> (r: LaunchRequest)
        ensures
            r.key == key,
            r.cli_path@ == self.cli_path@,
            r.workspace_dir@ == self.workspace_dir@,
            strings_view(r.args@) == args_spec(key, self.server_url@, self.gateway_host@),
    {
        LaunchRequest {
            key,
            cli_path: self.cli_path.clone(),
            workspace_dir: self.workspace_dir.clone(),
            args: self.args_for(key),
        }
    }

    /// Applies what the processes told, in order.
    pub fn process_events(&mut self, events: Vec<RunnerEvent>)
        requires
            panes_wf(old(self).panes_spec()),
        ensures
            final(self).panes_spec() == apply_events(old(self).panes_spec(), events@),
            final(self).cli_path == old(self).cli_path,
            final(self).server_url == old(self).server_url,
            final(self).gateway_host == old(self).gateway_host,
            final(self).workspace_dir == old(self).workspace_dir,
    {
        let n = events.len();
        let mut i: usize = 0;
        assert(events@.take(0) =~= Seq::<RunnerEvent>::empty());
        while i < n
            invariant
                n == events@.len(),
                i <= n,
                self.panes_spec() == apply_events(old(self).panes_spec(), events@.take(i as int)),
                panes_wf(self.panes_spec()),
                self.cli_path == old(self).cli_path,
                self.server_url == old(self).server_url,
                self.gateway_host == old(self).gateway_host,
                self.workspace_dir == old(self).workspace_dir,
            decreases n - i,
        {
            assert(events@.take(i + 1).drop_last() == events@.take(i as int));
            let ghost before = self.panes_spec();
            match &events[i] {
                RunnerEvent::Output { key, channel, text } => {
                    let k = pane_position(*key);
                    self.panes[k].append_output(channel.as_str(), text.as_str());
                },
                RunnerEvent::Status { key, text } => {
                    let k = pane_position(*key);
                    self.panes[k].status = text.clone();
                },
            }
            assert(self.panes_spec() =~= apply_event(before, events@[i as int]));
            i = i + 1;
        }
        assert(events@.take(n as int) == events@);
    }

    /// Records the outcome of starting process `key` on a backend named
    /// `backend_name`: a started process runs in its pane.
    pub fn record_started(&mut self, key: ProcessKey, outcome: Result<B::Session, String>, backend_name: &str) -> (r: Result<(), String>)
        requires
            panes_wf(old(self).panes_spec()),
        ensures
            panes_wf(final(self).panes_spec()),
            final(self).cli_path == old(self).cli_path,
            final(self).server_url == old(self).server_url,
            final(self).gateway_host == old(self).gateway_host,
            final(self).workspace_dir == old(self).workspace_dir,
            match outcome {
                Ok(_) => r is Ok && final(self).panes_spec() == old(self).panes_spec().update(
                    pane_index(key),
                    PaneView {
                        status: "running ("@ + backend_name@ + ")"@,
                        running: true,
                        ..old(self).panes_spec()[pane_index(key)]
                    },
                ),
                Err(e) => r == Err::<(), String>(e) && final(self).panes_spec() == old(self).panes_spec(),
            },
    {
        match outcome {
            Ok(session) => {
                let k = pane_position(key);
                let ghost before = self.panes_spec();
                let mut m: Vec<char> = Vec::new();
                push_str(&mut m, "running (");
                push_str(&mut m, backend_name);
                push_str(&mut m, ")");
                self.panes[k].status = string_of(m.as_slice());
                self.panes[k].session = Some(session);
                assert(self.panes_spec() =~= before.update(
                    pane_index(key),
                    PaneView { status: "running ("@ + backend_name@ + ")"@, running: true, ..before[pane_index(key)] },
                ));
                Ok(())
            },
            Err(e) => Err(e),
        }
    }

    /// Starts process `key` unless it runs already.
    pub fn start_process(&mut self, key: ProcessKey) -> (r: Result<(), String>)
        requires
            panes_wf(old(self).panes_spec()),
        ensures
            panes_wf(final(self).panes_spec()),
            final(self).cli_path == old(self).cli_path,
            final(self).server_url == old(self).server_url,
            final(self).gateway_host == old(self).gateway_host,
            final(self).workspace_dir == old(self).workspace_dir,
            start_outcome(old(self).panes_spec()[pane_index(key)], final(self).panes_spec()[pane_index(key)]),
            old(self).panes_spec()[pane_index(key)].running ==> r is Ok && final(self).panes_spec() == old(self).panes_spec(),
            r is Err ==> final(self).panes_spec() == old(self).panes_spec(),
            r is Ok ==> final(self).panes_spec()[pane_index(key)].running,
            forall|i: int| 0 <= i < 3 && i != pane_index(key) ==> #[trigger] final(self).panes_spec()[i] == old(self).panes_spec()[i],
    {
        let k = pane_position(key);
        if self.panes[k].session.is_some() {
            return Ok(());
        }
        let request = self.launch_request(key);
        let outcome = self.backend.spawn(request);
        let name = self.backend.name();
        let ghost before = self.panes_spec();
        let ghost spawned = outcome is Ok;
        let r = self.record_started(key, outcome, name);
        proof {
            if spawned {
                assert(self.panes_spec()[pane_index(key)] == started_pane(before[pane_index(key)], name@));
            }
        }
        r
    }

    /// Starts all processes that do not run; a pane whose process could
    /// not be started stays as it was.
    pub fn start_all(&mut self)
        requires
            panes_wf(old(self).panes_spec()),
        ensures
            panes_wf(final(self).panes_spec()),
            final(self).cli_path == old(self).cli_path,
            final(self).server_url == old(self).server_url,
            final(self).gateway_host == old(self).gateway_host,
            final(self).workspace_dir == old(self).workspace_dir,
            forall|i: int|
                0 <= i < 3 ==> start_outcome(old(self).panes_spec()[i], #[trigger] final(self).panes_spec()[i]),
    {
        let ghost p0 = self.panes_spec();
        let _ = self.start_process(ProcessKey::Hub);
        let ghost p1 = self.panes_spec();
        let _ = self.start_process(ProcessKey::GatewayA);
        let ghost p2 = self.panes_spec();
        let _ = self.start_process(ProcessKey::GatewayB);
        assert(self.panes_spec()[0] == p1[0] && p2[0] == p1[0]);
        assert(self.panes_spec()[1] == p2[1] && p1[1] == p0[1]);
        assert(p2[2] == p0[2] && p1[2] == p0[2]);
    }

    /// Stops process `key`, if it runs, and marks its pane stopped.
    pub fn stop_process(&mut self, key: ProcessKey)
        requires
            panes_wf(old(self).panes_spec()),
        ensures
            panes_wf(final(self).panes_spec()),
            final(self).panes_spec() == old(self).panes_spec().update(
                pane_index(key),
                PaneView { status: "stopped"@, running: false, ..old(self).panes_spec()[pane_index(key)] },
            ),
    {
        let k = pane_position(key);
        let ghost before = self.panes_spec();
        let taken = self.panes[k].session.take();
        match taken {
            Some(mut session) => {
                let _ = session.stop();
            },
            None => {},
        }
        self.panes[k].status = "stopped".to_owned();
        assert(self.panes_spec() =~= before.update(
            pane_index(key),
            PaneView { status: "stopped"@, running: false, ..before[pane_index(key)] },
        ));
    }

    /// Stops all processes.
    pub fn stop_all(&mut self)
        requires
            panes_wf(old(self).panes_spec()),
        ensures
            panes_wf(final(self).panes_spec()),
            forall|i: int| 0 <= i < 3 ==> !(#[trigger] final(self).panes_spec()[i]).running && final(self).panes_spec()[i].status == "stopped"@,
    {
        self.stop_process(ProcessKey::Hub);
        self.stop_process(ProcessKey::GatewayA);
        self.stop_process(ProcessKey::GatewayB);
    }

    /// The line typed in the pane of `key`, without trailing white space;
    /// none when that leaves nothing.
    pub fn input_line(&self, key: ProcessKey) -> (r: Option<String>)
        requires
            panes_wf(self.panes_spec()),
        ensures
            match r {
                Some(l) => l@ == trim_end_ws(self.panes_spec()[pane_index(key)].input) && l@.len() > 0,
                None => trim_end_ws(self.panes_spec()[pane_index(key)].input).len() == 0,
            },
    {
        let k = pane_position(key);
        let mut v = chars_of(self.panes[k].input.as_str());
        trim_end_chars(&mut v);
        if v.len() == 0 {
            None
        } else {
            Some(string_of(v.as_slice()))
        }
    }

    /// Records the outcome of writing `line` to the process of `key`: a
    /// written line shows as input and the input field clears; a failure
    /// shows as an error.
    pub fn record_input(&mut self, key: ProcessKey, line: &str, outcome: Result<(), String>)
        requires
            panes_wf(old(self).panes_spec()),
        ensures
            panes_wf(final(self).panes_spec()),
            final(self).panes_spec() == old(self).panes_spec().update(
                pane_index(key),
                match outcome {
                    Ok(_) => PaneView {
                        output: old(self).panes_spec()[pane_index(key)].output + "[stdin] "@ + line@ + "\n"@,
                        input: Seq::empty(),
                        ..old(self).panes_spec()[pane_index(key)]
                    },
                    Err(e) => PaneView {
                        output: old(self).panes_spec()[pane_index(key)].output + "[error] failed to send input: "@ + e@
                            + "\n"@,
                        ..old(self).panes_spec()[pane_index(key)]
                    },
                },
            ),
    {
        let k = pane_position(key);
        let ghost before = self.panes_spec();
        let mut out = chars_of(self.panes[k].output.as_str());
        match outcome {
            Ok(()) => {
                push_str(&mut out, "[stdin] ");
                push_str(&mut out, line);
                push_str(&mut out, "\n");
                self.panes[k].output = string_of(out.as_slice());
                self.panes[k].input = String::new();
            },
            Err(e) => {
                push_str(&mut out, "[error] failed to send input: ");
                push_str(&mut out, e.as_str());
                push_str(&mut out, "\n");
                self.panes[k].output = string_of(out.as_slice());
            },
        }
        assert(self.panes_spec() =~= before.update(
            pane_index(key),
            match outcome {
                Ok(_) => PaneView {
                    output: before[pane_index(key)].output + "[stdin] "@ + line@ + "\n"@,
                    input: Seq::empty(),
                    ..before[pane_index(key)]
                },
                Err(e) => PaneView {
                    output: before[pane_index(key)].output + "[error] failed to send input: "@ + e@ + "\n"@,
                    ..before[pane_index(key)]
                },
            },
        ));
    }

    /// Writes the line typed in the pane of `key`, without trailing white
    /// space, to its process: nothing happens for an empty line, a pane
    /// without a process says so, and otherwise the pane echoes the line
    /// and clears its input, or shows the error that writing gave.
    pub fn send_input(&mut self, key: ProcessKey)
        requires
            panes_wf(old(self).panes_spec()),
        ensures
            panes_wf(final(self).panes_spec()),
            trim_end_ws(old(self).panes_spec()[pane_index(key)].input).len() == 0 ==> final(self).panes_spec()
                == old(self).panes_spec(),
            trim_end_ws(old(self).panes_spec()[pane_index(key)].input).len() > 0 && !old(self).panes_spec()[pane_index(
                key,
            )].running ==> final(self).panes_spec() == old(self).panes_spec().update(
                pane_index(key),
                PaneView {
                    output: old(self).panes_spec()[pane_index(key)].output + "[info] process is not running\n"@,
                    ..old(self).panes_spec()[pane_index(key)]
                },
            ),
            trim_end_ws(old(self).panes_spec()[pane_index(key)].input).len() > 0 && old(self).panes_spec()[pane_index(
                key,
            )].running ==> {
                let p = old(self).panes_spec()[pane_index(key)];
                ||| final(self).panes_spec() == old(self).panes_spec().update(
                    pane_index(key),
                    input_sent(p, trim_end_ws(p.input)),
                )
                ||| exists|e: Seq<char>|
                    final(self).panes_spec() == old(self).panes_spec().update(
                        pane_index(key),
                        #[trigger] input_failed(p, e),
                    )
            },
            forall|i: int| 0 <= i < 3 && i != pane_index(key) ==> #[trigger] final(self).panes_spec()[i] == old(self).panes_spec()[i],
    {
        let line = match self.input_line(key) {
            Some(l) => l,
            None => return,
        };
        let k = pane_position(key);
        let ghost before = self.panes_spec();
        let outcome = match self.panes[k].session.as_mut() {
            Some(session) => Some(session.send_line(line.as_str())),
            None => None,
        };
        assert(self.panes_spec() =~= before);
        match outcome {
            Some(o) => {
                let ghost sent = o;
                self.record_input(key, line.as_str(), o);
                proof {
                    match sent {
                        Ok(_) => {
                            assert(self.panes_spec() == before.update(
                                pane_index(key),
                                input_sent(before[pane_index(key)], line@),
                            ));
                        },
                        Err(e) => {
                            assert(self.panes_spec() == before.update(
                                pane_index(key),
                                input_failed(before[pane_index(key)], e@),
                            ));
                        },
                    }
                }
            },
            None => {
                let mut out = chars_of(self.panes[k].output.as_str());
                push_str(&mut out, "[info] process is not running\n");
                self.panes[k].output = string_of(out.as_slice());
                assert(self.panes_spec() =~= before.update(
                    pane_index(key),
                    PaneView { output: before[pane_index(key)].output + "[info] process is not running\n"@, ..before[pane_index(key)] },
                ));
            },
        }
    }

    /// Empties the output of the pane of `key`.
    pub fn clear_output(&mut self, key: ProcessKey)
        requires
            panes_wf(old(self).panes_spec()),
        ensures
            panes_wf(final(self).panes_spec()),
            final(self).panes_spec() == old(self).panes_spec().update(
                pane_index(key),
                PaneView { output: Seq::empty(), ..old(self).panes_spec()[pane_index(key)] },
            ),
    {
        let k = pane_position(key);
        let ghost before = self.panes_spec();
        self.panes[k].output = String::new();
        assert(self.panes_spec() =~= before.update(
            pane_index(key),
            PaneView { output: Seq::empty(), ..before[pane_index(key)] },
        ));
    }
}

/// The position of a process's pane.
fn pane_position(key: ProcessKey) -> (r: usize)
    ensures
        r == pane_index(key),
{
    match key {
        ProcessKey::Hub => 0,
        ProcessKey::GatewayA => 1,
        ProcessKey::GatewayB => 2,
    }
}

} // verus!
