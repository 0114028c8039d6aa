use crate::runner::{describe_failure, failure_text};
use crate::streamer::{line_text, line_text_of, strip_line_end, without_line_end, SinkEvent, StreamKind};
use vstd::prelude::*;
use vstd::string::StringSliceAdditionalSpecFns;

verus! {

/// The port the backend listens on.
pub const BACKEND_PORT: u16 = 42000;

/// The text the backend prints once it accepts connections.
pub const READY_MARKER: &'static str = "Server listening on port";

/// Where the interface goes once the backend is ready.
pub const BACKEND_URL: &'static str = "http://localhost:42000";

/// The notice sent to the sink when the backend turns ready.
pub const READY_NOTICE: &'static str = "Server ready, launching...";

/// How long to wait, in milliseconds, between readiness and navigation.
pub const GRACE_MILLIS: u64 = 1000;

/// `needle` occurs in `hay` as a contiguous run.
pub open spec fn has_infix(hay: Seq<u8>, needle: Seq<u8>) -> bool {
    exists|i: int| 0 <= i && i + needle.len() <= hay.len() && #[trigger] hay.subrange(i, i + needle.len()) == needle
}

fn occurs_at(hay: &[u8], needle: &[u8], at: usize) -> (r: bool)
    requires
        at + needle@.len() <= hay@.len(),
    ensures
        r == (hay@.subrange(at as int, at + needle@.len()) == needle@),
{
    let hay_len: usize = hay.len();
    let mut k: usize = 0;
    while k < needle.len()
        invariant
            at + needle@.len() <= hay@.len(),
            hay_len == hay@.len(),
            k <= needle@.len(),
            forall|t: int| 0 <= t < k ==> hay@[at + t] == needle@[t],
        decreases needle@.len() - k,
    {
        if hay[at + k] != needle[k] {
            assert(hay@.subrange(at as int, at + needle@.len())[k as int] != needle@[k as int]);
            return false;
        }
        k = k + 1;
    }
    assert(hay@.subrange(at as int, at + needle@.len()) =~= needle@);
    true
}

/// Whether `needle` occurs in `hay`.
pub fn contains_bytes(hay: &[u8], needle: &[u8]) -> (r: bool)
    ensures
        r == has_infix(hay@, needle@),
{
    if needle.len() > hay.len() {
        return false;
    }
    let last: usize = hay.len() - needle.len();
    let hay_len: usize = hay.len();
    let mut i: usize = 0;
    loop
        invariant
            last + needle@.len() == hay@.len(),
            hay_len == hay@.len(),
            i <= last,
            forall|j: int| 0 <= j < i ==> #[trigger] hay@.subrange(j, j + needle@.len()) != needle@,
        decreases last - i,
    {
        if occurs_at(hay, needle, i) {
            return true;
        }
        if i == last {
            return false;
        }
        i = i + 1;
    }
}

pub open spec fn marker_bytes() -> Seq<u8> {
    READY_MARKER.spec_bytes()
}

/// A line read from the backend's standard output announces readiness.
pub open spec fn announces_ready(raw: Seq<u8>) -> bool {
    has_infix(without_line_end(raw), marker_bytes())
}

/// The program that runs the backend script.
pub const BACKEND_PROGRAM: &'static str = "node";

/// The environment the backend runs with: a larger I/O thread pool, a higher
/// memory ceiling, and, when the bundled dependencies' directory is known, the
/// search path that finds them.
pub open spec fn backend_environment_of(vendor_dir: Option<Seq<char>>) -> Seq<(Seq<char>, Seq<char>)> {
    let fixed = seq![
        ("UV_THREADPOOL_SIZE"@, "128"@),
        ("NODE_OPTIONS"@, "--max-old-space-size=4096"@),
    ];
    match vendor_dir {
        Some(d) => fixed.push(("NODE_PATH"@, d)),
        None => fixed,
    }
}

pub open spec fn pairs_view(pairs: Seq<(String, String)>) -> Seq<(Seq<char>, Seq<char>)> {
    pairs.map_values(|p: (String, String)| (p.0@, p.1@))
}

pub fn backend_environment(vendor_dir: Option<String>) -> (r: Vec<(String, String)>)
    ensures
        pairs_view(r@) == backend_environment_of(
            match vendor_dir {
                Some(d) => Some(d@),
                None => None,
            },
        ),
{
    let mut r: Vec<(String, String)> = Vec::new();
    r.push(("UV_THREADPOOL_SIZE".to_string(), "128".to_string()));
    r.push(("NODE_OPTIONS".to_string(), "--max-old-space-size=4096".to_string()));
    match vendor_dir {
        Some(d) => {
            r.push(("NODE_PATH".to_string(), d));
        },
        None => {},
    }
    proof {
        assert(pairs_view(r@) =~= backend_environment_of(
            match vendor_dir {
                Some(d) => Some(d@),
                None => None,
            },
        ));
    }
    r
}

/// The stages of the backend's life.
#[derive(Clone, Copy, PartialEq, Eq, Structural, Debug)]
pub enum Phase {
    NotStarted,
    Spawning,
    Streaming,
    Ready,
    Terminated,
    Failed,
}

/// What happened to the backend, as reported by the code that runs it.
pub enum SupervisorEvent {
    /// The orphan sweep has finished; the backend may start.
    Start,
    Spawned,
    SpawnFailed(String),
    /// One raw read from a pipe, with its terminator if it had one.
    Output(StreamKind, Vec<u8>),
    /// A pipe reached its end or failed.
    Closed(StreamKind),
}

/// What the code that runs the backend is to do next.
pub enum SupervisorAction {
    Spawn,
    Emit(SinkEvent),
    /// A line for the durable diagnostic log.
    Log(String),
    /// Wait this many milliseconds before the next action.
    Pause(u64),
    Navigate(String),
}

pub ghost enum EventView {
    Start,
    Spawned,
    SpawnFailed(Seq<char>),
    Output(StreamKind, Seq<u8>),
    Closed(StreamKind),
}

pub ghost enum ActionView {
    Spawn,
    Emit(StreamKind, Seq<char>),
    Log(Seq<char>),
    Pause(u64),
    Navigate(Seq<char>),
}

impl View for SupervisorEvent {
    type V = EventView;

    open spec fn view(&self) -> EventView {
        match self {
            SupervisorEvent::Start => EventView::Start,
            SupervisorEvent::Spawned => EventView::Spawned,
            SupervisorEvent::SpawnFailed(c) => EventView::SpawnFailed(c@),
            SupervisorEvent::Output(k, b) => EventView::Output(*k, b@),
            SupervisorEvent::Closed(k) => EventView::Closed(*k),
        }
    }
}

impl View for SupervisorAction {
    type V = ActionView;

    open spec fn view(&self) -> ActionView {
        match self {
            SupervisorAction::Spawn => ActionView::Spawn,
            SupervisorAction::Emit(e) => ActionView::Emit(e.kind, e.text@),
            SupervisorAction::Log(t) => ActionView::Log(t@),
            SupervisorAction::Pause(ms) => ActionView::Pause(*ms),
            SupervisorAction::Navigate(u) => ActionView::Navigate(u@),
        }
    }
}

pub ghost struct SupervisorView {
    pub phase: Phase,
    pub stdout_open: bool,
    pub stderr_open: bool,
}

/// Decides, event by event, how the one long-running backend is started,
/// streamed and announced.
pub struct BackendSupervisor {
    pub phase: Phase,
    pub stdout_open: bool,
    pub stderr_open: bool,
}

impl View for BackendSupervisor {
    type V = SupervisorView;

    open spec fn view(&self) -> SupervisorView {
        SupervisorView { phase: self.phase, stdout_open: self.stdout_open, stderr_open: self.stderr_open }
    }
}

pub open spec fn log_prefix(kind: StreamKind) -> Seq<char> {
    match kind {
        StreamKind::Stdout => "[NODE STDOUT] "@,
        StreamKind::Stderr => "[NODE STDERR] "@,
    }
}

pub open spec fn is_live(phase: Phase) -> bool {
    phase == Phase::Streaming || phase == Phase::Ready
}

pub open spec fn pipe_open(s: SupervisorView, kind: StreamKind) -> bool {
    match kind {
        StreamKind::Stdout => s.stdout_open,
        StreamKind::Stderr => s.stderr_open,
    }
}

/// The readiness steps: notice, grace period, navigation.
pub open spec fn ready_actions() -> Seq<ActionView> {
    seq![
        ActionView::Emit(StreamKind::Stdout, READY_NOTICE@),
        ActionView::Pause(GRACE_MILLIS),
        ActionView::Navigate(BACKEND_URL@),
    ]
}

/// The one step of the supervisor: its next state and the actions to take.
pub open spec fn next(s: SupervisorView, e: EventView) -> (SupervisorView, Seq<ActionView>) {
    match e {
        EventView::Start => if s.phase == Phase::NotStarted {
            (SupervisorView { phase: Phase::Spawning, ..s }, seq![ActionView::Spawn])
        } else {
            (s, Seq::empty())
        },
        EventView::Spawned => if s.phase == Phase::Spawning {
            (SupervisorView { phase: Phase::Streaming, stdout_open: true, stderr_open: true }, Seq::empty())
        } else {
            (s, Seq::empty())
        },
        EventView::SpawnFailed(cause) => if s.phase == Phase::Spawning {
            (
                SupervisorView { phase: Phase::Failed, ..s },
                seq![
                    ActionView::Emit(
                        StreamKind::Stderr,
                        failure_text("Failed to spawn backend"@, cause),
                    ),
                ],
            )
        } else {
            (s, Seq::empty())
        },
        EventView::Output(kind, raw) => if is_live(s.phase) && pipe_open(s, kind) {
            let text = line_text_of(raw);
            let echo = seq![ActionView::Log(log_prefix(kind) + text), ActionView::Emit(kind, text)];
            if kind == StreamKind::Stdout && s.phase == Phase::Streaming && announces_ready(raw) {
                (SupervisorView { phase: Phase::Ready, ..s }, echo + ready_actions())
            } else {
                (s, echo)
            }
        } else {
            (s, Seq::empty())
        },
        EventView::Closed(kind) => if is_live(s.phase) {
            let out_open = s.stdout_open && kind != StreamKind::Stdout;
            let err_open = s.stderr_open && kind != StreamKind::Stderr;
            let phase = if !out_open && !err_open {
                Phase::Terminated
            } else {
                s.phase
            };
            (SupervisorView { phase, stdout_open: out_open, stderr_open: err_open }, Seq::empty())
        } else {
            (s, Seq::empty())
        },
    }
}

pub open spec fn actions_view(actions: Seq<SupervisorAction>) -> Seq<ActionView> {
    actions.map_values(|a: SupervisorAction| a@)
}

impl BackendSupervisor {
    pub fn new() -> (r: BackendSupervisor)
        ensures
            r@ == (SupervisorView { phase: Phase::NotStarted, stdout_open: false, stderr_open: false }),
    {
        BackendSupervisor { phase: Phase::NotStarted, stdout_open: false, stderr_open: false }
    }

    fn pipe_is_open(&self, kind: StreamKind) -> (r: bool)
        ensures
            r == pipe_open(self@, kind),
    {
        match kind {
            StreamKind::Stdout => self.stdout_open,
            StreamKind::Stderr => self.stderr_open,
        }
    }

    /// Takes one event and returns the actions to carry out, in order.
    pub fn step(&mut self, event: SupervisorEvent) -> (r: Vec<SupervisorAction>)
        ensures
            final(self)@ == next(old(self)@, event@).0,
            actions_view(r@) == next(old(self)@, event@).1,
    {
        let ghost s0 = self@;
        let ghost e = event@;
        let mut out: Vec<SupervisorAction> = Vec::new();
        match event {
            SupervisorEvent::Start => {
                if self.phase == Phase::NotStarted {
                    self.phase = Phase::Spawning;
                    out.push(SupervisorAction::Spawn);
                }
            },
            SupervisorEvent::Spawned => {
                if self.phase == Phase::Spawning {
                    self.phase = Phase::Streaming;
                    self.stdout_open = true;
                    self.stderr_open = true;
                }
            },
            SupervisorEvent::SpawnFailed(cause) => {
                if self.phase == Phase::Spawning {
                    self.phase = Phase::Failed;
                    let text = describe_failure("Failed to spawn backend", cause.as_str());
                    out.push(SupervisorAction::Emit(SinkEvent { kind: StreamKind::Stderr, text }));
                }
            },
            SupervisorEvent::Output(kind, raw) => {
                let live = self.phase == Phase::Streaming || self.phase == Phase::Ready;
                if live && self.pipe_is_open(kind) {
                    let text = line_text(raw.as_slice());
                    let mut logged = match kind {
                        StreamKind::Stdout => "[NODE STDOUT] ".to_string(),
                        StreamKind::Stderr => "[NODE STDERR] ".to_string(),
                    };
                    logged.append(text.as_str());
                    out.push(SupervisorAction::Log(logged));
                    out.push(SupervisorAction::Emit(SinkEvent { kind, text }));
                    if kind == StreamKind::Stdout && self.phase == Phase::Streaming {
                        let body = strip_line_end(raw.as_slice());
                        if contains_bytes(body.as_slice(), READY_MARKER.as_bytes()) {
                            self.phase = Phase::Ready;
                            out.push(
                                SupervisorAction::Emit(
                                    SinkEvent { kind: StreamKind::Stdout, text: READY_NOTICE.to_string() },
                                ),
                            );
                            out.push(SupervisorAction::Pause(GRACE_MILLIS));
                            out.push(SupervisorAction::Navigate(BACKEND_URL.to_string()));
                        }
                    }
                }
            },
            SupervisorEvent::Closed(kind) => {
                if self.phase == Phase::Streaming || self.phase == Phase::Ready {
                    match kind {
                        StreamKind::Stdout => self.stdout_open = false,
                        StreamKind::Stderr => self.stderr_open = false,
                    }
                    if !self.stdout_open && !self.stderr_open {
                        self.phase = Phase::Terminated;
                    }
                }
            },
        }
        proof {
            assert(actions_view(out@) =~= next(s0, e).1);
        }
        out
    }
}

/// The state and the actions after a run of events, in order.
pub open spec fn run(s: SupervisorView, events: Seq<EventView>) -> (SupervisorView, Seq<ActionView>)
    decreases events.len(),
{
    if events.len() == 0 {
        (s, Seq::empty())
    } else {
        let (s1, a1) = next(s, events[0]);
        let (s2, a2) = run(s1, events.drop_first());
        (s2, a1 + a2)
    }
}

/// How many of `acts` satisfy `p`.
pub open spec fn count_matching(acts: Seq<ActionView>, p: spec_fn(ActionView) -> bool) -> nat
    decreases acts.len(),
{
    if acts.len() == 0 {
        0
    } else {
        (if p(acts[0]) { 1nat } else { 0nat }) + count_matching(acts.drop_first(), p)
    }
}

pub open spec fn is_navigation(a: ActionView) -> bool {
    a is Navigate
}

pub open spec fn is_ready_notice(a: ActionView) -> bool {
    a == ActionView::Emit(StreamKind::Stdout, READY_NOTICE@)
}

pub open spec fn stdout_lines(lines: Seq<Seq<u8>>) -> Seq<EventView> {
    lines.map_values(|raw: Seq<u8>| EventView::Output(StreamKind::Stdout, raw))
}

proof fn lemma_count_add(a: Seq<ActionView>, b: Seq<ActionView>, p: spec_fn(ActionView) -> bool)
    ensures
        count_matching(a + b, p) == count_matching(a, p) + count_matching(b, p),
    decreases a.len(),
{
    if a.len() > 0 {
        assert((a + b).drop_first() =~= a.drop_first() + b);
        lemma_count_add(a.drop_first(), b, p);
    } else {
        assert(a + b =~= b);
    }
}

proof fn lemma_ready_counts(s: SupervisorView, lines: Seq<Seq<u8>>)
    requires
        is_live(s.phase),
        s.stdout_open,
        forall|i: int| 0 <= i < lines.len() ==> line_text_of(#[trigger] lines[i]) != READY_NOTICE@,
    ensures
        is_live(run(s, stdout_lines(lines)).0.phase),
        count_matching(run(s, stdout_lines(lines)).1, |a: ActionView| is_navigation(a))
            == count_matching(run(s, stdout_lines(lines)).1, |a: ActionView| is_ready_notice(a)),
        count_matching(run(s, stdout_lines(lines)).1, |a: ActionView| is_navigation(a)) == if s.phase
            == Phase::Streaming && exists|i: int| 0 <= i < lines.len() && announces_ready(#[trigger] lines[i]) {
            1nat
        } else {
            0nat
        },
    decreases lines.len(),
{
    let nav = |a: ActionView| is_navigation(a);
    let notice = |a: ActionView| is_ready_notice(a);
    let events = stdout_lines(lines);
    if lines.len() > 0 {
        let rest = lines.drop_first();
        assert(events.drop_first() =~= stdout_lines(rest));
        let (s1, a1) = next(s, events[0]);
        lemma_ready_counts(s1, rest);
        let (s2, a2) = run(s1, stdout_lines(rest));
        lemma_count_add(a1, a2, nav);
        lemma_count_add(a1, a2, notice);
        let text = line_text_of(lines[0]);
        let echo = seq![ActionView::Log(log_prefix(StreamKind::Stdout) + text), ActionView::Emit(StreamKind::Stdout, text)];
        assert(count_matching(echo, nav) == 0) by {
            reveal_with_fuel(count_matching, 3);
        }
        assert(count_matching(echo, notice) == 0) by {
            reveal_with_fuel(count_matching, 3);
        }
        assert(count_matching(ready_actions(), nav) == 1) by {
            reveal_with_fuel(count_matching, 4);
        }
        assert(count_matching(ready_actions(), notice) == 1) by {
            reveal_with_fuel(count_matching, 4);
        }
        if s.phase == Phase::Streaming && announces_ready(lines[0]) {
            lemma_count_add(echo, ready_actions(), nav);
            lemma_count_add(echo, ready_actions(), notice);
        }
        if exists|i: int| 0 <= i < rest.len() && announces_ready(#[trigger] rest[i]) {
            let i = choose|i: int| 0 <= i < rest.len() && announces_ready(#[trigger] rest[i]);
            assert(lines[i + 1] == rest[i]);
        }
        if exists|i: int| 0 <= i < lines.len() && announces_ready(#[trigger] lines[i]) {
            let i = choose|i: int| 0 <= i < lines.len() && announces_ready(#[trigger] lines[i]);
            if i > 0 {
                assert(rest[i - 1] == lines[i]);
            }
        }
    }
}

/// Fed to a backend that has just started streaming, stdout lines give one
/// ready notice and one navigation when any of them carries the readiness
/// marker, however often it recurs, and none otherwise. (A line whose own text
/// is the ready notice would be indistinguishable from it, so such lines are
/// left out.)
pub proof fn lemma_ready_once(lines: Seq<Seq<u8>>)
    requires
        forall|i: int| 0 <= i < lines.len() ==> line_text_of(#[trigger] lines[i]) != READY_NOTICE@,
    ensures
        ({
            let s = SupervisorView { phase: Phase::Streaming, stdout_open: true, stderr_open: true };
            let acts = run(s, stdout_lines(lines)).1;
            let expected = if exists|i: int| 0 <= i < lines.len() && announces_ready(#[trigger] lines[i]) {
                1nat
            } else {
                0nat
            };
            &&& count_matching(acts, |a: ActionView| is_navigation(a)) == expected
            &&& count_matching(acts, |a: ActionView| is_ready_notice(a)) == expected
        }),
{
    let s = SupervisorView { phase: Phase::Streaming, stdout_open: true, stderr_open: true };
    lemma_ready_counts(s, lines);
}

} // verus!
