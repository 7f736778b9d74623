use mkpclient::execute::fallback_target_to_pair;
use mkpclient::paint::PaintState;
use mkpclient::state::credentials::PairingEntry;
use mkpclient::state::discovery::{Endpoint, ServerAd};
use mkpclient::state::sources::Sources;
use mkpclient::ui_bridge::{BridgeCmd, UiBridgeState, ViewKind};

fn payload_of(state: &UiBridgeState, kind: ViewKind) -> Option<Vec<u8>> {
    state.in_flight.iter().find(|e| e.kind == kind).map(|e| e.payload.clone())
}

#[test]
fn first_push_writes_intent_and_emits_cmd() {
    let mut state = UiBridgeState::new();
    let cmd = state.stage(ViewKind::NowPlaying, vec![1, 2, 3]);
    assert_eq!(payload_of(&state, ViewKind::NowPlaying), Some(vec![1, 2, 3]));
    match cmd {
        Some(BridgeCmd::Push { kind, payload }) => {
            assert_eq!(kind, ViewKind::NowPlaying);
            assert_eq!(payload, vec![1, 2, 3]);
        },
        None => panic!("expected one Push"),
    }
}

#[test]
fn duplicate_push_is_noop() {
    let mut state = UiBridgeState::new();
    assert!(state.stage(ViewKind::NowPlaying, vec![1, 2, 3]).is_some(), "first push");
    assert!(state.stage(ViewKind::NowPlaying, vec![1, 2, 3]).is_none(), "duplicate push should not fire");
}

#[test]
fn changed_payload_replaces_in_flight() {
    let mut state = UiBridgeState::new();
    assert!(state.stage(ViewKind::NowPlaying, vec![1, 2, 3]).is_some(), "first push");
    assert!(state.stage(ViewKind::NowPlaying, vec![4, 5, 6]).is_some(), "second push");
    assert_eq!(payload_of(&state, ViewKind::NowPlaying), Some(vec![4, 5, 6]));
}

#[test]
fn another_view_keeps_its_own_payload() {
    let mut state = UiBridgeState::new();
    assert!(state.stage(ViewKind::NowPlaying, vec![1]).is_some());
    assert!(state.stage(ViewKind::Queue, vec![1]).is_some());
    assert!(state.stage(ViewKind::Queue, vec![2]).is_some());
    assert_eq!(payload_of(&state, ViewKind::NowPlaying), Some(vec![1]));
    assert_eq!(payload_of(&state, ViewKind::Queue), Some(vec![2]));
}

#[test]
fn view_kind_numbers_are_stable() {
    assert_eq!(ViewKind::NowPlaying.as_u32(), 0);
    assert_ne!(ViewKind::NowPlaying.as_u32(), ViewKind::Queue.as_u32());
}

#[test]
fn execute_runs_closure_and_brackets_with_trace() {
    let mut state = PaintState::default();
    let mut events: Vec<(&'static str, u64)> = Vec::new();
    let mut painted = false;

    let id = state.begin_frame();
    events.push(("start", id));
    painted = !painted;
    state.end_frame();
    events.push(("end", state.last_frame_id));

    assert!(painted, "paint closure ran");
    assert_eq!(state.frames_drawn, 1);
    assert_eq!(state.last_frame_id, 1);
    assert_eq!(events[0], ("start", 1));
    assert_eq!(events[1], ("end", 1));
}

#[test]
fn frame_id_increments_per_call() {
    let mut state = PaintState::default();
    for expected in 1..=3u64 {
        state.begin_frame();
        state.end_frame();
        assert_eq!(state.last_frame_id, expected);
        assert_eq!(state.frames_drawn, expected);
    }
}

#[test]
fn frame_id_wraps_at_the_top() {
    let mut state = PaintState { last_frame_id: u64::MAX, frames_drawn: u64::MAX };
    assert_eq!(state.begin_frame(), 0);
    state.end_frame();
    assert_eq!(state.frames_drawn, 0);
}

fn ad(name: &str) -> ServerAd {
    ServerAd { name: name.to_string(), host: format!("{name}.local"), ip: 0x7f00_0001, port: 4242 }
}

fn entry(fp: &str) -> PairingEntry {
    PairingEntry {
        fingerprint: fp.to_string(),
        host: "h".to_string(),
        server_cert_pem: String::new(),
        client_cert_pem: String::new(),
        client_key_pem: String::new(),
    }
}

fn toy_sources() -> Sources {
    let mut sources = Sources::new(0, false);
    sources.discovery.upsert(ad("Toy Machine"));
    sources.intent.target = Some("Toy Machine".to_string());
    sources
}

#[test]
fn fallback_swaps_target_to_pair_when_probe_has_no_creds() {
    let mut sources = toy_sources();
    sources.probes.set_fingerprint(Endpoint { ip: 0x7f00_0001, port: 4242 }, "fp-x".to_string());

    fallback_target_to_pair(&mut sources);

    assert!(sources.intent.target.is_none());
    assert_eq!(sources.intent.pair_target.as_deref(), Some("Toy Machine"));
}

#[test]
fn fallback_is_a_noop_when_creds_match_probe() {
    let mut sources = toy_sources();
    sources.probes.set_fingerprint(Endpoint { ip: 0x7f00_0001, port: 4242 }, "fp-x".to_string());
    sources.credentials.insert(entry("fp-x"));

    fallback_target_to_pair(&mut sources);

    assert_eq!(sources.intent.target.as_deref(), Some("Toy Machine"));
    assert!(sources.intent.pair_target.is_none());
}

#[test]
fn fallback_is_a_noop_when_probe_not_yet_done() {
    let mut sources = toy_sources();

    fallback_target_to_pair(&mut sources);

    assert_eq!(sources.intent.target.as_deref(), Some("Toy Machine"));
    assert!(sources.intent.pair_target.is_none());
}

struct CountingTrace {
    pushes: std::cell::Cell<usize>,
    skips: std::cell::Cell<usize>,
    writes: std::cell::Cell<Vec<u64>>,
}

impl CountingTrace {
    fn new() -> Self {
        CountingTrace { pushes: std::cell::Cell::new(0), skips: std::cell::Cell::new(0), writes: std::cell::Cell::new(Vec::new()) }
    }
}

impl mkpclient::ui_bridge::Trace for CountingTrace {
    fn bridge_push(&self, _kind: mkpclient::ui_bridge::ViewKind, bytes: usize) {
        assert_eq!(bytes, 3);
        self.pushes.set(self.pushes.get() + 1);
    }
    fn bridge_skip(&self, _kind: mkpclient::ui_bridge::ViewKind) {
        self.skips.set(self.skips.get() + 1);
    }
}

impl mkpclient::clipboard::Trace for CountingTrace {
    fn clipboard_write(&self, seq: u64) {
        let mut v = self.writes.take();
        v.push(seq);
        self.writes.set(v);
    }
}

#[test]
fn bridge_execute_reports_a_push_then_a_skip() {
    let t = CountingTrace::new();
    let mut st = mkpclient::ui_bridge::UiBridgeState::new();
    let kind = mkpclient::ui_bridge::ViewKind::NowPlaying;
    assert!(st.execute(kind, vec![1, 2, 3], &t).is_some());
    assert!(st.execute(kind, vec![1, 2, 3], &t).is_none());
    assert_eq!((t.pushes.get(), t.skips.get()), (1, 1));
}

#[test]
fn clipboard_execute_reports_the_written_copy() {
    let t = CountingTrace::new();
    let mut st = mkpclient::clipboard::ClipboardState::new();
    assert!(st.execute(&t).is_none());
    st.enqueue("x".to_string(), "copied".to_string());
    assert!(st.execute(&t).is_some());
    assert_eq!(t.writes.take(), vec![1]);
}
