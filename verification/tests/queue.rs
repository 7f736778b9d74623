use mkpclient::ingest::{ingest_frame, ingest_link};
use mkpclient::link_driver::{LinkEvent, ListTarget, Response, ServerMsg};
use mkpclient::proto::{Peer, QueueDelta, QueueEntry, Song};
use mkpclient::state::link::LinkKind;
use mkpclient::state::sources::Sources;

fn song(id: &str) -> Song {
    Song { id: id.to_string(), title: format!("t-{id}"), artist_name: "ar".to_string(), album_title: "al".to_string() }
}

fn entry(id: u64, s: &str) -> QueueEntry {
    QueueEntry { entry_id: id, song: song(s) }
}

fn broadcast(msg: ServerMsg) -> Response {
    Response { seq: 0, task_id: None, msg }
}

fn rows(s: &Sources) -> Vec<String> {
    s.queue.items.iter().map(|x| x.id.clone()).collect()
}

#[test]
fn queue_chunks_fill_rows_and_entry_ids_in_order() {
    let mut s = Sources::new(0, false);
    ingest_frame(
        &mut s,
        broadcast(ServerMsg::ListBegin { target: ListTarget::Queue { queue_id: 7, version: 3 }, total: 3, focus: 1 }),
    );
    assert_eq!(s.queue.queue_id, Some(7));
    assert_eq!(s.queue.version, 3);
    assert_eq!(s.queue.expected_total, Some(3));
    assert_eq!(s.queue.current_index, Some(1));
    ingest_frame(&mut s, broadcast(ServerMsg::QueueChunk { queue_id: 7, offset: 0, entries: vec![entry(10, "a"), entry(11, "b")] }));
    ingest_frame(&mut s, broadcast(ServerMsg::QueueChunk { queue_id: 7, offset: 2, entries: vec![entry(12, "c")] }));
    assert_eq!(rows(&s), vec!["a", "b", "c"]);
    assert_eq!(s.queue.entry_ids, vec![10, 11, 12]);
}

#[test]
fn an_out_of_order_queue_chunk_is_dropped() {
    let mut s = Sources::new(0, false);
    ingest_frame(&mut s, broadcast(ServerMsg::QueueChunk { queue_id: 7, offset: 0, entries: vec![entry(10, "a")] }));
    ingest_frame(&mut s, broadcast(ServerMsg::QueueChunk { queue_id: 7, offset: 5, entries: vec![entry(15, "f")] }));
    assert_eq!(rows(&s), vec!["a"]);
    assert_eq!(s.queue.entry_ids, vec![10]);
}

#[test]
fn a_chunk_for_another_queue_starts_over() {
    let mut s = Sources::new(0, false);
    ingest_frame(&mut s, broadcast(ServerMsg::QueueChunk { queue_id: 7, offset: 0, entries: vec![entry(10, "a")] }));
    ingest_frame(&mut s, broadcast(ServerMsg::QueueChunk { queue_id: 8, offset: 0, entries: vec![entry(20, "z")] }));
    assert_eq!(s.queue.queue_id, Some(8));
    assert_eq!(rows(&s), vec!["z"]);
    assert_eq!(s.queue.entry_ids, vec![20]);
}

#[test]
fn queue_deltas_insert_remove_and_move_the_playing_row() {
    let mut s = Sources::new(0, false);
    ingest_frame(&mut s, broadcast(ServerMsg::QueueChunk { queue_id: 7, offset: 0, entries: vec![entry(10, "a"), entry(12, "c")] }));
    ingest_frame(
        &mut s,
        broadcast(ServerMsg::QueueDelta { queue_id: 7, version: 4, delta: QueueDelta::Insert { index: 1, entries: vec![entry(11, "b")] } }),
    );
    assert_eq!(rows(&s), vec!["a", "b", "c"]);
    assert_eq!(s.queue.entry_ids, vec![10, 11, 12]);
    assert_eq!(s.queue.version, 4);
    ingest_frame(
        &mut s,
        broadcast(ServerMsg::QueueDelta { queue_id: 7, version: 5, delta: QueueDelta::Insert { index: 99, entries: vec![entry(13, "d")] } }),
    );
    assert_eq!(rows(&s), vec!["a", "b", "c", "d"]);
    ingest_frame(&mut s, broadcast(ServerMsg::QueueDelta { queue_id: 7, version: 6, delta: QueueDelta::Remove { entry_id: 11 } }));
    assert_eq!(rows(&s), vec!["a", "c", "d"]);
    assert_eq!(s.queue.entry_ids, vec![10, 12, 13]);
    ingest_frame(&mut s, broadcast(ServerMsg::QueueDelta { queue_id: 7, version: 7, delta: QueueDelta::Remove { entry_id: 99 } }));
    assert_eq!(s.queue.entry_ids, vec![10, 12, 13]);
    assert_eq!(s.queue.version, 7);
    ingest_frame(&mut s, broadcast(ServerMsg::QueueDelta { queue_id: 7, version: 8, delta: QueueDelta::SetCurrent { index: Some(2) } }));
    assert_eq!(s.queue.current_index, Some(2));
    ingest_frame(&mut s, broadcast(ServerMsg::QueueDelta { queue_id: 7, version: 9, delta: QueueDelta::Clear }));
    assert!(s.queue.items.is_empty() && s.queue.entry_ids.is_empty());
    assert_eq!(s.queue.current_index, None);
}

#[test]
fn a_catch_up_replays_its_deltas_in_order() {
    let mut s = Sources::new(0, false);
    ingest_frame(&mut s, broadcast(ServerMsg::QueueChunk { queue_id: 7, offset: 0, entries: vec![entry(10, "a")] }));
    ingest_frame(
        &mut s,
        broadcast(ServerMsg::QueueCatchUp {
            queue_id: 7,
            deltas: vec![
                (2, QueueDelta::Insert { index: 1, entries: vec![entry(11, "b")] }),
                (3, QueueDelta::Remove { entry_id: 10 }),
                (4, QueueDelta::SetCurrent { index: Some(0) }),
            ],
        }),
    );
    assert_eq!(rows(&s), vec!["b"]);
    assert_eq!(s.queue.entry_ids, vec![11]);
    assert_eq!(s.queue.version, 4);
    assert_eq!(s.queue.current_index, Some(0));
}

#[test]
fn a_closed_link_resets_the_whole_queue() {
    let mut s = Sources::new(0, false);
    ingest_link(&mut s, LinkEvent::Connected { kind: LinkKind::Client }, Peer { user: "u".to_string(), host: "h".to_string() }, 1);
    ingest_frame(
        &mut s,
        broadcast(ServerMsg::ListBegin { target: ListTarget::Queue { queue_id: 7, version: 3 }, total: 2, focus: 0 }),
    );
    ingest_frame(&mut s, broadcast(ServerMsg::QueueChunk { queue_id: 7, offset: 0, entries: vec![entry(10, "a")] }));
    ingest_link(&mut s, LinkEvent::Closed { error: None }, Peer { user: "u".to_string(), host: "h".to_string() }, 1);
    assert_eq!(s.queue.queue_id, None);
    assert_eq!(s.queue.version, 0);
    assert_eq!(s.queue.expected_total, None);
    assert_eq!(s.queue.current_index, None);
    assert!(s.queue.items.is_empty() && s.queue.entry_ids.is_empty());
}

#[test]
fn a_started_task_keeps_its_peer_and_activity() {
    let mut s = Sources::new(5, false);
    s.now = 5;
    ingest_frame(
        &mut s,
        broadcast(ServerMsg::TaskStarted { task_id: 9, peer: "phone".to_string(), activity: "Adding songs".to_string() }),
    );
    assert_eq!(s.activity.tasks.len(), 1);
    assert_eq!(s.activity.tasks[0].peer, "phone");
    assert_eq!(s.activity.tasks[0].activity, "Adding songs");
    assert_eq!(s.activity.tasks[0].started_at, 5);
}

#[test]
fn the_latest_recorded_frame_wins() {
    let mut b: mkpclient::bridge::ViewBridge<u64> = mkpclient::bridge::ViewBridge::new();
    assert!(!b.is_unchanged(&1));
    b.record(1);
    b.record(2);
    assert!(b.is_unchanged(&2));
    assert!(!b.is_unchanged(&1));
    assert_eq!(b.last(), Some(&2));
}

#[test]
fn a_catch_up_equals_the_same_deltas_sent_one_by_one() {
    let deltas = || {
        vec![
            (2, QueueDelta::Insert { index: 0, entries: vec![entry(11, "b")] }),
            (3, QueueDelta::Remove { entry_id: 10 }),
            (4, QueueDelta::SetCurrent { index: Some(0) }),
        ]
    };
    let start = || {
        let mut s = Sources::new(0, false);
        ingest_frame(&mut s, broadcast(ServerMsg::QueueChunk { queue_id: 7, offset: 0, entries: vec![entry(10, "a")] }));
        s
    };
    let mut a = start();
    ingest_frame(&mut a, broadcast(ServerMsg::QueueCatchUp { queue_id: 7, deltas: deltas() }));
    let mut b = start();
    for (version, delta) in deltas() {
        ingest_frame(&mut b, broadcast(ServerMsg::QueueDelta { queue_id: 7, version, delta }));
    }
    assert_eq!(rows(&a), rows(&b));
    assert_eq!(a.queue.entry_ids, b.queue.entry_ids);
    assert_eq!((a.queue.version, a.queue.current_index), (b.queue.version, b.queue.current_index));
}

#[test]
fn last_is_the_latest_record_or_nothing() {
    let mut b: mkpclient::bridge::ViewBridge<u64> = mkpclient::bridge::ViewBridge::new();
    assert_eq!(b.last(), None);
    for m in [3u64, 5, 4] {
        b.record(m);
    }
    assert_eq!(b.last(), Some(&4));
}
