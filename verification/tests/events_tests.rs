use nwg_dock::events::{
    clients_changed, drain_new_events, drain_workspace_events, poll_decision, reconnect_tick,
    window_drain_step, DrainStep, RecvOutcome, RECONNECT_INTERVAL_TICKS,
};
use std::sync::mpsc;

#[test]
fn empty_channel_returns_false() {
    let (_tx, rx) = mpsc::channel::<String>();
    assert!(!drain_new_events(&rx).0);
}

#[test]
fn single_event_returns_true() {
    let (tx, rx) = mpsc::channel::<String>();
    tx.send("0xdeadbeef".to_string()).unwrap();
    assert!(drain_new_events(&rx).0);
}

#[test]
fn repeat_id_across_polls_still_signals_change() {
    let (tx, rx) = mpsc::channel::<String>();

    tx.send("0xabc".to_string()).unwrap();
    assert!(drain_new_events(&rx).0);

    tx.send("0xabc".to_string()).unwrap();
    assert!(drain_new_events(&rx).0);
}

#[test]
fn layer_redirect_events_ignored() {
    let (tx, rx) = mpsc::channel::<String>();
    tx.send("workspace>>2".to_string()).unwrap();
    tx.send("monitorremoved>>HDMI-A-1".to_string()).unwrap();
    assert!(!drain_new_events(&rx).0);
}

#[test]
fn real_event_among_redirects_signals_change() {
    let (tx, rx) = mpsc::channel::<String>();
    tx.send("workspace>>2".to_string()).unwrap();
    tx.send("0xdeadbeef".to_string()).unwrap();
    tx.send("submap>>default".to_string()).unwrap();
    assert!(drain_new_events(&rx).0);
}

#[test]
fn disconnected_channel_is_reported() {
    let (tx, rx) = mpsc::channel::<String>();
    tx.send("0x1".to_string()).unwrap();
    drop(tx);
    let r = drain_new_events(&rx);
    assert_eq!((r.0, r.1), (true, true));
    let (ws_tx, ws_rx) = mpsc::channel::<()>();
    let r = drain_workspace_events(&ws_rx);
    assert_eq!((r.0, r.1), (false, false));
    ws_tx.send(()).unwrap();
    ws_tx.send(()).unwrap();
    let r = drain_workspace_events(&ws_rx);
    assert_eq!((r.0, r.1), (true, false));
    drop(ws_tx);
    let r = drain_workspace_events(&ws_rx);
    assert_eq!((r.0, r.1), (false, true));
}

#[test]
fn drain_step_classifies_lines() {
    assert_eq!(
        window_drain_step(false, RecvOutcome::Received("a>>b".to_string())),
        DrainStep::Continue { changed: false }
    );
    assert_eq!(
        window_drain_step(false, RecvOutcome::Received("0x1".to_string())),
        DrainStep::Continue { changed: true }
    );
    assert_eq!(
        window_drain_step(true, RecvOutcome::Disconnected),
        DrainStep::Finished { changed: true, disconnected: true }
    );
}

#[test]
fn same_class_reopen_counts_as_change() {
    let old = (vec![("0x1".to_string(), "kitty".to_string())], None);
    let new = (vec![("0x2".to_string(), "kitty".to_string())], None);
    assert!(clients_changed(&old, &new));
    assert!(!clients_changed(&old, &old.clone()));
    let focused = (vec![("0x1".to_string(), "kitty".to_string())], Some("0x1".to_string()));
    assert!(clients_changed(&old, &focused));
}

#[test]
fn rebuild_deferred_during_drag_fires_after() {
    let mut pending = false;
    assert!(!poll_decision(true, true, false, &mut pending));
    assert!(pending);
    assert!(!poll_decision(true, false, false, &mut pending));
    assert!(pending);
    assert!(poll_decision(false, false, false, &mut pending));
    assert!(!pending);
    assert!(poll_decision(false, false, true, &mut pending));
    assert!(!poll_decision(false, false, false, &mut pending));
}

#[test]
fn reconnect_backoff_counts_down() {
    let mut ticks = 0;
    assert!(!reconnect_tick(false, &mut ticks));
    assert!(reconnect_tick(true, &mut ticks));
    assert_eq!(ticks, RECONNECT_INTERVAL_TICKS);
    assert!(!reconnect_tick(true, &mut ticks));
    assert_eq!(ticks, RECONNECT_INTERVAL_TICKS - 1);
}
