use kanuni::error::SubscriptionError;
use kanuni::progress::{
    AnalysisProgressEvent, AnalysisStage, ChannelType, CompleteEvent, CompleteEventType,
    ErrorEvent, ErrorType, ProgressEvent,
};
use kanuni::tracker::ProgressTracker;
use kanuni::websocket::{ClientMessage, WebSocketConfig};

fn connected_tracker() -> ProgressTracker {
    let mut t = ProgressTracker::new(WebSocketConfig::default(), "tok".to_string());
    t.connect_begin();
    t.connect_ok();
    let _ = t.take_outbox();
    t
}

fn analysis_event(id: u128, stage: AnalysisStage) -> ProgressEvent {
    ProgressEvent::Analysis(AnalysisProgressEvent {
        analysis_id: id,
        document_id: 500,
        stage,
        progress: 10,
        message: "working".to_string(),
        details: None,
    })
}

fn complete_event(id: u128) -> ProgressEvent {
    ProgressEvent::Complete(CompleteEvent {
        id,
        event_type: CompleteEventType::Analysis,
        message: "all done".to_string(),
        result: None,
    })
}

fn error_event(id: u128) -> ProgressEvent {
    ProgressEvent::Error(ErrorEvent {
        id,
        error_type: ErrorType::Analysis,
        message: "boom".to_string(),
        details: None,
    })
}

#[test]
fn events_are_stored_in_arrival_order_and_latest_is_last() {
    let mut t = connected_tracker();
    let a: u128 = 11;
    let delivered = vec![
        analysis_event(a, AnalysisStage::Queued),
        analysis_event(a, AnalysisStage::ExtractingText),
        complete_event(a),
    ];
    for e in delivered.clone() {
        t.process_event(e).unwrap();
    }
    assert_eq!(t.get_events(a), delivered);
    assert_eq!(t.get_latest_event(a), Some(complete_event(a)));
    assert_eq!(t.get_events(999), vec![]);
    assert_eq!(t.get_latest_event(999), None);
}

#[test]
fn terminal_events_tear_down_the_entity_subscription() {
    let mut t = connected_tracker();
    t.track_analysis(1).unwrap();
    t.track_analysis(2).unwrap();
    let _ = t.take_outbox();

    t.process_event(complete_event(1)).unwrap();
    let cmds = t.take_outbox();
    assert_eq!(
        cmds,
        vec![ClientMessage::Unsubscribe {
            channel_type: ChannelType::Analysis,
            id: 1
        }]
    );

    // A later, unrelated event for another id does not bring id 1 back:
    // only id 2's teardown goes out.
    t.process_event(analysis_event(2, AnalysisStage::Starting)).unwrap();
    assert_eq!(t.take_outbox(), vec![]);
    t.process_event(error_event(2)).unwrap();
    assert_eq!(
        t.take_outbox(),
        vec![ClientMessage::Unsubscribe {
            channel_type: ChannelType::Analysis,
            id: 2
        }]
    );
}

#[test]
fn a_second_terminal_event_is_stored_but_tears_nothing_down() {
    let mut t = connected_tracker();
    t.track_upload(8).unwrap();
    let _ = t.take_outbox();
    t.process_event(complete_event(8)).unwrap();
    let _ = t.take_outbox();
    t.process_event(error_event(8)).unwrap();
    assert_eq!(t.take_outbox(), vec![]);
    assert_eq!(t.get_events(8).len(), 2);
}

#[test]
fn tracking_needs_a_live_connection() {
    let mut t = ProgressTracker::new(WebSocketConfig::default(), "tok".to_string());
    assert_eq!(
        t.track_upload(3).unwrap_err(),
        SubscriptionError::NotConnected
    );
    let mut t = connected_tracker();
    assert!(t.track_batch(3).is_ok());
}

#[test]
fn teardown_without_a_connection_surfaces_and_keeps_tracking() {
    let mut t = connected_tracker();
    t.track_analysis(4).unwrap();
    let _ = t.take_outbox();
    t.connection_lost();
    // The event is stored; the unsubscribe command cannot be enqueued.
    assert_eq!(
        t.process_event(complete_event(4)).unwrap_err(),
        SubscriptionError::NotConnected
    );
    assert_eq!(t.get_events(4).len(), 1);
    // After a reconnect the subscription is still registered and replayed.
    t.connect_begin();
    t.connect_ok();
    assert_eq!(
        t.take_outbox(),
        vec![ClientMessage::Subscribe {
            channel_type: ChannelType::Analysis,
            id: 4
        }]
    );
}

#[test]
fn disconnect_flips_the_state_and_drops_queued_commands() {
    let mut t = connected_tracker();
    assert!(t.is_connected());
    t.track_upload(1).unwrap();
    t.disconnect();
    assert!(!t.is_connected());
    assert_eq!(t.take_outbox(), vec![]);
}

#[test]
fn heartbeat_flows_through_the_tracker() {
    let mut t = connected_tracker();
    assert!(t.heartbeat_tick());
    assert_eq!(t.take_outbox(), vec![ClientMessage::Ping]);
    t.disconnect();
    assert!(!t.heartbeat_tick());
}
