use kanuni::error::ConnectivityError;
use kanuni::progress::{ChannelType, CompleteEvent, CompleteEventType, ProgressEvent};
use kanuni::websocket::{
    plan_reconnect_with, route_inbound, ClientMessage, ReconnectStep, RouteAction, ServerMessage,
    ServerMessageType, StreamConnection, WebSocketConfig, WebSocketMessage,
};

fn connected(url: &str, token: &str) -> StreamConnection {
    let config = WebSocketConfig {
        url: url.to_string(),
        ..WebSocketConfig::default()
    };
    let mut conn = StreamConnection::new(config, token.to_string());
    conn.connect_begin();
    conn.connect_ok();
    conn
}

#[test]
fn connect_url_embeds_the_token() {
    let config = WebSocketConfig {
        url: "wss://api.example/api/v1/ws".to_string(),
        ..WebSocketConfig::default()
    };
    let conn = StreamConnection::new(config, "tok-123".to_string());
    assert_eq!(conn.connect_url(), "wss://api.example/api/v1/ws?token=tok-123");
}

#[test]
fn default_config_matches_the_documented_values() {
    let c = WebSocketConfig::default();
    assert_eq!(c.url, "ws://localhost:8080/api/v1/ws");
    assert_eq!(c.reconnect_max_attempts, 5);
    assert_eq!(c.reconnect_delay_ms, 1000);
    assert_eq!(c.ping_interval_secs, 30);
}

#[test]
fn subscribe_needs_a_live_connection() {
    let config = WebSocketConfig::default();
    let mut conn = StreamConnection::new(config, "t".to_string());
    assert!(conn.subscribe_upload(5).is_err());
    let mut conn = connected("ws://h/api/v1/ws", "t");
    assert!(conn.subscribe_upload(5).is_ok());
    let cmds = conn.take_outbox();
    assert_eq!(
        cmds,
        vec![ClientMessage::Subscribe {
            channel_type: ChannelType::Upload,
            id: 5
        }]
    );
}

#[test]
fn resubscription_replays_every_pair_in_order_once() {
    let mut conn = connected("ws://h/api/v1/ws", "t");
    conn.subscribe_upload(1).unwrap();
    conn.subscribe_analysis(2).unwrap();
    conn.subscribe_batch(3).unwrap();
    conn.subscribe_analysis(2).unwrap(); // duplicate registration is a no-op
    let _ = conn.take_outbox();

    // Simulated drop, then a successful reconnect handshake.
    conn.connection_lost();
    conn.connect_begin();
    conn.connect_ok();
    let replay = conn.take_outbox();
    assert_eq!(
        replay,
        vec![
            ClientMessage::Subscribe {
                channel_type: ChannelType::Upload,
                id: 1
            },
            ClientMessage::Subscribe {
                channel_type: ChannelType::Analysis,
                id: 2
            },
            ClientMessage::Subscribe {
                channel_type: ChannelType::Batch,
                id: 3
            },
        ]
    );
}

#[test]
fn unsubscribed_pairs_are_not_replayed() {
    let mut conn = connected("ws://h/api/v1/ws", "t");
    conn.subscribe_upload(1).unwrap();
    conn.subscribe_analysis(2).unwrap();
    conn.unsubscribe(ChannelType::Upload, 1).unwrap();
    conn.connection_lost();
    conn.connect_begin();
    conn.connect_ok();
    assert_eq!(
        conn.take_outbox(),
        vec![ClientMessage::Subscribe {
            channel_type: ChannelType::Analysis,
            id: 2
        }]
    );
}

#[test]
fn heartbeat_only_beats_while_connected() {
    let mut conn = connected("ws://h/api/v1/ws", "t");
    let _ = conn.take_outbox();
    assert!(conn.heartbeat_tick());
    assert_eq!(conn.take_outbox(), vec![ClientMessage::Ping]);
    conn.connection_lost();
    assert!(!conn.heartbeat_tick());
    assert_eq!(conn.take_outbox(), vec![]);
}

fn complete_frame(id: u128) -> ServerMessage {
    ServerMessage {
        message_type: ServerMessageType::Progress,
        data: Some(WebSocketMessage {
            id,
            event: ProgressEvent::Complete(CompleteEvent {
                id,
                event_type: CompleteEventType::Analysis,
                message: "done".to_string(),
                result: None,
            }),
            user_id: 9,
            sequence: 1,
        }),
        timestamp: 1700000000,
    }
}

#[test]
fn only_progress_frames_are_delivered() {
    match route_inbound(Some(complete_frame(4))) {
        RouteAction::Deliver(p) => {
            assert_eq!(p.id, 4);
            assert!(matches!(p.event, ProgressEvent::Complete(_)));
        }
        _ => panic!("a progress frame must be delivered"),
    }
    for mt in [
        ServerMessageType::Connected,
        ServerMessageType::Subscribed,
        ServerMessageType::Unsubscribed,
        ServerMessageType::Error,
        ServerMessageType::Pong,
    ] {
        let frame = ServerMessage {
            message_type: mt,
            data: None,
            timestamp: 0,
        };
        assert!(matches!(route_inbound(Some(frame)), RouteAction::Absorb));
    }
}

#[test]
fn malformed_frames_are_rejected_not_fatal() {
    assert!(matches!(route_inbound(None), RouteAction::Reject));
    let progress_without_payload = ServerMessage {
        message_type: ServerMessageType::Progress,
        data: None,
        timestamp: 0,
    };
    assert!(matches!(
        route_inbound(Some(progress_without_payload)),
        RouteAction::Reject
    ));
}

#[test]
fn reconnect_delays_grow_geometrically() {
    assert_eq!(
        plan_reconnect_with(5, 1000, 0, 0),
        ReconnectStep::Retry { delay_ms: 1000 }
    );
    assert_eq!(
        plan_reconnect_with(5, 1000, 1, 1000),
        ReconnectStep::Retry { delay_ms: 2000 }
    );
    assert_eq!(
        plan_reconnect_with(5, 1000, 2, 3000),
        ReconnectStep::Retry { delay_ms: 4000 }
    );
    assert_eq!(
        plan_reconnect_with(5, 1000, 3, 7000),
        ReconnectStep::Retry { delay_ms: 8000 }
    );
    assert_eq!(
        plan_reconnect_with(5, 1000, 4, 15000),
        ReconnectStep::Retry { delay_ms: 16000 }
    );
}

#[test]
fn reconnect_gives_up_after_the_maximum_attempts() {
    assert_eq!(
        plan_reconnect_with(5, 1000, 5, 31000),
        ReconnectStep::GiveUp(ConnectivityError::AttemptsExhausted)
    );
    assert_eq!(
        plan_reconnect_with(0, 1000, 0, 0),
        ReconnectStep::GiveUp(ConnectivityError::AttemptsExhausted)
    );
}

#[test]
fn reconnect_respects_the_elapsed_ceiling() {
    assert_eq!(
        plan_reconnect_with(100, 1000, 6, 60000),
        ReconnectStep::GiveUp(ConnectivityError::ElapsedExceeded)
    );
    // Just below the ceiling a retry is still scheduled, with the delay
    // itself capped by the ceiling.
    assert_eq!(
        plan_reconnect_with(100, 1000, 6, 59999),
        ReconnectStep::Retry { delay_ms: 60000 }
    );
}

#[test]
fn entity_ids_render_in_canonical_hyphenated_form() {
    let raw: u128 = 0x123e4567e89b12d3a456426614174000;
    assert_eq!(
        kanuni::text::format_entity_id(raw),
        "123e4567-e89b-12d3-a456-426614174000"
    );
    assert_eq!(
        kanuni::text::format_entity_id(0),
        "00000000-0000-0000-0000-000000000000"
    );
    // The rendering agrees with the id type used on the wire.
    for id in [raw, 1u128, u128::MAX] {
        assert_eq!(
            kanuni::text::format_entity_id(id),
            uuid::Uuid::from_u128(id).to_string()
        );
    }
}

#[test]
fn outbound_commands_frame_exactly_as_the_wire_expects() {
    let raw: u128 = 0x123e4567e89b12d3a456426614174000;
    let sub = ClientMessage::Subscribe {
        channel_type: ChannelType::Analysis,
        id: raw,
    };
    assert_eq!(
        kanuni::websocket::encode_client_message(&sub),
        "{\"action\":\"subscribe\",\"channel_type\":\"analysis\",\"id\":\"123e4567-e89b-12d3-a456-426614174000\"}"
    );
    let unsub = ClientMessage::Unsubscribe {
        channel_type: ChannelType::Upload,
        id: 1,
    };
    assert_eq!(
        kanuni::websocket::encode_client_message(&unsub),
        "{\"action\":\"unsubscribe\",\"channel_type\":\"upload\",\"id\":\"00000000-0000-0000-0000-000000000001\"}"
    );
    assert_eq!(
        kanuni::websocket::encode_client_message(&ClientMessage::Ping),
        "{\"action\":\"ping\"}"
    );
}
