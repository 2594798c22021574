use kanuni::error::{AuthError, ConnectivityError, ErrorKind, SubscriptionError};
use kanuni::progress::ChannelType;
use kanuni::registry::{Subscription, SubscriptionRegistry};

fn sub(ct: ChannelType, id: u128) -> Subscription {
    Subscription { channel_type: ct, id }
}

#[test]
fn snapshot_lists_adds_in_order() {
    let mut r = SubscriptionRegistry::new();
    r.add(ChannelType::Upload, 1);
    r.add(ChannelType::Analysis, 2);
    r.add(ChannelType::Batch, 3);
    let snap = r.snapshot();
    assert_eq!(
        snap,
        vec![
            sub(ChannelType::Upload, 1),
            sub(ChannelType::Analysis, 2),
            sub(ChannelType::Batch, 3)
        ]
    );
}

#[test]
fn duplicate_add_is_a_no_op() {
    let mut r = SubscriptionRegistry::new();
    r.add(ChannelType::Upload, 7);
    r.add(ChannelType::Upload, 7);
    assert_eq!(r.len(), 1);
    assert_eq!(r.snapshot(), vec![sub(ChannelType::Upload, 7)]);
}

#[test]
fn same_id_under_two_channels_is_two_pairs() {
    let mut r = SubscriptionRegistry::new();
    r.add(ChannelType::Upload, 7);
    r.add(ChannelType::Analysis, 7);
    assert_eq!(r.len(), 2);
    assert!(r.contains(ChannelType::Upload, 7));
    assert!(r.contains(ChannelType::Analysis, 7));
}

#[test]
fn remove_keeps_order_of_the_rest() {
    let mut r = SubscriptionRegistry::new();
    r.add(ChannelType::Upload, 1);
    r.add(ChannelType::Analysis, 2);
    r.add(ChannelType::Batch, 3);
    r.remove(ChannelType::Analysis, 2);
    assert_eq!(
        r.snapshot(),
        vec![sub(ChannelType::Upload, 1), sub(ChannelType::Batch, 3)]
    );
}

#[test]
fn remove_of_a_non_member_is_a_no_op() {
    let mut r = SubscriptionRegistry::new();
    r.add(ChannelType::Upload, 1);
    r.remove(ChannelType::Upload, 99);
    r.remove(ChannelType::Batch, 1);
    assert_eq!(r.snapshot(), vec![sub(ChannelType::Upload, 1)]);
}

#[test]
fn snapshot_tracks_any_mix_of_calls() {
    let mut r = SubscriptionRegistry::new();
    r.add(ChannelType::Upload, 1);
    r.add(ChannelType::Analysis, 2);
    r.add(ChannelType::Upload, 1);
    r.remove(ChannelType::Upload, 1);
    r.add(ChannelType::Batch, 3);
    r.add(ChannelType::Upload, 1);
    r.remove(ChannelType::User, 42);
    let snap = r.snapshot();
    assert_eq!(
        snap,
        vec![
            sub(ChannelType::Analysis, 2),
            sub(ChannelType::Batch, 3),
            sub(ChannelType::Upload, 1)
        ]
    );
    for i in 0..snap.len() {
        for j in (i + 1)..snap.len() {
            assert_ne!(snap[i], snap[j]);
        }
    }
}

#[test]
fn contains_reflects_membership() {
    let mut r = SubscriptionRegistry::new();
    assert!(!r.contains(ChannelType::Upload, 1));
    r.add(ChannelType::Upload, 1);
    assert!(r.contains(ChannelType::Upload, 1));
    assert!(!r.contains(ChannelType::Analysis, 1));
    r.remove(ChannelType::Upload, 1);
    assert!(!r.contains(ChannelType::Upload, 1));
}

#[test]
fn error_messages_are_clear_and_categorized() {
    assert_eq!(AuthError::NotAuthenticated.category(), ErrorKind::Authentication);
    assert_eq!(
        AuthError::NotAuthenticated.describe(),
        "Not authenticated. Please run 'kanuni auth login'"
    );
    assert_eq!(
        AuthError::RefreshRejected.describe(),
        "Refresh token is invalid or expired. Please login again."
    );
    assert_eq!(SubscriptionError::NotConnected.category(), ErrorKind::Subscription);
    assert_eq!(SubscriptionError::NotConnected.describe(), "WebSocket not connected");
    assert_eq!(
        ConnectivityError::AttemptsExhausted.category(),
        ErrorKind::Connectivity
    );
    assert_eq!(
        ConnectivityError::AttemptsExhausted.describe(),
        "Max reconnection attempts reached"
    );
}
