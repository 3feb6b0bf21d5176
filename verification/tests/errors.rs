use glommactor::error::relay;
use glommactor::text::decimal;
use glommactor::ActorError;

fn message(error: ActorError<u8>) -> String {
    error.message()
}

#[test]
fn every_error_has_its_text() {
    assert_eq!(
        message(ActorError::ActorError("broken".to_string())),
        "Actor error broken"
    );
    assert_eq!(
        message(ActorError::SendError(flume::SendError(1))),
        "Send Errorsending on a closed channel"
    );
    assert_eq!(
        message(ActorError::RecvError(flume::RecvError::Disconnected)),
        "Recv Errorreceiving on a closed channel"
    );
    assert_eq!(
        message(ActorError::IoError(std::io::Error::other("disk"))),
        "Io Error"
    );
    assert_eq!(
        message(ActorError::ChannelClosed),
        "Channel closed, no messages left to process"
    );
    assert_eq!(
        message(ActorError::SystemError("full".to_string())),
        "System error full"
    );
    assert_eq!(
        message(ActorError::HeartbeatTimeout(65534)),
        "Actor heartbeat timed out 65534"
    );
    assert_eq!(message(ActorError::Unknown), "Unknown");
}

#[test]
fn debug_names_the_variant() {
    let error: ActorError<u8> = ActorError::ActorError("a \"b\"".to_string());
    assert_eq!(format!("{:?}", error), "ActorError(\"a \\\"b\\\"\")");
    let error: ActorError<u8> = ActorError::SendError(flume::SendError(1));
    assert_eq!(format!("{:?}", error), "SendError(\"SendError(..)\")");
    let error: ActorError<u8> = ActorError::RecvError(flume::RecvError::Disconnected);
    assert_eq!(format!("{:?}", error), "RecvError(Disconnected)");
    let error: ActorError<u8> = ActorError::ChannelClosed;
    assert_eq!(format!("{:?}", error), "ChannelClosed");
    let error: ActorError<u8> = ActorError::HeartbeatTimeout(3);
    assert_eq!(format!("{:?}", error), "HeartbeatTimeout(3)");
    let error: ActorError<u8> = ActorError::Unknown;
    assert_eq!(format!("{:?}", error), "Unknown");
}

#[test]
fn outside_errors_become_their_variants() {
    assert!(matches!(
        ActorError::from(flume::SendError(4u8)),
        ActorError::SendError(flume::SendError(4))
    ));
    let error: ActorError<u8> = ActorError::from(flume::RecvError::Disconnected);
    assert!(matches!(error, ActorError::RecvError(_)));
    let error: ActorError<u8> = ActorError::from(std::io::Error::other("disk"));
    assert!(matches!(error, ActorError::IoError(_)));
}

#[test]
fn relayed_errors_read_the_same() {
    let error: ActorError<u16> = relay(ActorError::<u8>::SystemError("full".to_string()));
    assert_eq!(error.message(), "System error full");
    let error: ActorError<u16> = relay(ActorError::<u8>::HeartbeatTimeout(9));
    assert_eq!(error.message(), "Actor heartbeat timed out 9");
    let error: ActorError<u16> = relay(ActorError::<u8>::ChannelClosed);
    assert!(matches!(error, ActorError::ChannelClosed));
    let error: ActorError<u16> = relay(ActorError::<u8>::Unknown);
    assert!(matches!(error, ActorError::Unknown));
    let error: ActorError<u16> = relay(ActorError::SendError(flume::SendError(1u8)));
    assert_eq!(error.message(), "Actor error Send error \"SendError(..)\"");
}

#[test]
fn decimal_agrees_with_the_standard_text() {
    for n in [0u16, 1, 9, 10, 19, 100, 101, 999, 1000, 12345, 65535] {
        assert_eq!(decimal(n), n.to_string());
    }
}
