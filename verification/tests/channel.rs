use meta_secret_core::ids::Base64Text;
use meta_secret_core::model::channel::CommunicationChannel;
use meta_secret_core::model::keys::TransportPk;

fn transport_pk(name: &str) -> TransportPk {
    TransportPk(Base64Text(format!("transport-pk-{}", name)))
}

#[test]
fn test_channel_inverse() {
    let sender = transport_pk("alice");
    let receiver = transport_pk("bob");

    let channel = CommunicationChannel::build(sender.clone(), receiver.clone());
    let inverse_channel = channel.inverse();

    assert_eq!(&receiver, inverse_channel.sender());
    assert_eq!(&sender, inverse_channel.receiver());
}

#[test]
fn test_channel_peer_function_end2end() {
    let sender_pk = transport_pk("alice");
    let receiver_pk = transport_pk("bob");

    let channel = CommunicationChannel::build(sender_pk.clone(), receiver_pk.clone());

    let peer_of_sender = channel.peer(&sender_pk).unwrap();
    assert_eq!(peer_of_sender, &receiver_pk);

    let peer_of_receiver = channel.peer(&receiver_pk).unwrap();
    assert_eq!(peer_of_receiver, &sender_pk);

    let result = channel.peer(&transport_pk("charlie"));
    assert!(result.is_err());
}

#[test]
fn test_channel_peer_function_loopback() {
    let device_pk = transport_pk("alice");

    let loopback = CommunicationChannel::single_device(device_pk.clone());
    let channel = loopback.to_channel();

    let peer = channel.peer(&device_pk).unwrap();
    assert_eq!(peer, &device_pk);

    let result = channel.peer(&transport_pk("bob"));
    assert!(result.is_err());
}

#[test]
fn test_channel_contains() {
    let sender_pk = transport_pk("alice");
    let receiver_pk = transport_pk("bob");
    let outsider_pk = transport_pk("charlie");

    let channel = CommunicationChannel::build(sender_pk.clone(), receiver_pk.clone());

    assert!(channel.contains(&sender_pk));
    assert!(channel.contains(&receiver_pk));
    assert!(!channel.contains(&outsider_pk));

    let loopback = CommunicationChannel::single_device(sender_pk.clone());
    let single_channel = loopback.to_channel();

    assert!(single_channel.contains(&sender_pk));
    assert!(!single_channel.contains(&receiver_pk));
}

#[test]
fn test_loopback_to_end2end_conversion() {
    let device_pk = transport_pk("alice");
    let receiver_pk = transport_pk("bob");

    let loopback = CommunicationChannel::single_device(device_pk.clone());
    let e2e_channel = loopback.build_end_2_end(receiver_pk.clone()).unwrap();

    assert_eq!(e2e_channel.sender, device_pk);
    assert_eq!(e2e_channel.receiver, receiver_pk);

    let channel = e2e_channel.to_channel();

    match channel {
        CommunicationChannel::End2End(e2e) => {
            assert_eq!(e2e.sender, device_pk);
            assert_eq!(e2e.receiver, receiver_pk);
        }
        _ => panic!("Expected End2End channel"),
    }
}

#[test]
fn test_end2end_channel_creation() {
    let sender_pk = transport_pk("alice");
    let receiver_pk = transport_pk("bob");

    let channel = CommunicationChannel::build(sender_pk.clone(), receiver_pk.clone());

    match channel {
        CommunicationChannel::End2End(e2e) => {
            assert_eq!(e2e.sender, sender_pk);
            assert_eq!(e2e.receiver, receiver_pk);
        }
        _ => panic!("Expected End2End channel"),
    }
}

#[test]
fn test_channel_recipients() {
    let sender_pk = transport_pk("alice");
    let receiver_pk = transport_pk("bob");

    let channel = CommunicationChannel::build(sender_pk.clone(), receiver_pk.clone());
    let recipients = channel.recipient_keys();
    assert_eq!(recipients.len(), 2);

    let loopback = CommunicationChannel::single_device(sender_pk.clone());
    let single_channel = loopback.to_channel();
    let single_recipients = single_channel.recipient_keys();
    assert_eq!(single_recipients.len(), 1);
}

#[test]
fn inverse_twice_gives_the_channel_back() {
    let channel = CommunicationChannel::build(transport_pk("alice"), transport_pk("bob"));
    let back = channel.clone().inverse().inverse();
    assert_eq!(back.sender(), channel.sender());
    assert_eq!(back.receiver(), channel.receiver());
}

#[test]
fn end2end_channel_to_the_same_key_reports_the_device() {
    let device_pk = transport_pk("alice");
    let loopback = CommunicationChannel::single_device(device_pk.clone());
    let err = loopback.build_end_2_end(device_pk.clone()).unwrap_err();
    assert_eq!(err, meta_secret_core::error::CoreError::CommunicationChannelError { device: device_pk });
}
