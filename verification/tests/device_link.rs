use meta_secret_core::error::CoreError;
use meta_secret_core::ids::{Base64Text, IdString};
use meta_secret_core::model::channel::CommunicationChannel;
use meta_secret_core::model::device::DeviceId;
use meta_secret_core::model::device_link::{DeviceLink, DeviceLinkId, LoopbackDeviceLink, PeerToPeerDeviceLink};
use meta_secret_core::model::keys::TransportPk;

fn transport_pk(name: &str) -> TransportPk {
    TransportPk(Base64Text(format!("transport-pk-{}", name)))
}

fn device_id(name: &str) -> DeviceId {
    transport_pk(name).to_device_id()
}

#[test]
fn test_device_link_builder() -> Result<(), CoreError> {
    let sender = device_id("sender");
    let receiver = device_id("receiver");

    let device_link = sender.clone().loopback().peer_to_peer(receiver.clone())?.to_device_link();

    assert_eq!(
        device_link,
        DeviceLink::PeerToPeer(PeerToPeerDeviceLink { sender: sender.clone(), receiver })
    );

    let device_link = sender.clone().loopback();

    assert_eq!(device_link, LoopbackDeviceLink { device: sender });

    Ok(())
}

#[test]
fn test_building_device_link_id_from_device_link() -> Result<(), CoreError> {
    let sender = device_id("sender");
    let receiver = device_id("receiver");

    let device_link = sender.clone().loopback().peer_to_peer(receiver.clone())?.to_device_link();

    let link_id = DeviceLinkId::from(device_link);

    println!("{:?}", link_id.id_str());

    Ok(())
}

#[test]
fn test_is_loopback() -> Result<(), CoreError> {
    let device_id1 = device_id("one");

    let loopback_link = device_id1.clone().loopback().to_device_link();
    assert!(loopback_link.is_loopback());

    let device_id2 = device_id("two");

    let p2p_link = device_id1.loopback().peer_to_peer(device_id2)?.to_device_link();
    assert!(!p2p_link.is_loopback());

    Ok(())
}

#[test]
fn test_device_link_contains() -> Result<(), CoreError> {
    let device_id1 = device_id("one");
    let device_id2 = device_id("two");
    let device_id3 = device_id("three");

    let loopback_link = device_id1.clone().loopback().to_device_link();
    assert!(loopback_link.contains(&device_id1));
    assert!(!loopback_link.contains(&device_id2));

    let p2p_link = device_id1.clone().loopback().peer_to_peer(device_id2.clone())?.to_device_link();
    assert!(p2p_link.contains(&device_id1));
    assert!(p2p_link.contains(&device_id2));
    assert!(!p2p_link.contains(&device_id3));

    Ok(())
}

#[test]
fn test_peer_to_peer_inverse() -> Result<(), CoreError> {
    let device_id1 = device_id("one");
    let device_id2 = device_id("two");

    let p2p_link = PeerToPeerDeviceLink { sender: device_id1.clone(), receiver: device_id2.clone() };

    let inverse = p2p_link.inverse();

    assert_eq!(inverse.sender, device_id2);
    assert_eq!(inverse.receiver, device_id1);

    let double_inverse = inverse.inverse();
    assert_eq!(double_inverse.sender, device_id1);
    assert_eq!(double_inverse.receiver, device_id2);

    Ok(())
}

#[test]
fn test_peer_to_peer_creation_error() -> Result<(), CoreError> {
    let device_id1 = device_id("one");

    let result = device_id1.clone().loopback().peer_to_peer(device_id1);

    assert!(result.is_err());

    Ok(())
}

#[test]
fn test_device_link_id_properties() -> Result<(), CoreError> {
    let device_id1 = device_id("one");
    let device_id2 = device_id("two");

    let forward_link = device_id1.clone().loopback().peer_to_peer(device_id2.clone())?.to_device_link();
    let reverse_link = device_id2.loopback().peer_to_peer(device_id1)?.to_device_link();

    let forward_id = DeviceLinkId::from(forward_link);
    let reverse_id = DeviceLinkId::from(reverse_link);

    assert_eq!(forward_id.id_str(), reverse_id.id_str());

    Ok(())
}

#[test]
fn test_try_from_communication_channel() -> Result<(), CoreError> {
    let sender_id = transport_pk("one").to_device_id();
    let receiver_id = transport_pk("two").to_device_id();

    let channel = CommunicationChannel::build(transport_pk("one"), transport_pk("two"));

    let device_link = DeviceLink::try_from_channel(&channel)?;

    assert_eq!(device_link.sender(), sender_id);
    assert_eq!(device_link.receiver(), receiver_id);

    assert!(!device_link.is_loopback());

    Ok(())
}

#[test]
fn test_device_link_sender_receiver() -> Result<(), CoreError> {
    let device_id0 = device_id("zero");

    let loopback_link = device_id0.clone().loopback().to_device_link();

    assert_eq!(loopback_link.sender(), device_id0.clone());
    assert_eq!(loopback_link.receiver(), device_id0.clone());

    let device_id1 = device_id("one");
    let device_id2 = device_id("two");

    let p2p_link = device_id1.clone().loopback().peer_to_peer(device_id2.clone())?.to_device_link();

    assert_eq!(p2p_link.sender(), device_id1);
    assert_eq!(p2p_link.receiver(), device_id2);

    Ok(())
}

#[test]
fn device_id_is_a_hash_of_the_transport_key() {
    let id = device_id("one");
    assert_eq!(id.to_string().len(), 11);
    assert_ne!(id.to_string(), "transport-pk-one");
    assert_eq!(id, device_id("one"));
}

#[test]
fn same_device_error_is_reported() {
    let d = device_id("one");
    let result = d.clone().loopback().peer_to_peer(d);
    assert_eq!(result.unwrap_err(), CoreError::SameSenderAndReceiver);
}
