use fuel_authenticated::protocol::Checksum;
use fuel_authenticated::upgrade::{conclude, AllowAll, Approver, FuelAuthenticated, UpgradeError};
use libp2p::identity::Keypair;
use libp2p::noise::Config as NoiseConfig;
use libp2p::PeerId;
use std::cell::Cell;

fn peer(seed: u8) -> PeerId {
    Keypair::ed25519_from_bytes([seed; 32]).unwrap().public().to_peer_id()
}

fn noise_config() -> NoiseConfig {
    let keypair = Keypair::ed25519_from_bytes([42; 32]).unwrap();
    NoiseConfig::new(&keypair).unwrap()
}

struct DenyOne {
    denied: PeerId,
    calls: Cell<usize>,
}

impl DenyOne {
    fn new(denied: PeerId) -> DenyOne {
        DenyOne { denied, calls: Cell::new(0) }
    }
}

impl Approver for DenyOne {
    fn allows(&self, peer_id: PeerId) -> bool {
        peer_id != self.denied
    }

    fn allow_peer(&self, peer_id: &PeerId) -> bool {
        self.calls.set(self.calls.get() + 1);
        *peer_id != self.denied
    }
}

fn upgrade_denying(denied: PeerId) -> FuelAuthenticated<DenyOne> {
    FuelAuthenticated::new(noise_config(), DenyOne::new(denied), Checksum::new(vec![0xAB, 0xCD]))
}

#[test]
fn approved_peer_gets_its_channel() {
    let p2 = peer(2);
    let upgrade = upgrade_denying(peer(1));
    let result = upgrade.complete::<&str, String>(Ok((p2, "channel")));
    assert_eq!(result, Ok((p2, "channel")));
    assert_eq!(upgrade.approver().calls.get(), 1);
}

#[test]
fn refused_peer_gives_authentication_failure() {
    let p1 = peer(1);
    let upgrade = upgrade_denying(p1);
    let result = upgrade.complete::<&str, String>(Ok((p1, "channel")));
    assert_eq!(result, Err(UpgradeError::AuthenticationFailed));
    assert_eq!(upgrade.approver().calls.get(), 1);
}

#[test]
fn one_approver_rejects_first_peer_and_accepts_second() {
    let p1 = peer(1);
    let p2 = peer(2);
    let upgrade = upgrade_denying(p1);
    let first = upgrade.complete::<Vec<u8>, String>(Ok((p1, vec![1, 2])));
    let second = upgrade.complete::<Vec<u8>, String>(Ok((p2, vec![1, 2])));
    assert_eq!(first, Err(UpgradeError::AuthenticationFailed));
    assert_eq!(second, Ok((p2, vec![1, 2])));
}

#[test]
fn failed_handshake_skips_the_approver() {
    let upgrade = upgrade_denying(peer(1));
    let result = upgrade.complete::<&str, String>(Err("bad transcript".to_string()));
    assert_eq!(result, Err(UpgradeError::Handshake("bad transcript".to_string())));
    assert_eq!(upgrade.approver().calls.get(), 0);
}

#[test]
fn failed_handshake_error_is_not_authentication_failure() {
    let upgrade = FuelAuthenticated::new(noise_config(), AllowAll, Checksum::new(vec![1]));
    let result = upgrade.complete::<&str, u32>(Err(7));
    assert_ne!(result, Err(UpgradeError::AuthenticationFailed));
    assert_eq!(result, Err(UpgradeError::Handshake(7)));
}

#[test]
fn inbound_and_outbound_end_alike() {
    let p1 = peer(1);
    let p2 = peer(2);
    let upgrade = upgrade_denying(p1);
    let inbound_ok = upgrade.complete::<&str, String>(Ok((p2, "inbound")));
    let outbound_ok = upgrade.complete::<u64, String>(Ok((p2, 9)));
    assert_eq!(inbound_ok.map(|(p, _)| p), Ok(p2));
    assert_eq!(outbound_ok.map(|(p, _)| p), Ok(p2));
    let inbound_err = upgrade.complete::<&str, String>(Ok((p1, "inbound")));
    let outbound_err = upgrade.complete::<u64, String>(Ok((p1, 9)));
    assert_eq!(inbound_err, Err(UpgradeError::AuthenticationFailed));
    assert_eq!(outbound_err, Err(UpgradeError::AuthenticationFailed));
}

#[test]
fn allow_all_lets_every_peer_through() {
    let upgrade = FuelAuthenticated::new(noise_config(), AllowAll, Checksum::new(vec![1]));
    for seed in 1..5u8 {
        let p = peer(seed);
        assert!(AllowAll.allow_peer(&p));
        assert_eq!(upgrade.complete::<u8, String>(Ok((p, seed))), Ok((p, seed)));
    }
}

#[test]
fn conclude_follows_the_decision() {
    let p = peer(3);
    assert_eq!(conclude::<&str, String>(p, "c", true), Ok((p, "c")));
    assert_eq!(conclude::<&str, String>(p, "c", false), Err(UpgradeError::AuthenticationFailed));
}
