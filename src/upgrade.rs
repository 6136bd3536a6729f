//! The authenticated upgrade: the noise handshake runs first, then the
//! approver decides on the peer it identified, and only an approved peer's
//! secured channel reaches the caller.

use crate::protocol::{protocol_id, protocol_id_of, Checksum};
use libp2p::noise::Config as NoiseConfig;
use libp2p::PeerId;
use vstd::prelude::*;

verus! {

#[verifier::external_type_specification]
#[verifier::external_body]
pub struct ExNoiseConfig(libp2p::noise::Config);

#[verifier::external_type_specification]
#[verifier::external_body]
pub struct ExPeerId(libp2p::PeerId);

/// Decides whether a peer that the handshake identified may go on.
pub trait Approver {
    /// The approver's answer on `peer_id`, as a predicate over the snapshot
    /// of its knowledge that a call reads.
    spec fn allows(&self, peer_id: PeerId) -> bool;

    /// Allows the connection of `peer_id`, by what the approver knows of the
    /// connection state at the time of the call.
    fn allow_peer(&self, peer_id: &PeerId) -> (r: bool)
        ensures
            r == self.allows(*peer_id),
    ;
}

/// An approver that lets every peer through.
#[derive(Clone, Copy, Debug)]
pub struct AllowAll;

impl Approver for AllowAll {
    open spec fn allows(&self, peer_id: PeerId) -> bool {
        true
    }

    fn allow_peer(&self, _peer_id: &PeerId) -> bool {
        true
    }
}

/// Why an upgrade did not hand a channel back.
#[derive(Clone, Debug, PartialEq, Eq)]
pub enum UpgradeError<E> {
    /// The handshake itself failed; its error comes through unchanged.
    Handshake(E),
    /// The handshake succeeded but the approver refused the peer.
    AuthenticationFailed,
}

/// What the upgrade returns once the handshake has identified `peer_id` and
/// the approver has answered `allowed`.
pub open spec fn concluded<C, E>(peer_id: PeerId, channel: C, allowed: bool) -> Result<
    (PeerId, C),
    UpgradeError<E>,
> {
    if allowed {
        Ok((peer_id, channel))
    } else {
        Err(UpgradeError::AuthenticationFailed)
    }
}

/// What the upgrade returns for a handshake result and the approver's answer;
/// the answer counts only where the handshake succeeded.
pub open spec fn upgrade_outcome<C, E>(handshake: Result<(PeerId, C), E>, allowed: bool) -> Result<
    (PeerId, C),
    UpgradeError<E>,
> {
    match handshake {
        Ok((peer_id, channel)) => concluded(peer_id, channel, allowed),
        Err(e) => Err(UpgradeError::Handshake(e)),
    }
}

/// What an upgrade with `approver` returns for a handshake result: the
/// approver's answer on the identified peer decides, and it is asked only
/// where the handshake succeeded.
pub open spec fn authenticated<A: Approver, C, E>(
    approver: A,
    handshake: Result<(PeerId, C), E>,
) -> Result<(PeerId, C), UpgradeError<E>> {
    upgrade_outcome(handshake, handshake is Ok && approver.allows(handshake->Ok_0.0))
}

/// An upgrade succeeds exactly when the handshake succeeded and the approver
/// allows the peer it identified, and then returns that peer with its own
/// channel; a refused peer gives the authentication failure and its channel
/// is not returned; a failed handshake gives its own error, whatever the
/// approver would answer.
pub proof fn lemma_authenticated<A: Approver, C, E>(
    approver: A,
    handshake: Result<(PeerId, C), E>,
)
    ensures
        authenticated(approver, handshake) is Ok <==> (handshake is Ok && approver.allows(
            handshake->Ok_0.0,
        )),
        authenticated(approver, handshake) is Ok ==> authenticated(approver, handshake) == Ok::<
            (PeerId, C),
            UpgradeError<E>,
        >(handshake->Ok_0),
        handshake is Ok && !approver.allows(handshake->Ok_0.0) ==> authenticated(
            approver,
            handshake,
        ) == Err::<(PeerId, C), UpgradeError<E>>(UpgradeError::AuthenticationFailed),
        handshake is Err ==> authenticated(approver, handshake) == Err::<
            (PeerId, C),
            UpgradeError<E>,
        >(UpgradeError::Handshake(handshake->Err_0)),
{
}

/// Inbound and outbound upgrades end alike: with approvers that give the same
/// answers, where both handshakes identified the same peer, or both failed
/// with the same error, both upgrades succeed with that peer or both fail
/// with the same error, whatever their channels are.
pub proof fn lemma_directions_agree<A: Approver, B: Approver, C, D, E>(
    inbound_approver: A,
    outbound_approver: B,
    inbound: Result<(PeerId, C), E>,
    outbound: Result<(PeerId, D), E>,
)
    requires
        forall|p: PeerId| inbound_approver.allows(p) == outbound_approver.allows(p),
        (inbound is Ok && outbound is Ok && inbound->Ok_0.0 == outbound->Ok_0.0) || (inbound is Err
            && outbound is Err && inbound->Err_0 == outbound->Err_0),
    ensures
        authenticated(inbound_approver, inbound) is Ok <==> authenticated(
            outbound_approver,
            outbound,
        ) is Ok,
        authenticated(inbound_approver, inbound) is Ok ==> authenticated(
            inbound_approver,
            inbound,
        )->Ok_0.0 == authenticated(outbound_approver, outbound)->Ok_0.0,
        authenticated(inbound_approver, inbound) is Err ==> authenticated(
            inbound_approver,
            inbound,
        )->Err_0 == authenticated(outbound_approver, outbound)->Err_0,
{
}

/// Hands the channel back when the peer is allowed, and otherwise drops it
/// unused and reports the refusal.
pub fn conclude<C, E>(peer_id: PeerId, channel: C, allowed: bool) -> (r: Result<
    (PeerId, C),
    UpgradeError<E>,
>)
    ensures
        r == concluded::<C, E>(peer_id, channel, allowed),
{
    if allowed {
        Ok((peer_id, channel))
    } else {
        Err(UpgradeError::AuthenticationFailed)
    }
}

/// Relies on libp2p-noise's `UpgradeInfo for Config`: `protocol_info` yields
/// exactly one name, `/noise`.
#[verifier::external_body]
fn noise_protocol_name(config: &NoiseConfig) -> (r: Option<String>)
    ensures
        r is Some,
        r->0@ == "/noise"@,
{
    libp2p::core::UpgradeInfo::protocol_info(config).next().map(String::from)
}

/// The noise handshake, an approver, and the checksum that qualifies the
/// advertised protocol name.
pub struct FuelAuthenticated<A: Approver> {
    noise_authenticated: NoiseConfig,
    approver: A,
    checksum: Checksum,
}

impl<A: Approver> FuelAuthenticated<A> {
    /// The handshake configuration that the upgrade drives.
    pub closed spec fn spec_noise(&self) -> NoiseConfig {
        self.noise_authenticated
    }

    /// The approver that decides on identified peers.
    pub closed spec fn spec_approver(&self) -> A {
        self.approver
    }

    /// The bytes of the checksum that qualifies the advertised name.
    pub closed spec fn spec_checksum(&self) -> Seq<u8> {
        self.checksum@
    }

    pub fn new(noise_authenticated: NoiseConfig, approver: A, checksum: Checksum) -> (r: Self)
        ensures
            r.spec_noise() == noise_authenticated,
            r.spec_approver() == approver,
            r.spec_checksum() == checksum@,
    {
        FuelAuthenticated { noise_authenticated, approver, checksum }
    }

    pub fn noise_config(&self) -> (r: &NoiseConfig)
        ensures
            *r == self.spec_noise(),
    {
        &self.noise_authenticated
    }

    pub fn approver(&self) -> (r: &A)
        ensures
            *r == self.spec_approver(),
    {
        &self.approver
    }

    pub fn checksum(&self) -> (r: &Checksum)
        ensures
            r@ == self.spec_checksum(),
    {
        &self.checksum
    }

    /// The one protocol name this upgrade advertises: the noise name, a
    /// slash, and the checksum in lowercase hexadecimal.
    pub fn protocol_info(&self) -> (r: String)
        ensures
            r@ == protocol_id_of("/noise"@, self.spec_checksum()),
    {
        let base = noise_protocol_name(&self.noise_authenticated).unwrap();
        protocol_id(base.as_str(), &self.checksum)
    }

    /// Finishes an upgrade, inbound or outbound alike, once the handshake has
    /// resolved: a handshake error comes back unchanged and the approver is
    /// not asked; otherwise the approver is asked about the identified peer,
    /// and its answer decides between that peer with its channel and the
    /// refusal.
    pub fn complete<C, E>(&self, handshake: Result<(PeerId, C), E>) -> (r: Result<
        (PeerId, C),
        UpgradeError<E>,
    >)
        ensures
            r == upgrade_outcome(handshake, true) || r == upgrade_outcome(handshake, false),
            handshake is Err ==> r == Err::<(PeerId, C), UpgradeError<E>>(
                UpgradeError::Handshake(handshake->Err_0),
            ),
            r == authenticated(self.spec_approver(), handshake),
            handshake is Ok ==> r == concluded::<C, E>(
                handshake->Ok_0.0,
                handshake->Ok_0.1,
                self.spec_approver().allows(handshake->Ok_0.0),
            ),
            handshake is Ok ==> (r is Ok <==> r == Ok::<(PeerId, C), UpgradeError<E>>(
                handshake->Ok_0,
            )),
            handshake is Ok ==> (r is Err <==> r == Err::<(PeerId, C), UpgradeError<E>>(
                UpgradeError::AuthenticationFailed,
            )),
    {
        match handshake {
            Ok((peer_id, channel)) => {
                let allowed = self.approver.allow_peer(&peer_id);
                conclude(peer_id, channel, allowed)
            },
            Err(e) => Err(UpgradeError::Handshake(e)),
        }
    }
}

} // verus!
