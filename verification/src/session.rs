//! A per-session state machine for the two-round nonce exchange.
//!
//! Round 1 exchanges commitments, and the peer's commitment is recorded in
//! the session; round 2 reveals the nonce point and the blinding factor,
//! and a reveal is only accepted against a previously recorded commitment.
//! A reveal that does not match moves the session to the terminal
//! `Rejected` state, and a rejected session never produces a partial
//! signature.

use vstd::prelude::*;

use curv::BigInt;

use crate::algebra::add_model;
use crate::algebra::bigint_clone;
use crate::algebra::commit_model;
use crate::algebra::group_order;
use crate::algebra::int_value;
use crate::algebra::is_zero_model;
use crate::algebra::point_clone;
use crate::algebra::point_is_zero;
use crate::algebra::point_model;
use crate::algebra::x_coord_of;
use crate::algebra::GroupPoint;
use crate::multi_sig::commit_check_model;
use crate::multi_sig::partial_sig_model;
use crate::multi_sig::EphemeralKey;
use crate::multi_sig::KeyPair;

verus! {

/// Where a signing session's nonce exchange stands.
#[derive(Clone, Copy, Debug, PartialEq, Eq, Structural)]
pub enum SessionStatus {
    /// The own commitment is ready to send; the peer's reveal is pending.
    Created,
    /// The peer's reveal matched its commitment; the session is usable.
    Verified,
    /// The peer's reveal did not match; the session is terminal and has
    /// failed. The co-signer should be treated as faulty or malicious.
    Rejected,
}

/// One signer's nonce-exchange session: a fresh ephemeral nonce, the
/// commitment to it, the peer's recorded round-1 commitment, and — once
/// round 2 has been checked — the peer's revealed nonce point.
pub struct NonceSession {
    eph: EphemeralKey,
    peer_commitment: Option<BigInt>,
    peer_nonce: Option<GroupPoint>,
    status: SessionStatus,
}

impl NonceSession {
    /// The session's state.
    pub closed spec fn status(self) -> SessionStatus {
        self.status
    }

    /// The value of this session's secret nonce scalar.
    pub closed spec fn own_nonce_secret(self) -> int {
        self.eph.keypair.secret()
    }

    /// The model of this session's nonce point.
    pub closed spec fn own_point(self) -> int {
        self.eph.keypair.point()
    }

    /// The commitment sent in round 1.
    pub closed spec fn own_commitment(self) -> int {
        int_value(self.eph.commitment)
    }

    /// The blinding factor revealed in round 2.
    pub closed spec fn own_blind(self) -> int {
        int_value(self.eph.blind_factor)
    }

    /// Whether the peer's round-1 commitment has been recorded.
    pub closed spec fn has_peer_commitment(self) -> bool {
        self.peer_commitment is Some
    }

    /// The peer's recorded round-1 commitment.
    pub closed spec fn peer_commitment_value(self) -> int {
        match self.peer_commitment {
            Option::Some(c) => int_value(c),
            Option::None => 0,
        }
    }

    /// The model of the peer's verified nonce point.
    pub closed spec fn peer_point(self) -> int {
        match self.peer_nonce {
            Option::Some(p) => point_model(p),
            Option::None => 0,
        }
    }

    /// The session invariant: the nonce key pair is well formed and not
    /// the zero point, the commitment commits to its x coordinate under
    /// the session's blinding factor, and a `Verified` session holds a
    /// non-zero peer nonce point.
    pub closed spec fn wf(self) -> bool {
        &&& self.eph.keypair.wf()
        &&& !is_zero_model(self.own_point())
        &&& int_value(self.eph.commitment) == commit_model(
            x_coord_of(self.own_point()),
            int_value(self.eph.blind_factor),
        )
        &&& (self.status == SessionStatus::Verified ==> self.peer_nonce is Some
            && !is_zero_model(self.peer_point()))
    }

    /// Open a session: sample a fresh nonce and commit to it.
    pub fn start() -> (s: NonceSession)
        ensures
            s.wf(),
            s.status() == SessionStatus::Created,
            !s.has_peer_commitment(),
            1 <= s.own_nonce_secret() < group_order(),
            s.own_commitment() == commit_model(x_coord_of(s.own_point()), s.own_blind()),
    {
        let eph = EphemeralKey::create();
        NonceSession {
            eph,
            peer_commitment: Option::None,
            peer_nonce: Option::None,
            status: SessionStatus::Created,
        }
    }

    /// The round-1 message: the commitment to this session's nonce point.
    pub fn commitment_message(&self) -> (r: BigInt)
        ensures
            int_value(r) == self.own_commitment(),
    {
        bigint_clone(&self.eph.commitment)
    }

    /// The round-2 message: the revealed nonce point and blinding factor.
    pub fn reveal_message(&self) -> (r: (GroupPoint, BigInt))
        ensures
            point_model(r.0) == self.own_point(),
            int_value(r.1) == self.own_blind(),
    {
        (self.eph.keypair.public_point(), bigint_clone(&self.eph.blind_factor))
    }

    /// Round 1: record the peer's commitment. A reveal is only accepted
    /// after this step, so a peer cannot choose its nonce after seeing the
    /// other reveals.
    pub fn record_commitment(&mut self, peer_commitment: &BigInt)
        requires
            old(self).wf(),
            old(self).status() == SessionStatus::Created,
            !old(self).has_peer_commitment(),
        ensures
            final(self).wf(),
            final(self).status() == SessionStatus::Created,
            final(self).has_peer_commitment(),
            final(self).peer_commitment_value() == int_value(*peer_commitment),
            final(self).own_nonce_secret() == old(self).own_nonce_secret(),
            final(self).own_point() == old(self).own_point(),
            final(self).own_commitment() == old(self).own_commitment(),
            final(self).own_blind() == old(self).own_blind(),
    {
        self.peer_commitment = Option::Some(bigint_clone(peer_commitment));
    }

    /// Round 2: check the peer's revealed nonce point against the
    /// commitment recorded in round 1. The session becomes `Verified`
    /// exactly when the reveal is a non-zero point whose commitment under
    /// the revealed blinding factor equals the recorded commitment, and
    /// `Rejected` otherwise; the own nonce is unchanged either way.
    pub fn record_reveal(&mut self, peer_point: &GroupPoint, peer_blind: &BigInt)
        requires
            old(self).wf(),
            old(self).status() == SessionStatus::Created,
            old(self).has_peer_commitment(),
        ensures
            final(self).wf(),
            final(self).own_nonce_secret() == old(self).own_nonce_secret(),
            final(self).own_point() == old(self).own_point(),
            final(self).own_commitment() == old(self).own_commitment(),
            final(self).own_blind() == old(self).own_blind(),
            (final(self).status() == SessionStatus::Verified) == (!is_zero_model(
                point_model(*peer_point),
            ) && commit_check_model(
                x_coord_of(point_model(*peer_point)),
                int_value(*peer_blind),
                old(self).peer_commitment_value(),
            )),
            final(self).status() == SessionStatus::Verified ==> final(self).peer_point()
                == point_model(*peer_point),
            final(self).status() != SessionStatus::Verified ==> final(self).status()
                == SessionStatus::Rejected,
    {
        if point_is_zero(peer_point) {
            self.status = SessionStatus::Rejected;
            return;
        }
        let ok = match &self.peer_commitment {
            Option::Some(comm) => EphemeralKey::test_com(peer_point, peer_blind, comm),
            Option::None => vstd::pervasive::unreached(),
        };
        if ok {
            self.peer_nonce = Option::Some(point_clone(peer_point));
            self.status = SessionStatus::Verified;
        } else {
            self.status = SessionStatus::Rejected;
        }
    }

    /// The session's state, for the caller to inspect.
    pub fn current_status(&self) -> (r: SessionStatus)
        ensures
            r == self.status(),
    {
        self.status
    }

    /// The aggregate nonce `R`: this session's nonce point plus the
    /// peer's verified nonce point; `None` unless the session is
    /// `Verified`.
    pub fn aggregate_nonce(&self) -> (r: Option<GroupPoint>)
        requires
            self.wf(),
        ensures
            (r is Some) == (self.status() == SessionStatus::Verified),
            r matches Some(p) ==> point_model(p) == add_model(self.own_point(), self.peer_point())
                && point_model(p) == add_model(self.peer_point(), self.own_point()),
    {
        match self.status {
            SessionStatus::Verified => match &self.peer_nonce {
                Option::Some(p) => {
                    let own = self.eph.keypair.public_point();
                    Option::Some(EphemeralKey::add_ephemeral_pub_keys(&own, p))
                },
                Option::None => vstd::pervasive::unreached(),
            },
            _ => Option::None,
        }
    }

    /// This signer's partial signature for challenge `c`, long-term key
    /// pair `x` and own aggregation coefficient `a`; `None` unless the
    /// session is `Verified` — a rejected session never signs.
    pub fn partial_signature(&self, c: &BigInt, x: &KeyPair, a: &BigInt) -> (r: Option<BigInt>)
        ensures
            (r is Some) == (self.status() == SessionStatus::Verified),
            r matches Some(s) ==> int_value(s) == partial_sig_model(
                self.own_nonce_secret(),
                int_value(*c),
                x.secret(),
                int_value(*a),
            ),
    {
        match self.status {
            SessionStatus::Verified => Option::Some(EphemeralKey::sign(&self.eph, c, x, a)),
            _ => Option::None,
        }
    }
}

} // verus!
