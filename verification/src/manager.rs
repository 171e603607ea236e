//! The sessions of a listener, at most one per peer.

use crate::addr::{other_peers_have_other_numbers, PeerAddr};
use crate::draws::Draws;
use std::collections::HashMap;
use vstd::prelude::*;
use vstd::std_specs::hash::group_hash_axioms;

verus! {

/// What serves a packet.
#[derive(Clone, Copy, Debug, PartialEq, Eq, Structural)]
pub enum Resolution {
    /// The session that the peer has.
    Existing,
    /// That depends on the conversation number of the session that the peer has.
    ReadConv,
    /// A new session for the peer, in place of the one that it may have.
    Create,
}

/// What serves a packet with conversation number `conv` and sequence number `sn`
/// of a peer that has a session where `has_session` holds. `session_conv` is the
/// conversation number of that session, if it was read.
pub open spec fn resolution(
    has_session: bool,
    conv: u32,
    sn: u32,
    session_conv: Option<u32>,
) -> Resolution {
    if !has_session {
        Resolution::Create
    } else if sn != 0 {
        Resolution::Existing
    } else {
        match session_conv {
            None => Resolution::ReadConv,
            Some(session_conv) if session_conv != conv => Resolution::Create,
            Some(_) => Resolution::Existing,
        }
    }
}

/// Handles of type `S` to the sessions of a listener, by peer.
pub struct KcpSessionManager<S> {
    sessions: HashMap<u128, HashMap<u128, S>>,
    allocated: Draws,
}

impl<S> View for KcpSessionManager<S> {
    type V = Map<PeerAddr, S>;

    closed spec fn view(&self) -> Map<PeerAddr, S> {
        Map::new(
            |peer: PeerAddr|
                self.sessions@.contains_key(peer.spec_host())
                    && self.sessions@[peer.spec_host()]@.contains_key(peer.spec_endpoint()),
            |peer: PeerAddr| self.sessions@[peer.spec_host()]@[peer.spec_endpoint()],
        )
    }
}

impl<S> KcpSessionManager<S> {
    /// The conversation numbers that were allocated so far, in order.
    pub closed spec fn allocated(self) -> Seq<u32> {
        self.allocated.numbers()
    }

    /// No peer has a session.
    pub fn new() -> (manager: KcpSessionManager<S>)
        ensures
            manager@ == Map::<PeerAddr, S>::empty(),
            manager.allocated() == Seq::<u32>::empty(),
    {
        let manager = KcpSessionManager { sessions: HashMap::new(), allocated: Draws::new() };
        manager
    }

    /// The session of `peer`.
    pub fn get(&self, peer: &PeerAddr) -> (session: Option<&S>)
        ensures
            session == (if self@.contains_key(*peer) {
                Some(&self@[*peer])
            } else {
                None
            }),
    {
        broadcast use group_hash_axioms;

        match self.sessions.get(&peer.host()) {
            Some(endpoints) => endpoints.get(&peer.endpoint()),
            None => None,
        }
    }

    /// Makes `session` the session of `peer`. Hands back the session that the peer
    /// had before, which has to be closed.
    pub fn insert(&mut self, peer: PeerAddr, session: S) -> (replaced: Option<S>)
        ensures
            final(self)@ == old(self)@.insert(peer, session),
            replaced == old(self)@.get(peer),
            final(self).allocated() == old(self).allocated(),
    {
        broadcast use group_hash_axioms;

        let host: u128 = peer.host();
        let mut endpoints = match self.sessions.remove(&host) {
            Some(endpoints) => endpoints,
            None => HashMap::new(),
        };
        let replaced = endpoints.insert(peer.endpoint(), session);
        self.sessions.insert(host, endpoints);
        proof {
            other_peers_have_other_numbers(peer);
        }
        replaced
    }

    /// Takes the session of `peer` out. Hands it back, as it has to be closed.
    pub fn close_peer(&mut self, peer: PeerAddr) -> (removed: Option<S>)
        ensures
            final(self)@ == old(self)@.remove(peer),
            removed == old(self)@.get(peer),
            final(self).allocated() == old(self).allocated(),
    {
        broadcast use group_hash_axioms;

        let host: u128 = peer.host();
        let removed = match self.sessions.remove(&host) {
            Some(mut endpoints) => {
                let removed = endpoints.remove(&peer.endpoint());
                if !endpoints.is_empty() {
                    self.sessions.insert(host, endpoints);
                }
                removed
            },
            None => None,
        };
        proof {
            other_peers_have_other_numbers(peer);
        }
        removed
    }

    /// A conversation number for a peer that has none, chosen at random.
    pub fn alloc_conv(&mut self) -> (conv: u32)
        ensures
            final(self)@ == old(self)@,
            final(self).allocated() == old(self).allocated().push(conv),
    {
        random_conv(&mut self.allocated)
    }

    /// Tells whether a packet with conversation number `conv` and sequence number
    /// `sn` belongs to the session that `peer` has, or starts a new one. Where that
    /// takes the conversation number of the session, which `session_conv` holds if it
    /// was read, and it was not, tells so.
    pub fn get_or_create(
        &self,
        conv: u32,
        sn: u32,
        peer: &PeerAddr,
        session_conv: Option<u32>,
    ) -> (resolved: Resolution)
        ensures
            resolved == resolution(self@.contains_key(*peer), conv, sn, session_conv),
    {
        match self.get(peer) {
            Some(_) => {
                if sn != 0 {
                    return Resolution::Existing;
                }
                match session_conv {
                    None => Resolution::ReadConv,
                    Some(session_conv) => {
                        if session_conv != conv {
                            // The first packet of a peer that started anew.
                            Resolution::Create
                        } else {
                            Resolution::Existing
                        }
                    },
                }
            },
            None => Resolution::Create,
        }
    }
}

/// `rand::random`: any number at all, which joins the record of what was drawn.
#[verifier::external_body]
fn random_conv(draws: &mut Draws) -> (conv: u32)
    ensures
        final(draws).numbers() == old(draws).numbers().push(conv),
{
    rand::random()
}

/// The numbers that were allocated are all that were drawn at random, and no others.
proof fn numbers_are_allocated_by_drawing<S>(manager: KcpSessionManager<S>)
    ensures
        manager.allocated() == manager.allocated.numbers(),
{
}

/// A new session is due exactly if the peer has none, or if the packet is a first one
/// and the session that the peer has was found to hold another conversation. That
/// conversation is asked for exactly if the packet is a first one of a peer with a
/// session and it was not asked for yet.
pub proof fn only_first_packets_replace_a_session(
    has_session: bool,
    conv: u32,
    sn: u32,
    session_conv: Option<u32>,
)
    ensures
        ({
            let resolved = resolution(has_session, conv, sn, session_conv);
            &&& resolved is Create <==> (!has_session || (sn == 0 && session_conv is Some
                && session_conv->0 != conv))
            &&& resolved is ReadConv <==> (has_session && sn == 0 && session_conv is None)
            &&& resolved is Existing <==> (has_session && (sn != 0 || session_conv == Some(conv)))
        }),
{
}

} // verus!
