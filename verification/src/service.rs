//! The signaling exchange: the narrow request contract two peers use
//! to publish and retrieve session-description blobs, as handlers over
//! one [`SessionStore`].
//!
//! `create_offer` always succeeds and hands back a fresh session
//! identifier; `send_reply` records the answer and acknowledges with
//! the original offer, rejecting an unknown identifier; `get_reply`
//! lets the publishing peer poll, telling a session that is merely
//! unanswered (`Pending`) apart from one that never existed
//! (`NotFound`).

use vstd::prelude::*;
use crate::store::{reply_of, ReplyStatus, SessionStore, StoreModel};

verus! {

/// The request handlers' shared state: the session store.
pub struct SignalingService {
    store: SessionStore,
}

impl View for SignalingService {
    type V = StoreModel;

    closed spec fn view(&self) -> StoreModel {
        self.store@
    }
}

impl SignalingService {
    /// Publishes an offer and returns the fresh session identifier it
    /// is now stored under.  Never fails.
    pub fn create_offer(&mut self, offer: String) -> (id: u128)
        ensures
            !old(self)@.offers.contains_key(id),
            final(self)@ == old(self)@.created(id, offer@),
    {
        self.store.insert_offer(offer)
    }

    /// Records the answering peer's blob for `id` and acknowledges
    /// with the original offer; answers `None` — an absent-body
    /// response — exactly when no session has that identifier, in
    /// which case nothing changes.  A later answer overwrites an
    /// earlier one: last write wins.
    pub fn send_reply(&mut self, id: u128, answer: String) -> (r: Option<String>)
        ensures
            match r {
                Some(o) => old(self)@.offers.contains_key(id) && o@ == old(self)@.offers[id]
                    && final(self)@ == old(self)@.replied(id, answer@),
                None => !old(self)@.offers.contains_key(id) && final(self)@ == old(self)@,
            },
    {
        self.store.insert_answer(id, answer)
    }

    /// Polls for the answer of `id`: the answer once one is recorded,
    /// `Pending` for a valid but unanswered session, `NotFound` for an
    /// identifier that never existed.
    pub fn get_reply(&self, id: u128) -> (r: ReplyStatus)
        ensures
            r@ == reply_of(self@, id),
    {
        self.store.get_answer(id)
    }

    /// Retrieves the offer stored under `id`, for the peer that
    /// followed a shared rendezvous link.
    pub fn get_offer(&self, id: u128) -> (r: Option<String>)
        ensures
            match r {
                Some(o) => self@.offers.contains_key(id) && o@ == self@.offers[id],
                None => !self@.offers.contains_key(id),
            },
    {
        self.store.get_offer(id)
    }
}

/// The preflight handler: method-only, an empty response body.  The
/// cross-origin headers every response carries come from [`crate::cors::CORS`].
pub fn all_options() -> (body: String)
    ensures
        body@ == Seq::<char>::empty(),
{
    String::new()
}

/// The signaling endpoint's starting state: no session exists until a
/// peer publishes an offer.
pub fn rocket() -> (s: SignalingService)
    ensures
        s@.offers == Map::<u128, Seq<char>>::empty(),
        s@.answers == Map::<u128, Seq<char>>::empty(),
{
    SignalingService { store: SessionStore::new() }
}

} // verus!
