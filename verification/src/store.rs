//! The session store: one session per opaque identifier, created when
//! an offer is published and answered at most once.
//!
//! A session's offer, once recorded, is never mutated; only the answer
//! transitions from absent to present (and a later answer overwrites an
//! earlier one — last write wins).  An answer can be recorded only for
//! an identifier that already holds an offer.

use vstd::prelude::*;
use std::collections::HashMap;

verus! {

broadcast use vstd::std_specs::hash::group_hash_axioms;

/// The mathematical content of the store: which offer and which answer
/// each session identifier holds.
#[verifier::ext_equal]
pub struct StoreModel {
    pub offers: Map<u128, Seq<char>>,
    pub answers: Map<u128, Seq<char>>,
}

impl StoreModel {
    /// Every recorded answer belongs to a session that holds an offer.
    pub open spec fn wf(self) -> bool {
        self.answers.dom().subset_of(self.offers.dom())
    }

    /// The store after an offer is published under `id`.
    pub open spec fn created(self, id: u128, offer: Seq<char>) -> StoreModel {
        StoreModel { offers: self.offers.insert(id, offer), answers: self.answers }
    }

    /// The store after an answer is recorded for `id`.
    pub open spec fn replied(self, id: u128, answer: Seq<char>) -> StoreModel {
        StoreModel { offers: self.offers, answers: self.answers.insert(id, answer) }
    }
}

/// What a poll for a session's answer yields: the answer itself, a
/// "valid session, not answered yet" signal, or "no such session".
pub enum ReplyStatus {
    Reply(String),
    Pending,
    NotFound,
}

/// The spec-level counterpart of `ReplyStatus`.
pub enum ReplyView {
    Reply(Seq<char>),
    Pending,
    NotFound,
}

impl View for ReplyStatus {
    type V = ReplyView;

    open spec fn view(&self) -> ReplyView {
        match self {
            ReplyStatus::Reply(a) => ReplyView::Reply(a@),
            ReplyStatus::Pending => ReplyView::Pending,
            ReplyStatus::NotFound => ReplyView::NotFound,
        }
    }
}

/// What polling `id` yields on store `m`: an answer if one is
/// recorded, `Pending` for a session that exists but is unanswered,
/// `NotFound` for an identifier no session ever had.
pub open spec fn reply_of(m: StoreModel, id: u128) -> ReplyView {
    if m.answers.contains_key(id) {
        ReplyView::Reply(m.answers[id])
    } else if m.offers.contains_key(id) {
        ReplyView::Pending
    } else {
        ReplyView::NotFound
    }
}

/// A map of stored text, seen as the map of its character sequences.
pub open spec fn views_of(m: Map<u128, String>) -> Map<u128, Seq<char>> {
    m.map_values(|s: String| s@)
}

proof fn lemma_u128_below_len(b: u128)
    ensures
        Set::new(|x: u128| x < b).finite(),
        Set::new(|x: u128| x < b).len() == b,
    decreases b,
{
    if b == 0 {
        assert(Set::new(|x: u128| x < b) =~= Set::<u128>::empty());
    } else {
        lemma_u128_below_len((b - 1) as u128);
        assert(Set::new(|x: u128| x < b) =~= Set::new(
            |x: u128| x < (b - 1) as u128,
        ).insert((b - 1) as u128));
    }
}

proof fn lemma_views_of_insert(m: Map<u128, String>, k: u128, v: String)
    ensures
        views_of(m.insert(k, v)) == views_of(m).insert(k, v@),
{
    assert(views_of(m.insert(k, v)) =~= views_of(m).insert(k, v@));
}

/// In-memory store of sessions: an offer map and an answer map,
/// looked up by the session identifier alone.
pub struct SessionStore {
    offers: HashMap<u128, String>,
    answers: HashMap<u128, String>,
}

impl View for SessionStore {
    type V = StoreModel;

    closed spec fn view(&self) -> StoreModel {
        StoreModel { offers: views_of(self.offers@), answers: views_of(self.answers@) }
    }
}

impl SessionStore {
    /// An empty store: no session exists yet.
    pub fn new() -> (s: SessionStore)
        ensures
            s@.offers == Map::<u128, Seq<char>>::empty(),
            s@.answers == Map::<u128, Seq<char>>::empty(),
    {
        let s = SessionStore { offers: HashMap::new(), answers: HashMap::new() };
        proof {
            assert(s@.offers =~= Map::<u128, Seq<char>>::empty());
            assert(s@.answers =~= Map::<u128, Seq<char>>::empty());
        }
        s
    }

    /// Publishes an offer under a fresh identifier and returns that
    /// identifier.  The identifier is fresh: no existing session is
    /// touched, so an offer, once stored, is never overwritten.
    pub fn insert_offer(&mut self, offer: String) -> (id: u128)
        ensures
            !old(self)@.offers.contains_key(id),
            final(self)@ == old(self)@.created(id, offer@),
    {
        let mut id = crate::ident::random_id();
        if self.offers.contains_key(&id) {
            // A colliding 128-bit draw is all but impossible; rather
            // than draw again without bound, fall back to a probe that
            // provably terminates on a free identifier.
            id = self.first_free_id();
        }
        proof {
            lemma_views_of_insert(self.offers@, id, offer);
        }
        self.offers.insert(id, offer);
        proof {
            assert(final(self)@ =~= old(self)@.created(id, offer@));
        }
        id
    }

    /// The smallest identifier no session holds.  One exists among the
    /// first `len + 1` candidates, because only `len` are taken.
    fn first_free_id(&self) -> (id: u128)
        ensures
            !self@.offers.contains_key(id),
    {
        let n: usize = self.offers.len();
        let mut c: u128 = 0;
        while c <= n as u128
            invariant
                c <= n as u128 + 1,
                n == self.offers@.len(),
                forall|x: u128| x < c ==> self.offers@.contains_key(x),
            decreases n as u128 + 1 - c,
        {
            if !self.offers.contains_key(&c) {
                assert(!self@.offers.contains_key(c));
                return c;
            }
            c = c + 1;
        }
        proof {
            let taken = Set::new(|x: u128| x < c);
            lemma_u128_below_len(c);
            assert(taken.subset_of(self.offers@.dom()));
            vstd::set_lib::lemma_len_subset(taken, self.offers@.dom());
        }
        vstd::pervasive::unreached()
    }

    /// Looks an offer up by its session identifier.
    pub fn get_offer(&self, id: u128) -> (r: Option<String>)
        ensures
            match r {
                Some(o) => self@.offers.contains_key(id) && o@ == self@.offers[id],
                None => !self@.offers.contains_key(id),
            },
    {
        match self.offers.get(&id) {
            Some(o) => Some(o.clone()),
            None => None,
        }
    }

    /// Records an answer for `id` if that session exists, returning its
    /// offer as acknowledgment; rejects an unknown identifier, mutating
    /// nothing.  A later answer overwrites an earlier one.
    pub fn insert_answer(&mut self, id: u128, answer: String) -> (r: Option<String>)
        ensures
            match r {
                Some(o) => old(self)@.offers.contains_key(id) && o@ == old(self)@.offers[id]
                    && final(self)@ == old(self)@.replied(id, answer@),
                None => !old(self)@.offers.contains_key(id) && final(self)@ == old(self)@,
            },
    {
        match self.offers.get(&id) {
            Some(o) => {
                let offer = o.clone();
                proof {
                    lemma_views_of_insert(self.answers@, id, answer);
                }
                self.answers.insert(id, answer);
                proof {
                    assert(final(self)@ =~= old(self)@.replied(id, answer@));
                }
                Some(offer)
            },
            None => None,
        }
    }

    /// Polls for the answer of `id`, distinguishing a session that has
    /// not been answered yet (`Pending`) from one that never existed
    /// (`NotFound`).
    pub fn get_answer(&self, id: u128) -> (r: ReplyStatus)
        ensures
            r@ == reply_of(self@, id),
    {
        match self.answers.get(&id) {
            Some(a) => ReplyStatus::Reply(a.clone()),
            None => {
                if self.offers.contains_key(&id) {
                    ReplyStatus::Pending
                } else {
                    ReplyStatus::NotFound
                }
            },
        }
    }
}

/// Publishing an offer leaves every recorded answer with its session:
/// the store stays well formed.
pub proof fn lemma_created_preserves_wf(m: StoreModel, id: u128, offer: Seq<char>)
    requires
        m.wf(),
    ensures
        m.created(id, offer).wf(),
{
}

/// Recording an answer for a session that holds an offer keeps the
/// store well formed.
pub proof fn lemma_replied_preserves_wf(m: StoreModel, id: u128, answer: Seq<char>)
    requires
        m.wf(),
        m.offers.contains_key(id),
    ensures
        m.replied(id, answer).wf(),
{
}

/// Round trip: publish an offer under a fresh identifier, answer it,
/// and both directions of the exchange come back exactly — the answer
/// step acknowledges with the original offer, and a subsequent poll
/// yields the answer that was sent.
pub proof fn lemma_round_trip(m: StoreModel, id: u128, offer: Seq<char>, answer: Seq<char>)
    ensures
        m.created(id, offer).offers[id] == offer,
        reply_of(m.created(id, offer).replied(id, answer), id) == ReplyView::Reply(answer),
{
}

/// An identifier no session ever had is rejected: polling it yields
/// `NotFound` (and the answer path rejects it by the contract of
/// `SessionStore::insert_answer`).
pub proof fn lemma_unknown_id(m: StoreModel, id: u128)
    requires
        m.wf(),
        !m.offers.contains_key(id),
    ensures
        reply_of(m, id) == ReplyView::NotFound,
{
}

/// Between an offer's publication and its answer, polling the session
/// yields `Pending` — distinct from the `NotFound` of an identifier
/// that never existed.
pub proof fn lemma_pending_before_answer(m: StoreModel, id: u128, offer: Seq<char>)
    requires
        m.wf(),
        !m.offers.contains_key(id),
    ensures
        reply_of(m.created(id, offer), id) == ReplyView::Pending,
{
}

/// Last write wins: answering a session twice leaves the second
/// answer, and a poll yields exactly that one.
pub proof fn lemma_answer_overwrite(m: StoreModel, id: u128, first: Seq<char>, second: Seq<char>)
    ensures
        reply_of(m.replied(id, first).replied(id, second), id) == ReplyView::Reply(second),
{
}

/// Sessions are independent: publishing or answering under one
/// identifier changes nothing observable about any other — no update
/// is lost when distinct sessions are written.
pub proof fn lemma_sessions_independent(
    m: StoreModel,
    id: u128,
    other: u128,
    text: Seq<char>,
)
    requires
        id != other,
    ensures
        m.created(id, text).offers.contains_key(other) == m.offers.contains_key(other),
        m.offers.contains_key(other) ==> m.created(id, text).offers[other] == m.offers[other],
        reply_of(m.created(id, text), other) == reply_of(m, other),
        reply_of(m.replied(id, text), other) == reply_of(m, other),
{
}

/// One publication step: a fresh identifier is drawn and the offer is
/// stored under it, exactly as `SessionStore::insert_offer` ensures.
pub open spec fn created_step(pre: StoreModel, post: StoreModel, id: u128, offer: Seq<char>) -> bool {
    &&& !pre.offers.contains_key(id)
    &&& post == pre.created(id, offer)
}

proof fn lemma_id_persists(
    states: Seq<StoreModel>,
    ids: Seq<u128>,
    offers: Seq<Seq<char>>,
    j: int,
    k: int,
)
    requires
        states.len() == ids.len() + 1,
        offers.len() == ids.len(),
        forall|n: int|
            0 <= n < ids.len() ==> created_step(states[n], states[n + 1], ids[n], offers[n]),
        0 <= j < k <= ids.len(),
    ensures
        states[k].offers.contains_key(ids[j]),
    decreases k,
{
    if k == j + 1 {
        assert(created_step(states[j], states[j + 1], ids[j], offers[j]));
    } else {
        lemma_id_persists(states, ids, offers, j, k - 1);
        assert(created_step(states[k - 1], states[k], ids[k - 1], offers[k - 1]));
    }
}

/// Identifier uniqueness: any run of publication steps hands out
/// pairwise distinct identifiers, because each step's identifier is
/// fresh and every earlier session persists.
pub proof fn lemma_created_ids_distinct(
    states: Seq<StoreModel>,
    ids: Seq<u128>,
    offers: Seq<Seq<char>>,
)
    requires
        states.len() == ids.len() + 1,
        offers.len() == ids.len(),
        forall|n: int|
            0 <= n < ids.len() ==> created_step(states[n], states[n + 1], ids[n], offers[n]),
    ensures
        forall|j: int, k: int| 0 <= j < k < ids.len() ==> ids[j] != ids[k],
{
    assert forall|j: int, k: int| 0 <= j < k < ids.len() implies ids[j] != ids[k] by {
        lemma_id_persists(states, ids, offers, j, k);
        assert(created_step(states[k], states[k + 1], ids[k], offers[k]));
    }
}

} // verus!
