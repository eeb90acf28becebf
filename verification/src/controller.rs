//! The client-side state machine driving one connection attempt from
//! "no peer known" to an open data channel.
//!
//! Every platform and network interaction is asynchronous and owned by
//! the surrounding event loop: the controller only decides.  Each
//! delivered [`Event`] moves it through the phases
//! `New -> OfferCreated -> PublishedAwaitingAnswer -> AnswerReceived ->
//! Negotiating -> ChannelOpen`, with the terminal error phase `Failed`
//! reachable from every non-terminal phase, and yields the [`Action`]
//! the loop should perform next.  Once failed, the controller ignores
//! every further event and never requests another asynchronous step.

use vstd::prelude::*;

verus! {

/// The handshake phase of one connection attempt.
#[derive(Clone, Copy, Debug, PartialEq, Eq, Structural)]
pub enum Phase {
    New,
    OfferCreated,
    PublishedAwaitingAnswer,
    AnswerReceived,
    Negotiating,
    ChannelOpen,
    Failed,
}

/// What the platform or the signaling exchange reports back to the
/// controller.  Each asynchronous step answers with exactly one of
/// these; candidate, open and message events arrive on their own.
pub enum Event {
    /// The local session description was generated.
    DescriptionReady(String),
    /// The platform could not generate a local description.
    DescriptionFailed,
    /// A description came back but its text could not be extracted.
    ExtractFailed,
    /// The offer was published; the signaling exchange returned this
    /// session identifier.
    Published(u128),
    /// The publish response could not be parsed into an identifier.
    PublishFailed,
    /// The poll found the session valid but not answered yet.
    ReplyPending,
    /// The poll returned the peer's answer.
    ReplyReady(String),
    /// The poll found no such session any more.
    ReplyGone,
    /// The peer's answer was applied as the remote description;
    /// network-path discovery is under way.
    AnswerApplied,
    /// Network-path discovery produced a local reachability candidate.
    CandidateGathered(String),
    /// The data channel reported itself open.
    ChannelOpened,
    /// A message arrived over the open data channel.
    MessageReceived(String),
    /// The networking capability reported an explicit error.
    PlatformError,
    /// The connection was unexpectedly torn down.
    Disconnected,
}

/// The spec-level counterpart of [`Event`].
pub enum EventView {
    DescriptionReady(Seq<char>),
    DescriptionFailed,
    ExtractFailed,
    Published(u128),
    PublishFailed,
    ReplyPending,
    ReplyReady(Seq<char>),
    ReplyGone,
    AnswerApplied,
    CandidateGathered(Seq<char>),
    ChannelOpened,
    MessageReceived(Seq<char>),
    PlatformError,
    Disconnected,
}

impl View for Event {
    type V = EventView;

    open spec fn view(&self) -> EventView {
        match self {
            Event::DescriptionReady(d) => EventView::DescriptionReady(d@),
            Event::DescriptionFailed => EventView::DescriptionFailed,
            Event::ExtractFailed => EventView::ExtractFailed,
            Event::Published(i) => EventView::Published(*i),
            Event::PublishFailed => EventView::PublishFailed,
            Event::ReplyPending => EventView::ReplyPending,
            Event::ReplyReady(a) => EventView::ReplyReady(a@),
            Event::ReplyGone => EventView::ReplyGone,
            Event::AnswerApplied => EventView::AnswerApplied,
            Event::CandidateGathered(c) => EventView::CandidateGathered(c@),
            Event::ChannelOpened => EventView::ChannelOpened,
            Event::MessageReceived(m) => EventView::MessageReceived(m@),
            Event::PlatformError => EventView::PlatformError,
            Event::Disconnected => EventView::Disconnected,
        }
    }
}

/// What the event loop should do next on the controller's behalf.
pub enum Action {
    /// Ask the platform to generate the local session description.
    GenerateDescription,
    /// Publish this offer text to the signaling exchange.
    PublishOffer(String),
    /// Poll the signaling exchange for the answer to this session.
    PollReply(u128),
    /// Apply this answer as the remote session description.
    ApplyAnswer(String),
    /// Nothing to start; keep delivering events as they arrive.
    Wait,
}

/// The spec-level counterpart of [`Action`].
pub enum ActionView {
    GenerateDescription,
    PublishOffer(Seq<char>),
    PollReply(u128),
    ApplyAnswer(Seq<char>),
    Wait,
}

impl View for Action {
    type V = ActionView;

    open spec fn view(&self) -> ActionView {
        match self {
            Action::GenerateDescription => ActionView::GenerateDescription,
            Action::PublishOffer(o) => ActionView::PublishOffer(o@),
            Action::PollReply(i) => ActionView::PollReply(*i),
            Action::ApplyAnswer(a) => ActionView::ApplyAnswer(a@),
            Action::Wait => ActionView::Wait,
        }
    }
}

/// Everything one connection attempt remembers: its phase, the session
/// identifier once published, the local offer and the peer's answer
/// once known, the reachability candidates gathered so far, the
/// messages delivered after the channel opened, and the cause of
/// failure if the attempt failed.
#[verifier::ext_equal]
pub struct ControllerView {
    pub phase: Phase,
    pub session_id: Option<u128>,
    pub local_offer: Option<Seq<char>>,
    pub answer: Option<Seq<char>>,
    pub candidates: Seq<Seq<char>>,
    pub messages: Seq<Seq<char>>,
    pub cause: Option<Seq<char>>,
}

impl ControllerView {
    /// The state a fresh attempt starts in.
    pub open spec fn init() -> ControllerView {
        ControllerView {
            phase: Phase::New,
            session_id: None,
            local_offer: None,
            answer: None,
            candidates: Seq::empty(),
            messages: Seq::empty(),
            cause: None,
        }
    }

    /// A failure is recorded exactly in the `Failed` phase, always
    /// with a cause; phases past publication know their session.
    pub open spec fn wf(self) -> bool {
        &&& (self.phase == Phase::Failed <==> self.cause is Some)
        &&& (self.cause matches Some(c) ==> c.len() > 0)
        &&& (self.phase == Phase::PublishedAwaitingAnswer || self.phase == Phase::AnswerReceived
            || self.phase == Phase::Negotiating || self.phase == Phase::ChannelOpen
            ==> self.session_id is Some)
    }

    /// This attempt, failed for the given cause.
    pub open spec fn failed(self, cause: Seq<char>) -> ControllerView {
        ControllerView { phase: Phase::Failed, cause: Some(cause), ..self }
    }

    /// This attempt with one more gathered reachability candidate.
    pub open spec fn with_candidate(self, c: Seq<char>) -> ControllerView {
        ControllerView { candidates: self.candidates.push(c), ..self }
    }
}

/// The state after `v` takes event `e`: the transition relation of the
/// handshake, as one total function.  A failed attempt never changes
/// again; an event that does not belong to the current phase changes
/// nothing.
pub open spec fn next(v: ControllerView, e: EventView) -> ControllerView {
    if v.phase == Phase::Failed {
        v
    } else if let EventView::CandidateGathered(c) = e {
        v.with_candidate(c)
    } else {
        match v.phase {
            Phase::New => match e {
                EventView::DescriptionReady(d) => ControllerView {
                    phase: Phase::OfferCreated,
                    local_offer: Some(d),
                    ..v
                },
                EventView::DescriptionFailed => v.failed("Failed to create offer"@),
                EventView::ExtractFailed => v.failed("Failed to extract offer"@),
                EventView::PlatformError => v.failed("Platform error"@),
                EventView::Disconnected => v.failed("Connection lost"@),
                _ => v,
            },
            Phase::OfferCreated => match e {
                EventView::Published(i) => ControllerView {
                    phase: Phase::PublishedAwaitingAnswer,
                    session_id: Some(i),
                    ..v
                },
                EventView::PublishFailed => v.failed("Failed to extract id"@),
                EventView::PlatformError => v.failed("Platform error"@),
                EventView::Disconnected => v.failed("Connection lost"@),
                _ => v,
            },
            Phase::PublishedAwaitingAnswer => match e {
                EventView::ReplyReady(a) => ControllerView {
                    phase: Phase::AnswerReceived,
                    answer: Some(a),
                    ..v
                },
                EventView::ReplyGone => v.failed("Session not found"@),
                EventView::PlatformError => v.failed("Platform error"@),
                EventView::Disconnected => v.failed("Connection lost"@),
                _ => v,
            },
            Phase::AnswerReceived => match e {
                EventView::AnswerApplied => ControllerView { phase: Phase::Negotiating, ..v },
                EventView::PlatformError => v.failed("Platform error"@),
                EventView::Disconnected => v.failed("Connection lost"@),
                _ => v,
            },
            Phase::Negotiating => match e {
                EventView::ChannelOpened => ControllerView { phase: Phase::ChannelOpen, ..v },
                EventView::PlatformError => v.failed("Platform error"@),
                EventView::Disconnected => v.failed("Connection lost"@),
                _ => v,
            },
            Phase::ChannelOpen => match e {
                EventView::MessageReceived(m) => ControllerView {
                    messages: v.messages.push(m),
                    ..v
                },
                _ => v,
            },
            Phase::Failed => v,
        }
    }
}

/// The asynchronous step (if any) the event loop should start after
/// `v` takes event `e`.  A failed attempt never asks for one.
pub open spec fn action_of(v: ControllerView, e: EventView) -> ActionView {
    if v.phase == Phase::Failed {
        ActionView::Wait
    } else {
        match v.phase {
            Phase::New => match e {
                EventView::DescriptionReady(d) => ActionView::PublishOffer(d),
                _ => ActionView::Wait,
            },
            Phase::OfferCreated => match e {
                EventView::Published(i) => ActionView::PollReply(i),
                _ => ActionView::Wait,
            },
            Phase::PublishedAwaitingAnswer => match e {
                EventView::ReplyReady(a) => ActionView::ApplyAnswer(a),
                EventView::ReplyPending => match v.session_id {
                    Some(i) => ActionView::PollReply(i),
                    None => ActionView::Wait,
                },
                _ => ActionView::Wait,
            },
            _ => ActionView::Wait,
        }
    }
}

/// A failed attempt is terminal: no further event changes it, and no
/// further asynchronous step is ever requested.
pub proof fn lemma_failed_is_terminal(v: ControllerView, e: EventView)
    requires
        v.phase == Phase::Failed,
    ensures
        next(v, e) == v,
        action_of(v, e) == ActionView::Wait,
{
}

/// Whenever a step fails the attempt, it records a non-empty,
/// human-readable cause; and it requests nothing asynchronous.
pub proof fn lemma_failure_reports_cause(v: ControllerView, e: EventView)
    requires
        v.phase != Phase::Failed,
        next(v, e).phase == Phase::Failed,
    ensures
        next(v, e).cause matches Some(c) && c.len() > 0,
        action_of(v, e) == ActionView::Wait,
{
    reveal_strlit("Failed to create offer");
    reveal_strlit("Failed to extract offer");
    reveal_strlit("Failed to extract id");
    reveal_strlit("Session not found");
    reveal_strlit("Platform error");
    reveal_strlit("Connection lost");
}

/// Every transition keeps the attempt well formed: a cause exactly
/// when failed, and a session identifier from publication on.
pub proof fn lemma_step_preserves_wf(v: ControllerView, e: EventView)
    requires
        v.wf(),
    ensures
        next(v, e).wf(),
{
    reveal_strlit("Failed to create offer");
    reveal_strlit("Failed to extract offer");
    reveal_strlit("Failed to extract id");
    reveal_strlit("Session not found");
    reveal_strlit("Platform error");
    reveal_strlit("Connection lost");
}

/// The happy path: description ready, offer published, answer
/// received, answer applied, channel opened.  Each event advances the
/// attempt one phase, the expected asynchronous step is requested at
/// each point, and the attempt reaches `ChannelOpen` without ever
/// failing.
pub proof fn lemma_happy_path(d: Seq<char>, i: u128, a: Seq<char>)
    ensures
        ({
            let s0 = ControllerView::init();
            let s1 = next(s0, EventView::DescriptionReady(d));
            let s2 = next(s1, EventView::Published(i));
            let s3 = next(s2, EventView::ReplyReady(a));
            let s4 = next(s3, EventView::AnswerApplied);
            let s5 = next(s4, EventView::ChannelOpened);
            &&& action_of(s0, EventView::DescriptionReady(d)) == ActionView::PublishOffer(d)
            &&& s1.phase == Phase::OfferCreated
            &&& action_of(s1, EventView::Published(i)) == ActionView::PollReply(i)
            &&& s2.phase == Phase::PublishedAwaitingAnswer
            &&& action_of(s2, EventView::ReplyPending) == ActionView::PollReply(i)
            &&& next(s2, EventView::ReplyPending) == s2
            &&& action_of(s2, EventView::ReplyReady(a)) == ActionView::ApplyAnswer(a)
            &&& s3.phase == Phase::AnswerReceived
            &&& s4.phase == Phase::Negotiating
            &&& s5.phase == Phase::ChannelOpen
            &&& s5.session_id == Some(i)
            &&& s5.local_offer == Some(d)
            &&& s5.answer == Some(a)
            &&& s5.cause is None
        }),
{
}

/// One connection attempt, its state exactly a [`ControllerView`].
pub struct Controller {
    phase: Phase,
    session_id: Option<u128>,
    local_offer: Option<String>,
    answer: Option<String>,
    candidates: Vec<String>,
    messages: Vec<String>,
    cause: Option<String>,
}

impl View for Controller {
    type V = ControllerView;

    closed spec fn view(&self) -> ControllerView {
        ControllerView {
            phase: self.phase,
            session_id: self.session_id,
            local_offer: match self.local_offer {
                Some(o) => Some(o@),
                None => None,
            },
            answer: match self.answer {
                Some(a) => Some(a@),
                None => None,
            },
            candidates: self.candidates@.map_values(|s: String| s@),
            messages: self.messages@.map_values(|s: String| s@),
            cause: match self.cause {
                Some(c) => Some(c@),
                None => None,
            },
        }
    }
}

impl Controller {
    /// A fresh attempt: nothing is known yet.
    pub fn new() -> (c: Controller)
        ensures
            c@ == ControllerView::init(),
    {
        let c = Controller {
            phase: Phase::New,
            session_id: None,
            local_offer: None,
            answer: None,
            candidates: Vec::new(),
            messages: Vec::new(),
            cause: None,
        };
        proof {
            assert(c@.candidates =~= Seq::<Seq<char>>::empty());
            assert(c@.messages =~= Seq::<Seq<char>>::empty());
            assert(c@ =~= ControllerView::init());
        }
        c
    }

    /// The first asynchronous step of every attempt: ask the platform
    /// for a local session description.
    pub fn initial_action(&self) -> (a: Action)
        ensures
            a@ == ActionView::GenerateDescription,
    {
        Action::GenerateDescription
    }

    /// The current handshake phase.
    pub fn phase(&self) -> (p: Phase)
        ensures
            p == self@.phase,
    {
        self.phase
    }

    /// The session identifier, once the offer has been published.
    pub fn session_id(&self) -> (i: Option<u128>)
        ensures
            i == self@.session_id,
    {
        self.session_id
    }

    /// The cause of failure, exactly when the attempt has failed.
    pub fn cause(&self) -> (c: Option<&String>)
        ensures
            match c {
                Some(s) => self@.cause == Some(s@),
                None => self@.cause is None,
            },
    {
        self.cause.as_ref()
    }

    /// How many reachability candidates have been gathered so far.
    pub fn candidate_count(&self) -> (n: usize)
        ensures
            n == self@.candidates.len(),
    {
        self.candidates.len()
    }

    /// The messages delivered since the channel opened, oldest first.
    pub fn messages(&self) -> (m: &Vec<String>)
        ensures
            m@.map_values(|s: String| s@) == self@.messages,
    {
        &self.messages
    }

    /// Takes one event and answers with the next asynchronous step to
    /// start: exactly the transition relation `next` / `action_of`.
    pub fn step(&mut self, e: Event) -> (a: Action)
        ensures
            final(self)@ == next(old(self)@, e@),
            a@ == action_of(old(self)@, e@),
    {
        if self.phase == Phase::Failed {
            return Action::Wait;
        }
        match e {
            Event::CandidateGathered(c) => {
                let ghost pre = self@;
                let ghost cv = c@;
                self.candidates.push(c);
                proof {
                    assert(self@.candidates =~= pre.candidates.push(cv));
                    assert(self@ =~= next(pre, EventView::CandidateGathered(cv)));
                }
                Action::Wait
            },
            Event::DescriptionReady(d) => {
                if self.phase == Phase::New {
                    self.phase = Phase::OfferCreated;
                    self.local_offer = Some(d.clone());
                    Action::PublishOffer(d)
                } else {
                    Action::Wait
                }
            },
            Event::DescriptionFailed => {
                let applies = self.phase == Phase::New;
                self.fail_if("Failed to create offer", applies)
            },
            Event::ExtractFailed => {
                let applies = self.phase == Phase::New;
                self.fail_if("Failed to extract offer", applies)
            },
            Event::Published(i) => {
                if self.phase == Phase::OfferCreated {
                    self.phase = Phase::PublishedAwaitingAnswer;
                    self.session_id = Some(i);
                    Action::PollReply(i)
                } else {
                    Action::Wait
                }
            },
            Event::PublishFailed => {
                let applies = self.phase == Phase::OfferCreated;
                self.fail_if("Failed to extract id", applies)
            },
            Event::ReplyPending => {
                if self.phase == Phase::PublishedAwaitingAnswer {
                    match self.session_id {
                        Some(i) => Action::PollReply(i),
                        None => Action::Wait,
                    }
                } else {
                    Action::Wait
                }
            },
            Event::ReplyReady(a) => {
                if self.phase == Phase::PublishedAwaitingAnswer {
                    self.phase = Phase::AnswerReceived;
                    self.answer = Some(a.clone());
                    Action::ApplyAnswer(a)
                } else {
                    Action::Wait
                }
            },
            Event::ReplyGone => {
                let applies = self.phase == Phase::PublishedAwaitingAnswer;
                self.fail_if("Session not found", applies)
            },
            Event::AnswerApplied => {
                if self.phase == Phase::AnswerReceived {
                    self.phase = Phase::Negotiating;
                }
                Action::Wait
            },
            Event::ChannelOpened => {
                if self.phase == Phase::Negotiating {
                    self.phase = Phase::ChannelOpen;
                }
                Action::Wait
            },
            Event::MessageReceived(m) => {
                if self.phase == Phase::ChannelOpen {
                    let ghost pre = self@;
                    let ghost mv = m@;
                    self.messages.push(m);
                    proof {
                        assert(self@.messages =~= pre.messages.push(mv));
                        assert(self@ =~= next(pre, EventView::MessageReceived(mv)));
                    }
                }
                Action::Wait
            },
            Event::PlatformError => {
                let applies = self.phase != Phase::ChannelOpen;
                self.fail_if("Platform error", applies)
            },
            Event::Disconnected => {
                let applies = self.phase != Phase::ChannelOpen;
                self.fail_if("Connection lost", applies)
            },
        }
    }

    /// Marks the attempt failed for `cause` when `applies` holds (the
    /// delivered error belongs to the current phase); otherwise the
    /// event is ignored.  Either way nothing asynchronous is started.
    fn fail_if(&mut self, cause: &str, applies: bool) -> (a: Action)
        requires
            old(self).phase != Phase::Failed,
        ensures
            applies ==> final(self)@ == old(self)@.failed(cause@),
            !applies ==> final(self)@ == old(self)@,
            a@ == ActionView::Wait,
    {
        if applies {
            self.phase = Phase::Failed;
            self.cause = Some(cause.to_owned());
        }
        Action::Wait
    }
}

} // verus!
