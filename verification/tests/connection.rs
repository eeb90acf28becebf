use filesend::controller::{Action, Controller, Event, Phase};

#[test]
fn controller_happy_path() {
    let mut c = Controller::new();
    assert_eq!(c.phase(), Phase::New);
    assert!(matches!(c.initial_action(), Action::GenerateDescription));

    let a = c.step(Event::DescriptionReady("sdp offer".to_string()));
    assert!(matches!(a, Action::PublishOffer(o) if o == "sdp offer"));
    assert_eq!(c.phase(), Phase::OfferCreated);

    let a = c.step(Event::Published(7));
    assert!(matches!(a, Action::PollReply(7)));
    assert_eq!(c.phase(), Phase::PublishedAwaitingAnswer);
    assert_eq!(c.session_id(), Some(7));

    let a = c.step(Event::ReplyPending);
    assert!(matches!(a, Action::PollReply(7)));
    assert_eq!(c.phase(), Phase::PublishedAwaitingAnswer);

    // A reachability candidate may arrive while the poll is under way.
    let a = c.step(Event::CandidateGathered("candidate 0".to_string()));
    assert!(matches!(a, Action::Wait));
    assert_eq!(c.candidate_count(), 1);
    assert_eq!(c.phase(), Phase::PublishedAwaitingAnswer);

    let a = c.step(Event::ReplyReady("sdp answer".to_string()));
    assert!(matches!(a, Action::ApplyAnswer(x) if x == "sdp answer"));
    assert_eq!(c.phase(), Phase::AnswerReceived);

    let a = c.step(Event::AnswerApplied);
    assert!(matches!(a, Action::Wait));
    assert_eq!(c.phase(), Phase::Negotiating);

    let a = c.step(Event::CandidateGathered("candidate 1".to_string()));
    assert!(matches!(a, Action::Wait));
    assert_eq!(c.candidate_count(), 2);

    let a = c.step(Event::ChannelOpened);
    assert!(matches!(a, Action::Wait));
    assert_eq!(c.phase(), Phase::ChannelOpen);
    assert!(c.cause().is_none());

    let a = c.step(Event::MessageReceived("hello".to_string()));
    assert!(matches!(a, Action::Wait));
    assert_eq!(c.messages().len(), 1);
    assert_eq!(c.messages()[0], "hello");
}

fn assert_failed(c: &Controller, expected_cause: &str) {
    assert_eq!(c.phase(), Phase::Failed);
    let cause = c.cause().expect("a failed attempt records its cause");
    assert!(!cause.is_empty());
    assert_eq!(cause, expected_cause);
}

fn assert_terminal(c: &mut Controller, expected_cause: &str) {
    // Once failed, no event changes the attempt and no asynchronous
    // step is ever requested again.
    let a = c.step(Event::ReplyReady("late answer".to_string()));
    assert!(matches!(a, Action::Wait));
    let a = c.step(Event::PlatformError);
    assert!(matches!(a, Action::Wait));
    let a = c.step(Event::CandidateGathered("late candidate".to_string()));
    assert!(matches!(a, Action::Wait));
    assert_eq!(c.candidate_count(), 0);
    assert_failed(c, expected_cause);
}

#[test]
fn failure_creating_description() {
    let mut c = Controller::new();
    let a = c.step(Event::DescriptionFailed);
    assert!(matches!(a, Action::Wait));
    assert_failed(&c, "Failed to create offer");
    assert_terminal(&mut c, "Failed to create offer");
}

#[test]
fn failure_extracting_description() {
    let mut c = Controller::new();
    let a = c.step(Event::ExtractFailed);
    assert!(matches!(a, Action::Wait));
    assert_failed(&c, "Failed to extract offer");
    assert_terminal(&mut c, "Failed to extract offer");
}

#[test]
fn failure_publishing_offer() {
    let mut c = Controller::new();
    c.step(Event::DescriptionReady("sdp".to_string()));
    let a = c.step(Event::PublishFailed);
    assert!(matches!(a, Action::Wait));
    assert_failed(&c, "Failed to extract id");
    assert_terminal(&mut c, "Failed to extract id");
}

#[test]
fn failure_session_vanished_while_polling() {
    let mut c = Controller::new();
    c.step(Event::DescriptionReady("sdp".to_string()));
    c.step(Event::Published(3));
    let a = c.step(Event::ReplyGone);
    assert!(matches!(a, Action::Wait));
    assert_failed(&c, "Session not found");
    assert_terminal(&mut c, "Session not found");
}

#[test]
fn failure_applying_answer() {
    let mut c = Controller::new();
    c.step(Event::DescriptionReady("sdp".to_string()));
    c.step(Event::Published(3));
    c.step(Event::ReplyReady("answer".to_string()));
    let a = c.step(Event::PlatformError);
    assert!(matches!(a, Action::Wait));
    assert_failed(&c, "Platform error");
    assert_terminal(&mut c, "Platform error");
}

#[test]
fn failure_during_negotiation() {
    let mut c = Controller::new();
    c.step(Event::DescriptionReady("sdp".to_string()));
    c.step(Event::Published(3));
    c.step(Event::ReplyReady("answer".to_string()));
    c.step(Event::AnswerApplied);
    let a = c.step(Event::Disconnected);
    assert!(matches!(a, Action::Wait));
    assert_failed(&c, "Connection lost");
    assert_terminal(&mut c, "Connection lost");
}

#[test]
fn events_outside_their_phase_are_ignored() {
    let mut c = Controller::new();
    // An answer cannot arrive before the offer even exists.
    let a = c.step(Event::ReplyReady("answer".to_string()));
    assert!(matches!(a, Action::Wait));
    assert_eq!(c.phase(), Phase::New);
    // A channel cannot open before negotiation began.
    let a = c.step(Event::ChannelOpened);
    assert!(matches!(a, Action::Wait));
    assert_eq!(c.phase(), Phase::New);
    // Messages are only recorded on an open channel.
    c.step(Event::MessageReceived("early".to_string()));
    assert_eq!(c.messages().len(), 0);
}
