use mints_worker::producer::{
    exchange_kind, produce_start, produce_step, ExchangeKind, ProduceThis, PublishAction,
    PublishEvent, PublishOutcome, PublishState,
};

fn message() -> ProduceThis {
    ProduceThis {
        data: "{\"id\":\"é\"}".to_string(),
        exchange_name: "mints".to_string(),
        exchange_type: "fanout".to_string(),
        routing_key: "mint.done".to_string(),
    }
}

fn outcome(a: &PublishAction) -> PublishOutcome {
    match a {
        PublishAction::Stop { outcome } => *outcome,
        _ => panic!("the publication should have ended"),
    }
}

#[test]
fn exchange_types_name_their_kinds() {
    assert_eq!(exchange_kind("fanout"), ExchangeKind::Fanout);
    assert_eq!(exchange_kind("direct"), ExchangeKind::Direct);
    assert_eq!(exchange_kind("headers"), ExchangeKind::Headers);
    assert_eq!(exchange_kind("topic"), ExchangeKind::Topic);
}

#[test]
fn other_exchange_types_mean_topic() {
    assert_eq!(exchange_kind(""), ExchangeKind::Topic);
    assert_eq!(exchange_kind("Fanout"), ExchangeKind::Topic);
    assert_eq!(exchange_kind("fanout "), ExchangeKind::Topic);
    assert_eq!(exchange_kind("x-delayed"), ExchangeKind::Topic);
}

#[test]
fn acknowledged_publication_goes_through_every_step() {
    let (state, action) = produce_start(message());
    assert!(matches!(action, PublishAction::OpenChannel));
    let (state, action) = produce_step(state, PublishEvent::ChannelOpened { ok: true });
    match &action {
        PublishAction::DeclareExchange { exchange, kind } => {
            assert_eq!(exchange, "mints");
            assert_eq!(*kind, ExchangeKind::Fanout);
        }
        _ => panic!("expected the exchange declaration"),
    }
    let (state, action) = produce_step(state, PublishEvent::ExchangeDeclared { ok: true });
    match &action {
        PublishAction::Publish { exchange, routing_key, payload } => {
            assert_eq!(exchange, "mints");
            assert_eq!(routing_key, "mint.done");
            assert_eq!(payload.as_slice(), "{\"id\":\"é\"}".as_bytes());
            assert_eq!(std::str::from_utf8(payload).unwrap(), message().data);
        }
        _ => panic!("expected the publication"),
    }
    let (state, action) = produce_step(state, PublishEvent::Published { ok: true });
    assert!(matches!(action, PublishAction::AwaitConfirmation));
    let (state, action) = produce_step(state, PublishEvent::Confirmed { ack: Some(true) });
    assert!(matches!(state, PublishState::Done));
    assert_eq!(outcome(&action), PublishOutcome::Acknowledged);
}

fn confirming() -> PublishState {
    let (s, _) = produce_start(message());
    let (s, _) = produce_step(s, PublishEvent::ChannelOpened { ok: true });
    let (s, _) = produce_step(s, PublishEvent::ExchangeDeclared { ok: true });
    let (s, _) = produce_step(s, PublishEvent::Published { ok: true });
    s
}

#[test]
fn unacknowledged_and_failed_confirmations() {
    let (_, a) = produce_step(confirming(), PublishEvent::Confirmed { ack: Some(false) });
    assert_eq!(outcome(&a), PublishOutcome::NotAcknowledged);
    let (_, a) = produce_step(confirming(), PublishEvent::Confirmed { ack: None });
    assert_eq!(outcome(&a), PublishOutcome::Failed);
}

#[test]
fn every_refusal_ends_the_publication() {
    let (s, _) = produce_start(message());
    let (s, a) = produce_step(s, PublishEvent::ChannelOpened { ok: false });
    assert!(matches!(s, PublishState::Done));
    assert_eq!(outcome(&a), PublishOutcome::Failed);
    assert!(!s.accepts(&PublishEvent::ChannelOpened { ok: true }));

    let (s, _) = produce_start(message());
    let (s, _) = produce_step(s, PublishEvent::ChannelOpened { ok: true });
    let (_, a) = produce_step(s, PublishEvent::ExchangeDeclared { ok: false });
    assert_eq!(outcome(&a), PublishOutcome::Failed);

    let (s, _) = produce_start(message());
    let (s, _) = produce_step(s, PublishEvent::ChannelOpened { ok: true });
    let (s, _) = produce_step(s, PublishEvent::ExchangeDeclared { ok: true });
    let (_, a) = produce_step(s, PublishEvent::Published { ok: false });
    assert_eq!(outcome(&a), PublishOutcome::Failed);
}

#[test]
fn publication_states_accept_only_their_answer() {
    let (s, _) = produce_start(message());
    assert!(s.accepts(&PublishEvent::ChannelOpened { ok: false }));
    assert!(!s.accepts(&PublishEvent::Published { ok: true }));
    assert!(!confirming().accepts(&PublishEvent::ExchangeDeclared { ok: true }));
}
