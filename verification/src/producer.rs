//! Publishing a message to the broker.
//!
//! A publication opens a channel, declares the exchange with the kind that
//! its exchange type names, publishes the message's bytes with its routing
//! key, and waits for the broker's confirmation. `produce_start` and
//! `produce_step` make every decision; the application talks to the broker.
use vstd::prelude::*;
use vstd::string::*;
use vstd::slice::slice_to_vec;
use vstd::utf8::{decode_utf8, encode_utf8, encode_utf8_decode_utf8};
use crate::text::same_text;

verus! {

/// A message to publish on an exchange.
#[derive(Clone, Debug)]
pub struct ProduceThis {
    pub data: String,
    pub exchange_name: String,
    pub exchange_type: String,
    pub routing_key: String,
}

/// The model of a `ProduceThis`.
pub struct ProduceThisView {
    pub data: Seq<char>,
    pub exchange_name: Seq<char>,
    pub exchange_type: Seq<char>,
    pub routing_key: Seq<char>,
}

impl View for ProduceThis {
    type V = ProduceThisView;

    open spec fn view(&self) -> ProduceThisView {
        ProduceThisView {
            data: self.data@,
            exchange_name: self.exchange_name@,
            exchange_type: self.exchange_type@,
            routing_key: self.routing_key@,
        }
    }
}

/// The kinds of exchange the broker knows.
#[derive(Clone, Copy, Debug, PartialEq, Eq, Structural)]
pub enum ExchangeKind {
    Direct,
    Fanout,
    Headers,
    Topic,
}

/// The kind of exchange that an exchange type names: `fanout`, `direct` and
/// `headers` name their kinds, and every other text names a topic exchange.
pub open spec fn spec_exchange_kind(exchange_type: Seq<char>) -> ExchangeKind {
    if exchange_type == "fanout"@ {
        ExchangeKind::Fanout
    } else if exchange_type == "direct"@ {
        ExchangeKind::Direct
    } else if exchange_type == "headers"@ {
        ExchangeKind::Headers
    } else {
        ExchangeKind::Topic
    }
}

/// The kind of exchange that `exchange_type` names.
pub fn exchange_kind(exchange_type: &str) -> (kind: ExchangeKind)
    ensures
        kind == spec_exchange_kind(exchange_type@),
        (kind == ExchangeKind::Fanout) == (exchange_type@ == "fanout"@),
        (kind == ExchangeKind::Direct) == (exchange_type@ == "direct"@),
        (kind == ExchangeKind::Headers) == (exchange_type@ == "headers"@),
{
    proof {
        lemma_exchange_kind_cases(exchange_type@);
    }
    if same_text(exchange_type, "fanout") {
        ExchangeKind::Fanout
    } else if same_text(exchange_type, "direct") {
        ExchangeKind::Direct
    } else if same_text(exchange_type, "headers") {
        ExchangeKind::Headers
    } else {
        ExchangeKind::Topic
    }
}

/// How a publication ended.
#[derive(Clone, Copy, Debug, PartialEq, Eq, Structural)]
pub enum PublishOutcome {
    /// The broker refused a step, or the confirmation could not be had.
    Failed,
    /// The broker acknowledged the message.
    Acknowledged,
    /// The broker confirmed without acknowledging the message.
    NotAcknowledged,
}

/// Where a publication stands.
pub enum PublishState {
    /// A channel is being opened.
    OpeningChannel { message: ProduceThis },
    /// The exchange is being declared.
    DeclaringExchange { message: ProduceThis },
    /// The message has been handed to the broker.
    Publishing,
    /// The broker's confirmation is awaited.
    Confirming,
    /// The publication is over.
    Done,
}

/// What the application reports back after performing a `PublishAction`.
pub enum PublishEvent {
    ChannelOpened { ok: bool },
    ExchangeDeclared { ok: bool },
    Published { ok: bool },
    /// The broker's confirmation: whether it acknowledged, or `None` when it could not be had.
    Confirmed { ack: Option<bool> },
}

/// What the application is to do next.
pub enum PublishAction {
    OpenChannel,
    DeclareExchange { exchange: String, kind: ExchangeKind },
    Publish { exchange: String, routing_key: String, payload: Vec<u8> },
    AwaitConfirmation,
    Stop { outcome: PublishOutcome },
}

/// The model of a `PublishState`.
pub enum PublishStateView {
    OpeningChannel { message: ProduceThisView },
    DeclaringExchange { message: ProduceThisView },
    Publishing,
    Confirming,
    Done,
}

/// The model of a `PublishAction`.
pub enum PublishActionView {
    OpenChannel,
    DeclareExchange { exchange: Seq<char>, kind: ExchangeKind },
    Publish { exchange: Seq<char>, routing_key: Seq<char>, payload: Seq<u8> },
    AwaitConfirmation,
    Stop { outcome: PublishOutcome },
}

impl View for PublishState {
    type V = PublishStateView;

    open spec fn view(&self) -> PublishStateView {
        match self {
            PublishState::OpeningChannel { message } =>
                PublishStateView::OpeningChannel { message: message@ },
            PublishState::DeclaringExchange { message } =>
                PublishStateView::DeclaringExchange { message: message@ },
            PublishState::Publishing => PublishStateView::Publishing,
            PublishState::Confirming => PublishStateView::Confirming,
            PublishState::Done => PublishStateView::Done,
        }
    }
}

impl View for PublishAction {
    type V = PublishActionView;

    open spec fn view(&self) -> PublishActionView {
        match self {
            PublishAction::OpenChannel => PublishActionView::OpenChannel,
            PublishAction::DeclareExchange { exchange, kind } =>
                PublishActionView::DeclareExchange { exchange: exchange@, kind: *kind },
            PublishAction::Publish { exchange, routing_key, payload } => PublishActionView::Publish {
                exchange: exchange@,
                routing_key: routing_key@,
                payload: payload@,
            },
            PublishAction::AwaitConfirmation => PublishActionView::AwaitConfirmation,
            PublishAction::Stop { outcome } => PublishActionView::Stop { outcome: *outcome },
        }
    }
}

/// The event is the answer that the state waits for.
pub open spec fn publish_accepts(s: PublishStateView, e: PublishEvent) -> bool {
    match s {
        PublishStateView::OpeningChannel { .. } => e is ChannelOpened,
        PublishStateView::DeclaringExchange { .. } => e is ExchangeDeclared,
        PublishStateView::Publishing => e is Published,
        PublishStateView::Confirming => e is Confirmed,
        PublishStateView::Done => false,
    }
}

/// The end of a publication that failed.
pub open spec fn publish_failed() -> (PublishStateView, PublishActionView) {
    (PublishStateView::Done, PublishActionView::Stop { outcome: PublishOutcome::Failed })
}

/// One move of a publication: the state that follows and what to do.
pub open spec fn spec_produce_step(s: PublishStateView, e: PublishEvent) -> (
    PublishStateView,
    PublishActionView,
) {
    match s {
        PublishStateView::OpeningChannel { message } => match e {
            PublishEvent::ChannelOpened { ok } => if ok {
                (
                    PublishStateView::DeclaringExchange { message },
                    PublishActionView::DeclareExchange {
                        exchange: message.exchange_name,
                        kind: spec_exchange_kind(message.exchange_type),
                    },
                )
            } else {
                publish_failed()
            },
            _ => publish_failed(),
        },
        PublishStateView::DeclaringExchange { message } => match e {
            PublishEvent::ExchangeDeclared { ok } => if ok {
                (
                    PublishStateView::Publishing,
                    PublishActionView::Publish {
                        exchange: message.exchange_name,
                        routing_key: message.routing_key,
                        payload: encode_utf8(message.data),
                    },
                )
            } else {
                publish_failed()
            },
            _ => publish_failed(),
        },
        PublishStateView::Publishing => match e {
            PublishEvent::Published { ok } => if ok {
                (PublishStateView::Confirming, PublishActionView::AwaitConfirmation)
            } else {
                publish_failed()
            },
            _ => publish_failed(),
        },
        PublishStateView::Confirming => match e {
            PublishEvent::Confirmed { ack } => match ack {
                Some(true) => (
                    PublishStateView::Done,
                    PublishActionView::Stop { outcome: PublishOutcome::Acknowledged },
                ),
                Some(false) => (
                    PublishStateView::Done,
                    PublishActionView::Stop { outcome: PublishOutcome::NotAcknowledged },
                ),
                None => publish_failed(),
            },
            _ => publish_failed(),
        },
        PublishStateView::Done => publish_failed(),
    }
}

/// Opens the publication of `message`: the first thing to do is to open a channel.
pub fn produce_start(message: ProduceThis) -> (res: (PublishState, PublishAction))
    ensures
        res.0@ == (PublishStateView::OpeningChannel { message: message@ }),
        res.1@ == PublishActionView::OpenChannel,
{
    (PublishState::OpeningChannel { message }, PublishAction::OpenChannel)
}

impl PublishState {
    /// Whether `event` is the answer this state waits for.
    pub fn accepts(&self, event: &PublishEvent) -> (b: bool)
        ensures
            b == publish_accepts(self@, *event),
    {
        match self {
            PublishState::OpeningChannel { .. } => matches!(event, PublishEvent::ChannelOpened { .. }),
            PublishState::DeclaringExchange { .. } => matches!(event, PublishEvent::ExchangeDeclared { .. }),
            PublishState::Publishing => matches!(event, PublishEvent::Published { .. }),
            PublishState::Confirming => matches!(event, PublishEvent::Confirmed { .. }),
            PublishState::Done => false,
        }
    }
}

/// Moves a publication on by the answer `event`. Any refusal by the broker
/// ends it as `Failed`; the message's text is published as its UTF-8 bytes.
pub fn produce_step(state: PublishState, event: PublishEvent) -> (res: (PublishState, PublishAction))
    requires
        publish_accepts(state@, event),
    ensures
        (res.0@, res.1@) == spec_produce_step(state@, event),
        res.1@ is Stop <==> res.0@ is Done,
{
    match state {
        PublishState::OpeningChannel { message } => match event {
            PublishEvent::ChannelOpened { ok } => {
                if ok {
                    let kind = exchange_kind(message.exchange_type.as_str());
                    let exchange = message.exchange_name.clone();
                    (
                        PublishState::DeclaringExchange { message },
                        PublishAction::DeclareExchange { exchange, kind },
                    )
                } else {
                    (PublishState::Done, PublishAction::Stop { outcome: PublishOutcome::Failed })
                }
            },
            _ => (PublishState::Done, PublishAction::Stop { outcome: PublishOutcome::Failed }),
        },
        PublishState::DeclaringExchange { message } => match event {
            PublishEvent::ExchangeDeclared { ok } => {
                if ok {
                    let payload = slice_to_vec(message.data.as_str().as_bytes());
                    (
                        PublishState::Publishing,
                        PublishAction::Publish {
                            exchange: message.exchange_name,
                            routing_key: message.routing_key,
                            payload,
                        },
                    )
                } else {
                    (PublishState::Done, PublishAction::Stop { outcome: PublishOutcome::Failed })
                }
            },
            _ => (PublishState::Done, PublishAction::Stop { outcome: PublishOutcome::Failed }),
        },
        PublishState::Publishing => match event {
            PublishEvent::Published { ok } => {
                if ok {
                    (PublishState::Confirming, PublishAction::AwaitConfirmation)
                } else {
                    (PublishState::Done, PublishAction::Stop { outcome: PublishOutcome::Failed })
                }
            },
            _ => (PublishState::Done, PublishAction::Stop { outcome: PublishOutcome::Failed }),
        },
        PublishState::Confirming => match event {
            PublishEvent::Confirmed { ack } => match ack {
                Some(true) => (PublishState::Done, PublishAction::Stop { outcome: PublishOutcome::Acknowledged }),
                Some(false) => (PublishState::Done, PublishAction::Stop { outcome: PublishOutcome::NotAcknowledged }),
                None => (PublishState::Done, PublishAction::Stop { outcome: PublishOutcome::Failed }),
            },
            _ => (PublishState::Done, PublishAction::Stop { outcome: PublishOutcome::Failed }),
        },
        PublishState::Done => (PublishState::Done, PublishAction::Stop { outcome: PublishOutcome::Failed }),
    }
}

/// How many moves a publication standing at `s` has left at most.
pub open spec fn publish_rank(s: PublishStateView) -> nat {
    match s {
        PublishStateView::OpeningChannel { .. } => 4,
        PublishStateView::DeclaringExchange { .. } => 3,
        PublishStateView::Publishing => 2,
        PublishStateView::Confirming => 1,
        PublishStateView::Done => 0,
    }
}

/// Every publication ends: each answered move brings it nearer to `Done`.
pub proof fn lemma_publication_ends(s: PublishStateView, e: PublishEvent)
    requires
        publish_accepts(s, e),
    ensures
        publish_rank(spec_produce_step(s, e).0) < publish_rank(s),
{
}

/// The exchange kind that a type names, case by case: fanout exactly for
/// `fanout`, direct exactly for `direct`, headers exactly for `headers`, and
/// topic for every other text.
pub proof fn lemma_exchange_kind_cases(exchange_type: Seq<char>)
    ensures
        (spec_exchange_kind(exchange_type) == ExchangeKind::Fanout) == (exchange_type == "fanout"@),
        (spec_exchange_kind(exchange_type) == ExchangeKind::Direct) == (exchange_type == "direct"@),
        (spec_exchange_kind(exchange_type) == ExchangeKind::Headers) == (exchange_type
            == "headers"@),
        (spec_exchange_kind(exchange_type) == ExchangeKind::Topic) == (exchange_type != "fanout"@
            && exchange_type != "direct"@ && exchange_type != "headers"@),
{
    reveal_strlit("fanout");
    reveal_strlit("direct");
    reveal_strlit("headers");
    assert("fanout"@ != "direct"@ && "fanout"@ != "headers"@ && "direct"@ != "headers"@) by {
        assert("fanout"@[0] != "direct"@[0]);
        assert("fanout"@[0] != "headers"@[0]);
        assert("direct"@[0] != "headers"@[0]);
    }
}

/// A publication declares the message's exchange with the kind its exchange
/// type names (fanout exactly for `fanout`, direct exactly for `direct`,
/// headers exactly for `headers`, topic otherwise), then publishes the UTF-8
/// bytes of the message's text to that exchange with the message's routing
/// key, and then awaits the broker's confirmation.
pub proof fn lemma_publication_steps(message: ProduceThisView)
    ensures
        ({
            let declared = spec_produce_step(
                PublishStateView::OpeningChannel { message },
                PublishEvent::ChannelOpened { ok: true },
            );
            let published = spec_produce_step(declared.0, PublishEvent::ExchangeDeclared { ok: true });
            let confirming = spec_produce_step(published.0, PublishEvent::Published { ok: true });
            &&& declared.1 matches PublishActionView::DeclareExchange { exchange, kind }
                && exchange == message.exchange_name
                && (kind == ExchangeKind::Fanout) == (message.exchange_type == "fanout"@)
                && (kind == ExchangeKind::Direct) == (message.exchange_type == "direct"@)
                && (kind == ExchangeKind::Headers) == (message.exchange_type == "headers"@)
                && (kind == ExchangeKind::Topic) == (message.exchange_type != "fanout"@
                    && message.exchange_type != "direct"@ && message.exchange_type != "headers"@)
            &&& published.1 == (PublishActionView::Publish {
                exchange: message.exchange_name,
                routing_key: message.routing_key,
                payload: encode_utf8(message.data),
            })
            &&& decode_utf8(encode_utf8(message.data)) == message.data
            &&& confirming.1 == PublishActionView::AwaitConfirmation
            &&& spec_produce_step(confirming.0, PublishEvent::Confirmed { ack: Some(true) }).1
                == (PublishActionView::Stop { outcome: PublishOutcome::Acknowledged })
            &&& spec_produce_step(confirming.0, PublishEvent::Confirmed { ack: Some(false) }).1
                == (PublishActionView::Stop { outcome: PublishOutcome::NotAcknowledged })
            &&& spec_produce_step(confirming.0, PublishEvent::Confirmed { ack: None }).1
                == (PublishActionView::Stop { outcome: PublishOutcome::Failed })
        }),
{
    lemma_exchange_kind_cases(message.exchange_type);
    encode_utf8_decode_utf8(message.data);
}

/// The bytes a publication hands the broker decode to the message's text.
pub proof fn lemma_payload_round_trip(s: PublishStateView, e: PublishEvent)
    requires
        spec_produce_step(s, e).1 is Publish,
    ensures
        s matches PublishStateView::DeclaringExchange { message }
            && decode_utf8(spec_produce_step(s, e).1->payload) == message.data,
{
    if let PublishStateView::DeclaringExchange { message } = s {
        encode_utf8_decode_utf8(message.data);
    }
}

} // verus!
