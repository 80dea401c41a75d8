//! Consuming mint requests from the broker and answering with their results.
//!
//! A consumer opens a channel, declares its queue, binds it to the exchange
//! when one is named, and starts consuming. For each delivery it
//! acknowledges the message, has it decoded, mints the request, and publishes
//! the result as a notification for the main service. `consume_start` and
//! `consume_step` make every decision; the application talks to the broker.
use vstd::prelude::*;
use vstd::string::*;
use crate::mint::{ActionType, MintResult, NotifData, UpdateUserNftRequest};
use crate::producer::ProduceThis;
use crate::json::{json_string, json_string_text, lemma_json_escaped_plain};

verus! {

/// The settings of a consumer: its queue, the exchange and routing key it
/// binds the queue to, and its consumer tag.
#[derive(Clone, Debug, Default)]
pub struct GetMessage {
    pub queue: String,
    pub exchange_name: String,
    pub routing_key: String,
    pub tag: String,
}

/// A queue is bound only to a named exchange: the default exchange, named by
/// the empty text, routes to every queue by its name and takes no bindings.
pub open spec fn needs_binding(exchange: Seq<char>) -> bool {
    exchange.len() != 0
}

/// Whether a queue must be bound to `exchange`.
pub fn queue_needs_binding(exchange: &str) -> (b: bool)
    ensures
        b == needs_binding(exchange@),
{
    !exchange.is_empty()
}

/// What the broker handed the consumer next.
pub enum Delivery {
    /// A message with these bytes.
    Received { data: Vec<u8> },
    /// An error instead of a message.
    Failed,
    /// The end of the stream of deliveries.
    Ended,
}

/// Where a consumer stands.
pub enum ConsumeState {
    OpeningChannel { settings: GetMessage },
    DeclaringQueue { settings: GetMessage },
    BindingQueue { settings: GetMessage },
    StartingConsumer { settings: GetMessage },
    AwaitingDelivery,
    /// The delivery with these bytes is being acknowledged.
    Acknowledging { data: Vec<u8> },
    /// The acknowledged delivery is being decoded.
    Decoding,
    /// This request is being minted.
    Minting { request: UpdateUserNftRequest },
    Stopped,
}

/// What the application reports back after performing a `ConsumeAction`.
pub enum ConsumeEvent {
    ChannelOpened { ok: bool },
    /// The declared queue's name, or `None` when the broker refused it.
    QueueDeclared { name: Option<String> },
    QueueBound { ok: bool },
    ConsumerStarted { ok: bool },
    Delivered { delivery: Delivery },
    Acknowledged { ok: bool },
    /// The mint request that the delivery carried.
    Decoded { request: UpdateUserNftRequest },
    /// The transaction hash, token id and status of the mint, or `None` when
    /// minting stopped without a result.
    MintEnded { outcome: Option<(String, String, u8)> },
}

/// What the application is to do next.
pub enum ConsumeAction {
    OpenChannel,
    DeclareQueue { queue: String },
    BindQueue { queue: String, exchange: String, routing_key: String },
    StartConsumer { queue: String, tag: String },
    AwaitDelivery,
    Acknowledge,
    /// Decode these bytes into the mint request that their notification carries.
    Decode { data: Vec<u8> },
    Mint { request: UpdateUserNftRequest },
    /// Publish this result as a notification, then await the next delivery.
    Publish { result: MintResult },
    /// Consuming is over; `failed` when the broker refused a step.
    Stop { failed: bool },
}

/// The event is the answer that the state waits for.
pub open spec fn consume_accepts(s: ConsumeState, e: ConsumeEvent) -> bool {
    match s {
        ConsumeState::OpeningChannel { .. } => e is ChannelOpened,
        ConsumeState::DeclaringQueue { .. } => e is QueueDeclared,
        ConsumeState::BindingQueue { .. } => e is QueueBound,
        ConsumeState::StartingConsumer { .. } => e is ConsumerStarted,
        ConsumeState::AwaitingDelivery => e is Delivered,
        ConsumeState::Acknowledging { .. } => e is Acknowledged,
        ConsumeState::Decoding => e is Decoded,
        ConsumeState::Minting { .. } => e is MintEnded,
        ConsumeState::Stopped => false,
    }
}

/// The end of a consumer that the broker refused.
pub open spec fn consume_failed() -> (ConsumeState, ConsumeAction) {
    (ConsumeState::Stopped, ConsumeAction::Stop { failed: true })
}

/// One move of a consumer: the state that follows and what to do.
pub open spec fn spec_consume_step(s: ConsumeState, e: ConsumeEvent) -> (ConsumeState, ConsumeAction) {
    match s {
        ConsumeState::OpeningChannel { settings } => match e {
            ConsumeEvent::ChannelOpened { ok } => if ok {
                (
                    ConsumeState::DeclaringQueue { settings },
                    ConsumeAction::DeclareQueue { queue: settings.queue },
                )
            } else {
                consume_failed()
            },
            _ => consume_failed(),
        },
        ConsumeState::DeclaringQueue { settings } => match e {
            ConsumeEvent::QueueDeclared { name } => match name {
                Some(name) => if needs_binding(settings.exchange_name@) {
                    (
                        ConsumeState::BindingQueue { settings },
                        ConsumeAction::BindQueue {
                            queue: name,
                            exchange: settings.exchange_name,
                            routing_key: settings.routing_key,
                        },
                    )
                } else {
                    (
                        ConsumeState::StartingConsumer { settings },
                        ConsumeAction::StartConsumer { queue: settings.queue, tag: settings.tag },
                    )
                },
                None => consume_failed(),
            },
            _ => consume_failed(),
        },
        ConsumeState::BindingQueue { settings } => match e {
            ConsumeEvent::QueueBound { ok } => if ok {
                (
                    ConsumeState::StartingConsumer { settings },
                    ConsumeAction::StartConsumer { queue: settings.queue, tag: settings.tag },
                )
            } else {
                consume_failed()
            },
            _ => consume_failed(),
        },
        ConsumeState::StartingConsumer { .. } => match e {
            ConsumeEvent::ConsumerStarted { ok } => if ok {
                (ConsumeState::AwaitingDelivery, ConsumeAction::AwaitDelivery)
            } else {
                consume_failed()
            },
            _ => consume_failed(),
        },
        ConsumeState::AwaitingDelivery => match e {
            ConsumeEvent::Delivered { delivery } => match delivery {
                Delivery::Received { data } => (
                    ConsumeState::Acknowledging { data },
                    ConsumeAction::Acknowledge,
                ),
                Delivery::Failed => consume_failed(),
                Delivery::Ended => (ConsumeState::Stopped, ConsumeAction::Stop { failed: false }),
            },
            _ => consume_failed(),
        },
        ConsumeState::Acknowledging { data } => match e {
            ConsumeEvent::Acknowledged { ok } => if ok {
                (ConsumeState::Decoding, ConsumeAction::Decode { data })
            } else {
                consume_failed()
            },
            _ => consume_failed(),
        },
        ConsumeState::Decoding => match e {
            ConsumeEvent::Decoded { request } => (
                ConsumeState::Minting { request },
                ConsumeAction::Mint { request },
            ),
            _ => consume_failed(),
        },
        ConsumeState::Minting { request } => match e {
            ConsumeEvent::MintEnded { outcome } => match outcome {
                Some(o) => (
                    ConsumeState::AwaitingDelivery,
                    ConsumeAction::Publish {
                        result: MintResult { nft_data: request, tx_hash: o.0, token_id: o.1, status: o.2 },
                    },
                ),
                None => (ConsumeState::AwaitingDelivery, ConsumeAction::AwaitDelivery),
            },
            _ => consume_failed(),
        },
        ConsumeState::Stopped => consume_failed(),
    }
}

/// Opens a consumer with these settings: the first thing to do is to open a channel.
pub fn consume_start(settings: GetMessage) -> (res: (ConsumeState, ConsumeAction))
    ensures
        res.0 == (ConsumeState::OpeningChannel { settings }),
        res.1 == ConsumeAction::OpenChannel,
{
    (ConsumeState::OpeningChannel { settings }, ConsumeAction::OpenChannel)
}

impl ConsumeState {
    /// Whether `event` is the answer this state waits for.
    pub fn accepts(&self, event: &ConsumeEvent) -> (b: bool)
        ensures
            b == consume_accepts(*self, *event),
    {
        match self {
            ConsumeState::OpeningChannel { .. } => matches!(event, ConsumeEvent::ChannelOpened { .. }),
            ConsumeState::DeclaringQueue { .. } => matches!(event, ConsumeEvent::QueueDeclared { .. }),
            ConsumeState::BindingQueue { .. } => matches!(event, ConsumeEvent::QueueBound { .. }),
            ConsumeState::StartingConsumer { .. } => matches!(event, ConsumeEvent::ConsumerStarted { .. }),
            ConsumeState::AwaitingDelivery => matches!(event, ConsumeEvent::Delivered { .. }),
            ConsumeState::Acknowledging { .. } => matches!(event, ConsumeEvent::Acknowledged { .. }),
            ConsumeState::Decoding => matches!(event, ConsumeEvent::Decoded { .. }),
            ConsumeState::Minting { .. } => matches!(event, ConsumeEvent::MintEnded { .. }),
            ConsumeState::Stopped => false,
        }
    }
}

/// Moves a consumer on by the answer `event`. A refusal by the broker stops
/// it; the end of the deliveries stops it without failure; a mint that
/// stopped without a result is passed over.
pub fn consume_step(state: ConsumeState, event: ConsumeEvent) -> (res: (ConsumeState, ConsumeAction))
    requires
        consume_accepts(state, event),
    ensures
        res == spec_consume_step(state, event),
{
    match state {
        ConsumeState::OpeningChannel { settings } => match event {
            ConsumeEvent::ChannelOpened { ok } => {
                if ok {
                    let queue = settings.queue.clone();
                    (ConsumeState::DeclaringQueue { settings }, ConsumeAction::DeclareQueue { queue })
                } else {
                    (ConsumeState::Stopped, ConsumeAction::Stop { failed: true })
                }
            },
            _ => (ConsumeState::Stopped, ConsumeAction::Stop { failed: true }),
        },
        ConsumeState::DeclaringQueue { settings } => match event {
            ConsumeEvent::QueueDeclared { name } => match name {
                Some(name) => {
                    if queue_needs_binding(settings.exchange_name.as_str()) {
                        let exchange = settings.exchange_name.clone();
                        let routing_key = settings.routing_key.clone();
                        (
                            ConsumeState::BindingQueue { settings },
                            ConsumeAction::BindQueue { queue: name, exchange, routing_key },
                        )
                    } else {
                        let queue = settings.queue.clone();
                        let tag = settings.tag.clone();
                        (
                            ConsumeState::StartingConsumer { settings },
                            ConsumeAction::StartConsumer { queue, tag },
                        )
                    }
                },
                None => (ConsumeState::Stopped, ConsumeAction::Stop { failed: true }),
            },
            _ => (ConsumeState::Stopped, ConsumeAction::Stop { failed: true }),
        },
        ConsumeState::BindingQueue { settings } => match event {
            ConsumeEvent::QueueBound { ok } => {
                if ok {
                    let queue = settings.queue.clone();
                    let tag = settings.tag.clone();
                    (ConsumeState::StartingConsumer { settings }, ConsumeAction::StartConsumer { queue, tag })
                } else {
                    (ConsumeState::Stopped, ConsumeAction::Stop { failed: true })
                }
            },
            _ => (ConsumeState::Stopped, ConsumeAction::Stop { failed: true }),
        },
        ConsumeState::StartingConsumer { .. } => match event {
            ConsumeEvent::ConsumerStarted { ok } => {
                if ok {
                    (ConsumeState::AwaitingDelivery, ConsumeAction::AwaitDelivery)
                } else {
                    (ConsumeState::Stopped, ConsumeAction::Stop { failed: true })
                }
            },
            _ => (ConsumeState::Stopped, ConsumeAction::Stop { failed: true }),
        },
        ConsumeState::AwaitingDelivery => match event {
            ConsumeEvent::Delivered { delivery } => match delivery {
                Delivery::Received { data } => (ConsumeState::Acknowledging { data }, ConsumeAction::Acknowledge),
                Delivery::Failed => (ConsumeState::Stopped, ConsumeAction::Stop { failed: true }),
                Delivery::Ended => (ConsumeState::Stopped, ConsumeAction::Stop { failed: false }),
            },
            _ => (ConsumeState::Stopped, ConsumeAction::Stop { failed: true }),
        },
        ConsumeState::Acknowledging { data } => match event {
            ConsumeEvent::Acknowledged { ok } => {
                if ok {
                    (ConsumeState::Decoding, ConsumeAction::Decode { data })
                } else {
                    (ConsumeState::Stopped, ConsumeAction::Stop { failed: true })
                }
            },
            _ => (ConsumeState::Stopped, ConsumeAction::Stop { failed: true }),
        },
        ConsumeState::Decoding => match event {
            ConsumeEvent::Decoded { request } => {
                let minted = request.duplicate();
                (ConsumeState::Minting { request }, ConsumeAction::Mint { request: minted })
            },
            _ => (ConsumeState::Stopped, ConsumeAction::Stop { failed: true }),
        },
        ConsumeState::Minting { request } => match event {
            ConsumeEvent::MintEnded { outcome } => match outcome {
                Some(o) => {
                    let (tx_hash, token_id, status) = o;
                    (
                        ConsumeState::AwaitingDelivery,
                        ConsumeAction::Publish {
                            result: MintResult { nft_data: request, tx_hash, token_id, status },
                        },
                    )
                },
                None => (ConsumeState::AwaitingDelivery, ConsumeAction::AwaitDelivery),
            },
            _ => (ConsumeState::Stopped, ConsumeAction::Stop { failed: true }),
        },
        ConsumeState::Stopped => (ConsumeState::Stopped, ConsumeAction::Stop { failed: true }),
    }
}

/// A consumer consumes the queue it was opened with, under its own tag: the
/// channel is followed by the declaration of that queue; for the empty
/// exchange name the consumer then starts at once, and for any other exchange
/// the declared queue is first bound to that exchange with the routing key.
pub proof fn lemma_consumer_setup(settings: GetMessage, declared: String)
    ensures
        ({
            let opened = spec_consume_step(
                ConsumeState::OpeningChannel { settings },
                ConsumeEvent::ChannelOpened { ok: true },
            );
            let after_declare = spec_consume_step(
                opened.0,
                ConsumeEvent::QueueDeclared { name: Some(declared) },
            );
            let start = ConsumeAction::StartConsumer { queue: settings.queue, tag: settings.tag };
            &&& opened.1 == (ConsumeAction::DeclareQueue { queue: settings.queue })
            &&& settings.exchange_name@.len() == 0 ==> after_declare.1 == start
            &&& settings.exchange_name@.len() != 0 ==> {
                &&& after_declare.1 == (ConsumeAction::BindQueue {
                    queue: declared,
                    exchange: settings.exchange_name,
                    routing_key: settings.routing_key,
                })
                &&& spec_consume_step(after_declare.0, ConsumeEvent::QueueBound { ok: true }).1 == start
            }
        }),
{
}

/// Whichever path leads to consuming, the `StartConsumer` action carries the
/// queue and the tag of the settings that the state holds, and every move
/// that keeps settings keeps them unchanged.
pub proof fn lemma_consumer_keeps_settings(s: ConsumeState, e: ConsumeEvent)
    requires
        consume_accepts(s, e),
    ensures
        ({
            let next = spec_consume_step(s, e);
            &&& next.1 matches ConsumeAction::StartConsumer { queue, tag } ==> {
                ||| s matches ConsumeState::DeclaringQueue { settings }
                    && queue == settings.queue && tag == settings.tag
                ||| s matches ConsumeState::BindingQueue { settings }
                    && queue == settings.queue && tag == settings.tag
            }
            &&& s matches ConsumeState::OpeningChannel { settings } ==> (next.0
                is Stopped || next.0 == (ConsumeState::DeclaringQueue { settings }))
            &&& s matches ConsumeState::DeclaringQueue { settings } ==> (next.0 is Stopped
                || next.0 == (ConsumeState::BindingQueue { settings })
                || next.0 == (ConsumeState::StartingConsumer { settings }))
            &&& s matches ConsumeState::BindingQueue { settings } ==> (next.0 is Stopped
                || next.0 == (ConsumeState::StartingConsumer { settings }))
        }),
{
}

/// A request is minted only after its delivery was acknowledged: a `Mint`
/// comes only from decoding, and decoding comes only from an acknowledgement
/// the broker accepted. A stopped consumer takes no further answer.
pub proof fn lemma_mint_follows_ack(s: ConsumeState, e: ConsumeEvent, t: ConsumeState, f: ConsumeEvent)
    requires
        consume_accepts(s, e),
        spec_consume_step(s, e).0 == t,
        consume_accepts(t, f),
        spec_consume_step(t, f).1 is Mint,
    ensures
        t is Decoding,
        s is Acknowledging,
        e == (ConsumeEvent::Acknowledged { ok: true }),
        forall|g: ConsumeEvent| !consume_accepts(ConsumeState::Stopped, g),
{
}

/// Every result a consumer publishes is the outcome of the mint it started,
/// for the very request it decoded.
pub proof fn lemma_published_result(
    request: UpdateUserNftRequest,
    outcome: (String, String, u8),
)
    ensures
        ({
            let minting = spec_consume_step(ConsumeState::Decoding, ConsumeEvent::Decoded { request });
            let ended = spec_consume_step(minting.0, ConsumeEvent::MintEnded { outcome: Some(outcome) });
            &&& minting.1 == (ConsumeAction::Mint { request })
            &&& ended.1 == (ConsumeAction::Publish {
                result: MintResult {
                    nft_data: request,
                    tx_hash: outcome.0,
                    token_id: outcome.1,
                    status: outcome.2,
                },
            })
            &&& ended.0 is AwaitingDelivery
        }),
{
}

/// The receiver of result notifications, the main service.
pub const RECEIVER: &'static str = "main-service";

/// The sender of result notifications, this worker.
pub const ACTIONER: &'static str = "mints-producer";

/// The JSON text of the receiver of result notifications.
pub const RECEIVER_JSON: &'static str = "\"main-service\"";

/// The JSON text of the sender of result notifications.
pub const ACTIONER_JSON: &'static str = "\"mints-producer\"";

/// serde_json writes the receiver and the sender between double quotes, as
/// they are: neither holds a character that JSON escapes.
pub proof fn lemma_notification_parties_json()
    ensures
        json_string_text(RECEIVER@) == RECEIVER_JSON@,
        json_string_text(ACTIONER@) == ACTIONER_JSON@,
{
    reveal_strlit("main-service");
    reveal_strlit("\"main-service\"");
    reveal_strlit("mints-producer");
    reveal_strlit("\"mints-producer\"");
    lemma_json_escaped_plain(RECEIVER@);
    lemma_json_escaped_plain(ACTIONER@);
    assert(json_string_text(RECEIVER@) =~= RECEIVER_JSON@);
    assert(json_string_text(ACTIONER@) =~= ACTIONER_JSON@);
}

/// The notification, with this id and time, that reports a mint result whose
/// JSON text is `result_json` to the main service.
pub fn mint_notification(result_json: String, id: String, fired_at: i64) -> (n: NotifData)
    ensures
        n.id == id,
        n.receiver_info matches Some(r) && r@ == json_string_text(RECEIVER@) && r@ == RECEIVER_JSON@,
        n.action_data == Some(result_json),
        n.actioner_info matches Some(a) && a@ == json_string_text(ACTIONER@) && a@ == ACTIONER_JSON@,
        n.action_type == ActionType::Mint,
        n.fired_at == Some(fired_at),
        !n.is_seen,
{
    proof {
        lemma_notification_parties_json();
    }
    NotifData {
        id,
        receiver_info: Some(json_string(RECEIVER)),
        action_data: Some(result_json),
        actioner_info: Some(json_string(ACTIONER)),
        action_type: ActionType::Mint,
        fired_at: Some(fired_at),
        is_seen: false,
    }
}

/// A lower-case hexadecimal digit.
pub open spec fn is_lower_hex_digit(c: char) -> bool {
    ('0' <= c && c <= '9') || ('a' <= c && c <= 'f')
}

/// `s` is a random (version 4) UUID in its hyphenated lower-case text form.
pub open spec fn is_uuid_v4_text(s: Seq<char>) -> bool {
    &&& s.len() == 36
    &&& forall|i: int|
        0 <= i < 36 ==> if i == 8 || i == 13 || i == 18 || i == 23 {
            s[i] == '-'
        } else {
            is_lower_hex_digit(#[trigger] s[i])
        }
    &&& s[14] == '4'
    &&& (s[19] == '8' || s[19] == '9' || s[19] == 'a' || s[19] == 'b')
}

/// A fresh notification id: `uuid::Uuid::new_v4()` written out by its
/// `Display`. The uuid crate sets the version nibble to 4 and the variant
/// bits to `10`, and writes the hyphenated lower-case form; the random bits
/// are not stated. It panics only when the system's random source fails.
#[verifier::external_body]
fn fresh_notification_id() -> (id: String)
    ensures
        is_uuid_v4_text(id@),
{
    uuid::Uuid::new_v4().to_string()
}

/// The current time: `chrono::Local::now().timestamp()`, the seconds since
/// the Unix epoch. Nothing is stated of the value, which depends on the clock;
/// chrono panics when the system clock stands before the epoch or beyond the
/// dates it can represent.
#[verifier::external_body]
fn current_timestamp() -> (t: i64) {
    chrono::Local::now().timestamp()
}

/// A new notification that reports a mint result whose JSON text is
/// `result_json` to the main service, with a fresh id and the current time.
pub fn new_mint_notification(result_json: String) -> (n: NotifData)
    ensures
        is_uuid_v4_text(n.id@),
        n.receiver_info matches Some(r) && r@ == json_string_text(RECEIVER@) && r@ == RECEIVER_JSON@,
        n.action_data == Some(result_json),
        n.actioner_info matches Some(a) && a@ == json_string_text(ACTIONER@) && a@ == ACTIONER_JSON@,
        n.action_type == ActionType::Mint,
        n.fired_at is Some,
        !n.is_seen,
{
    let id = fresh_notification_id();
    let fired_at = current_timestamp();
    mint_notification(result_json, id, fired_at)
}

/// The message that carries a result notification, whose text is `payload`,
/// to the producer. It goes to the exchange named by the `EXCHANGE` setting;
/// its exchange type is the `ROUTING_KEY` setting and its routing key the
/// `EXCHANGE_TYPE` setting: the two settings fill the crossed fields.
pub fn result_message(
    payload: String,
    exchange_setting: String,
    routing_key_setting: String,
    exchange_type_setting: String,
) -> (m: ProduceThis)
    ensures
        m.data == payload,
        m.exchange_name == exchange_setting,
        m.exchange_type == routing_key_setting,
        m.routing_key == exchange_type_setting,
{
    ProduceThis {
        data: payload,
        exchange_name: exchange_setting,
        exchange_type: routing_key_setting,
        routing_key: exchange_type_setting,
    }
}

} // verus!
