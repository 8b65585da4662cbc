//! The bus session of one relay, described as plain values: the exchange it
//! publishes to, the queue it owns, and every request it makes of the broker.
//!
//! Nothing here talks to a broker. A [`Rabbit`] says what is to be asked; the
//! caller that holds the connection asks it.

use vstd::prelude::*;

verus! {

/// How an exchange routes what is published to it.
#[derive(Clone, Copy, Debug, PartialEq, Eq, Structural)]
pub enum ExchangeKind {
    /// By exact routing key.
    Direct,
    /// To every bound queue.
    Fanout,
    /// By the headers of the message.
    Headers,
    /// By routing key pattern.
    Topic,
}

/// The request that declares the exchange.
#[derive(Clone, Debug)]
pub struct ExchangeDeclare {
    pub name: String,
    pub kind: ExchangeKind,
    pub passive: bool,
    pub durable: bool,
    pub auto_delete: bool,
    pub internal: bool,
    pub nowait: bool,
}

/// What an [`ExchangeDeclare`] stands for.
pub struct ExchangeDeclareView {
    pub name: Seq<char>,
    pub kind: ExchangeKind,
    pub passive: bool,
    pub durable: bool,
    pub auto_delete: bool,
    pub internal: bool,
    pub nowait: bool,
}

impl View for ExchangeDeclare {
    type V = ExchangeDeclareView;

    open spec fn view(&self) -> ExchangeDeclareView {
        ExchangeDeclareView {
            name: self.name@,
            kind: self.kind,
            passive: self.passive,
            durable: self.durable,
            auto_delete: self.auto_delete,
            internal: self.internal,
            nowait: self.nowait,
        }
    }
}

/// The request that declares the queue.
#[derive(Clone, Debug)]
pub struct QueueDeclare {
    pub name: String,
    pub passive: bool,
    pub durable: bool,
    pub exclusive: bool,
    pub auto_delete: bool,
    pub nowait: bool,
}

/// What a [`QueueDeclare`] stands for.
pub struct QueueDeclareView {
    pub name: Seq<char>,
    pub passive: bool,
    pub durable: bool,
    pub exclusive: bool,
    pub auto_delete: bool,
    pub nowait: bool,
}

impl View for QueueDeclare {
    type V = QueueDeclareView;

    open spec fn view(&self) -> QueueDeclareView {
        QueueDeclareView {
            name: self.name@,
            passive: self.passive,
            durable: self.durable,
            exclusive: self.exclusive,
            auto_delete: self.auto_delete,
            nowait: self.nowait,
        }
    }
}

/// The request that binds the queue to the exchange. A message reaches the
/// queue when its headers carry both `service` and `id` with these values.
#[derive(Clone, Debug)]
pub struct QueueBind {
    pub queue: String,
    pub exchange: String,
    pub routing_key: String,
    pub service: String,
    pub id: String,
    pub nowait: bool,
}

/// What a [`QueueBind`] stands for.
pub struct QueueBindView {
    pub queue: Seq<char>,
    pub exchange: Seq<char>,
    pub routing_key: Seq<char>,
    pub service: Seq<char>,
    pub id: Seq<char>,
    pub nowait: bool,
}

impl View for QueueBind {
    type V = QueueBindView;

    open spec fn view(&self) -> QueueBindView {
        QueueBindView {
            queue: self.queue@,
            exchange: self.exchange@,
            routing_key: self.routing_key@,
            service: self.service@,
            id: self.id@,
            nowait: self.nowait,
        }
    }
}

/// The request that opens the subscription on the queue.
#[derive(Clone, Debug)]
pub struct Consume {
    pub queue: String,
    pub tag: String,
    pub no_local: bool,
    pub no_ack: bool,
    pub exclusive: bool,
    pub nowait: bool,
}

/// What a [`Consume`] stands for.
pub struct ConsumeView {
    pub queue: Seq<char>,
    pub tag: Seq<char>,
    pub no_local: bool,
    pub no_ack: bool,
    pub exclusive: bool,
    pub nowait: bool,
}

impl View for Consume {
    type V = ConsumeView;

    open spec fn view(&self) -> ConsumeView {
        ConsumeView {
            queue: self.queue@,
            tag: self.tag@,
            no_local: self.no_local,
            no_ack: self.no_ack,
            exclusive: self.exclusive,
            nowait: self.nowait,
        }
    }
}

/// One message for the exchange: the payload as it came, tagged in its
/// `from-id` header with the identity of the relay that publishes it.
#[derive(Clone, Debug)]
pub struct Publish {
    pub exchange: String,
    pub routing_key: String,
    pub from_id: String,
    pub payload: Vec<u8>,
    pub mandatory: bool,
    pub immediate: bool,
}

/// What a [`Publish`] stands for.
pub struct PublishView {
    pub exchange: Seq<char>,
    pub routing_key: Seq<char>,
    pub from_id: Seq<char>,
    pub payload: Seq<u8>,
    pub mandatory: bool,
    pub immediate: bool,
}

impl View for Publish {
    type V = PublishView;

    open spec fn view(&self) -> PublishView {
        PublishView {
            exchange: self.exchange@,
            routing_key: self.routing_key@,
            from_id: self.from_id@,
            payload: self.payload@,
            mandatory: self.mandatory,
            immediate: self.immediate,
        }
    }
}

/// The reply with which the channel, then the connection, is closed.
#[derive(Clone, Debug)]
pub struct Shutdown {
    pub code: u16,
    pub text: String,
}

/// What a [`Shutdown`] stands for.
pub struct ShutdownView {
    pub code: u16,
    pub text: Seq<char>,
}

impl View for Shutdown {
    type V = ShutdownView;

    open spec fn view(&self) -> ShutdownView {
        ShutdownView { code: self.code, text: self.text@ }
    }
}

/// The reply code of an orderly close.
pub const REPLY_SUCCESS: u16 = 200;

/// The reply every relay closes with.
pub open spec fn shutdown_reply() -> ShutdownView {
    ShutdownView { code: REPLY_SUCCESS, text: "client shut down"@ }
}

/// The broker a relay connects to when none is configured: the local one, on
/// the standard port, default virtual host.
pub open spec fn default_address() -> Seq<char> {
    "amqp://127.0.0.1:5672/%2f"@
}

/// The address of the broker: the configured one, or the local default.
pub fn broker_address(configured: Option<String>) -> (address: String)
    ensures
        address@ == match configured {
            Some(given) => given@,
            None => default_address(),
        },
{
    match configured {
        Some(given) => given,
        None => "amqp://127.0.0.1:5672/%2f".to_owned(),
    }
}

/// One bus session: a headers exchange and the queue of this relay on it.
///
/// The exchange is named after the service; the queue is named after the
/// identity of the relay, which also tags whatever the relay publishes.
#[derive(Clone, Debug)]
pub struct Rabbit {
    exchange: String,
    queue: String,
}

/// What a [`Rabbit`] stands for: the name of its exchange, which is the
/// service name, and the name of its queue, which is the relay's identity.
pub struct RabbitView {
    pub exchange: Seq<char>,
    pub queue: Seq<char>,
}

impl View for Rabbit {
    type V = RabbitView;

    closed spec fn view(&self) -> RabbitView {
        RabbitView { exchange: self.exchange@, queue: self.queue@ }
    }
}

impl RabbitView {
    /// The exchange: routed by headers, not durable, deleted when unused.
    pub open spec fn exchange_declare(self) -> ExchangeDeclareView {
        ExchangeDeclareView {
            name: self.exchange,
            kind: ExchangeKind::Headers,
            passive: false,
            durable: false,
            auto_delete: true,
            internal: false,
            nowait: false,
        }
    }

    /// The queue: owned by this connection alone, not durable, deleted with it.
    pub open spec fn queue_declare(self) -> QueueDeclareView {
        QueueDeclareView {
            name: self.queue,
            passive: false,
            durable: false,
            exclusive: true,
            auto_delete: true,
            nowait: false,
        }
    }

    /// The binding: the queue takes what is addressed to this service and
    /// this identity, both at once.
    pub open spec fn queue_bind(self) -> QueueBindView {
        QueueBindView {
            queue: self.queue,
            exchange: self.exchange,
            routing_key: Seq::empty(),
            service: self.exchange,
            id: self.queue,
            nowait: false,
        }
    }

    /// The subscription on the queue under the consumer tag `tag`.
    pub open spec fn consume(self, tag: Seq<char>) -> ConsumeView {
        ConsumeView {
            queue: self.queue,
            tag,
            no_local: false,
            no_ack: false,
            exclusive: false,
            nowait: false,
        }
    }

    /// The message that carries `payload`: to the exchange, with an empty
    /// routing key, tagged with this identity.
    pub open spec fn publish(self, payload: Seq<u8>) -> PublishView {
        PublishView {
            exchange: self.exchange,
            routing_key: Seq::empty(),
            from_id: self.queue,
            payload,
            mandatory: false,
            immediate: false,
        }
    }
}

impl Rabbit {
    /// The session on exchange `ex` for the relay whose identity, and queue, is `q`.
    pub fn new(ex: &str, q: &str) -> (rabbit: Rabbit)
        ensures
            rabbit@.exchange == ex@,
            rabbit@.queue == q@,
    {
        Rabbit { exchange: ex.to_owned(), queue: q.to_owned() }
    }

    /// The name of the exchange.
    pub fn exchange_name(&self) -> (name: &str)
        ensures
            name@ == self@.exchange,
    {
        self.exchange.as_str()
    }

    /// The name of the queue, which is the identity of the relay.
    pub fn queue_name(&self) -> (name: &str)
        ensures
            name@ == self@.queue,
    {
        self.queue.as_str()
    }

    /// The request that declares the exchange.
    pub fn exchange_declare(&self) -> (request: ExchangeDeclare)
        ensures
            request@ == self@.exchange_declare(),
    {
        ExchangeDeclare {
            name: self.exchange.clone(),
            kind: ExchangeKind::Headers,
            passive: false,
            durable: false,
            auto_delete: true,
            internal: false,
            nowait: false,
        }
    }

    /// The request that declares the queue.
    pub fn queue_declare(&self) -> (request: QueueDeclare)
        ensures
            request@ == self@.queue_declare(),
    {
        QueueDeclare {
            name: self.queue.clone(),
            passive: false,
            durable: false,
            exclusive: true,
            auto_delete: true,
            nowait: false,
        }
    }

    /// The request that binds the queue to the exchange.
    pub fn queue_bind(&self) -> (request: QueueBind)
        ensures
            request@ == self@.queue_bind(),
    {
        QueueBind {
            queue: self.queue.clone(),
            exchange: self.exchange.clone(),
            routing_key: String::new(),
            service: self.exchange.clone(),
            id: self.queue.clone(),
            nowait: false,
        }
    }

    /// The request that opens the subscription on the queue under `tag`.
    pub fn get_consumer(&self, tag: &str) -> (request: Consume)
        ensures
            request@ == self@.consume(tag@),
    {
        Consume {
            queue: self.queue.clone(),
            tag: tag.to_owned(),
            no_local: false,
            no_ack: false,
            exclusive: false,
            nowait: false,
        }
    }

    /// The message that carries `msg` to the bus, unchanged and tagged with
    /// the identity of this relay.
    pub fn publish(&self, msg: Vec<u8>) -> (request: Publish)
        ensures
            request@ == self@.publish(msg@),
    {
        Publish {
            exchange: self.exchange.clone(),
            routing_key: String::new(),
            from_id: self.queue.clone(),
            payload: msg,
            mandatory: false,
            immediate: false,
        }
    }

    /// The reply with which the session is closed.
    pub fn shutdown() -> (reply: Shutdown)
        ensures
            reply@ == shutdown_reply(),
    {
        Shutdown { code: REPLY_SUCCESS, text: "client shut down".to_owned() }
    }
}

} // verus!
