use vstd::prelude::*;

verus! {

/// How a published payload is encoded in the request body.
#[derive(Debug, Clone, PartialEq, Eq, Structural)]
pub enum RabbitMqMessageEncoding {
    String,
    Base64,
}

/// The broker's persistence flag on a message.
#[derive(Debug, Clone, PartialEq, Eq, Structural)]
pub enum RabbitMqMessageDeliveryMode {
    NonPersistent,
    Persistent,
}

/// The broker's answer to a publish call.
#[derive(Debug)]
pub struct RabbitMqPublishMessageResponse {
    pub routed: bool,
}

/// Options of a consume call.
#[derive(Debug)]
pub struct RabbitMqGetMessagesOptions {
    pub count: u32,
    pub ack_mode: RabbitMqGetMessagesAckMode,
    pub encoding: RabbitMqGetMessagesEncoding,
    pub truncate: Option<u64>,
}

/// What happens to a consumed message after the call.
#[derive(Debug, Clone, PartialEq, Eq, Structural)]
pub enum RabbitMqGetMessagesAckMode {
    AckRequeueTrue,
    AckRequeueFalse,
    RejectRequeueTrue,
    RejectRequeueFalse,
}

/// How consumed payloads are encoded in the response body.
#[derive(Debug, Clone, PartialEq, Eq, Structural)]
pub enum RabbitMqGetMessagesEncoding {
    Auto,
    Base64,
}

impl RabbitMqMessageEncoding {
    /// The encoding name as the wire expects it.
    pub fn wire_name(&self) -> (s: String)
        ensures
            *self is String ==> s@ == "string"@,
            *self is Base64 ==> s@ == "base64"@,
    {
        match self {
            RabbitMqMessageEncoding::String => String::from_str("string"),
            RabbitMqMessageEncoding::Base64 => String::from_str("base64"),
        }
    }
}

impl RabbitMqMessageDeliveryMode {
    /// The numeric wire value of the persistence flag.
    pub fn wire_value(&self) -> (v: u8)
        ensures
            *self is NonPersistent ==> v == 1,
            *self is Persistent ==> v == 2,
    {
        match self {
            RabbitMqMessageDeliveryMode::NonPersistent => 1,
            RabbitMqMessageDeliveryMode::Persistent => 2,
        }
    }

    /// Read the persistence flag back from its numeric wire value.
    pub fn from_wire_value(v: u8) -> (m: Option<RabbitMqMessageDeliveryMode>)
        ensures
            v == 1 ==> m == Some(RabbitMqMessageDeliveryMode::NonPersistent),
            v == 2 ==> m == Some(RabbitMqMessageDeliveryMode::Persistent),
            v != 1 && v != 2 ==> m is None,
    {
        if v == 1 {
            Some(RabbitMqMessageDeliveryMode::NonPersistent)
        } else if v == 2 {
            Some(RabbitMqMessageDeliveryMode::Persistent)
        } else {
            None
        }
    }
}

impl RabbitMqGetMessagesAckMode {
    /// The acknowledgement mode name as the wire expects it.
    pub fn wire_name(&self) -> (s: String)
        ensures
            *self is AckRequeueTrue ==> s@ == "ack_requeue_true"@,
            *self is AckRequeueFalse ==> s@ == "ack_requeue_false"@,
            *self is RejectRequeueTrue ==> s@ == "reject_requeue_true"@,
            *self is RejectRequeueFalse ==> s@ == "reject_requeue_false"@,
    {
        match self {
            RabbitMqGetMessagesAckMode::AckRequeueTrue => String::from_str("ack_requeue_true"),
            RabbitMqGetMessagesAckMode::AckRequeueFalse => String::from_str("ack_requeue_false"),
            RabbitMqGetMessagesAckMode::RejectRequeueTrue => String::from_str(
                "reject_requeue_true",
            ),
            RabbitMqGetMessagesAckMode::RejectRequeueFalse => String::from_str(
                "reject_requeue_false",
            ),
        }
    }
}

impl RabbitMqGetMessagesEncoding {
    /// The response encoding name as the wire expects it.
    pub fn wire_name(&self) -> (s: String)
        ensures
            *self is Auto ==> s@ == "auto"@,
            *self is Base64 ==> s@ == "base64"@,
    {
        match self {
            RabbitMqGetMessagesEncoding::Auto => String::from_str("auto"),
            RabbitMqGetMessagesEncoding::Base64 => String::from_str("base64"),
        }
    }
}

} // verus!
