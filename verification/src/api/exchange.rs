use vstd::prelude::*;

verus! {

/// A message-routing entity that forwards published messages to bound
/// destinations.
#[derive(Debug)]
pub struct RabbitMqExchange {
    pub auto_delete: bool,
    pub durable: bool,
    pub internal: bool,
    pub name: String,
    pub kind: String,
    pub user_who_performed_action: String,
    pub vhost: String,
    pub message_stats: Option<RabbitMqExchangeMessageStats>,
}

#[derive(Debug, Clone)]
pub struct RabbitMqExchangeMessageStats {
    pub publish_in: Option<i64>,
    pub publish_out: Option<i64>,
}

/// Caller-supplied part of a new or updated exchange.
#[derive(Debug)]
pub struct RabbitMqExchangeRequest {
    pub kind: String,
    pub auto_delete: bool,
    pub durable: bool,
    pub internal: bool,
}

} // verus!
