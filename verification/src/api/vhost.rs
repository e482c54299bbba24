use vstd::prelude::*;

use std::collections::HashMap;

verus! {

/// A namespace partition within the broker.
#[derive(Debug)]
pub struct RabbitMqVhost {
    pub cluster_state: HashMap<String, String>,
    pub default_queue_type: String,
    pub description: String,
    pub metadata: RabbitMqVhostMetadata,
    pub name: String,
    pub tags: Vec<String>,
    pub tracing: bool,
    pub messages: i64,
    pub messages_ready: i64,
    pub messages_unacknowledged: i64,
}

#[derive(Debug)]
pub struct RabbitMqVhostMetadata {
    pub description: String,
    pub tags: Vec<String>,
}

/// Caller-supplied part of a new or updated vhost.
#[derive(Debug)]
pub struct RabbitMqVhostRequest {
    pub name: String,
    pub description: Option<String>,
    pub tags: Vec<String>,
    pub tracing: bool,
}

} // verus!
