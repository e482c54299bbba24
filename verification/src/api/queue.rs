use vstd::prelude::*;

use std::collections::HashMap;

verus! {

/// Delivery counters of one queue.
#[derive(Debug, Clone)]
pub struct RabbitMqQueueMessageStats {
    pub ack: i64,
    pub deliver: i64,
    pub deliver_get: i64,
    pub deliver_no_ack: i64,
    pub get: i64,
    pub get_empty: i64,
    pub get_no_ack: i64,
    pub publish: i64,
    pub redeliver: i64,
}

/// Garbage-collection settings of one queue's process.
#[derive(Debug, Clone)]
pub struct RabbitMqQueueGarbageCollection {
    pub fullsweep_after: i64,
    pub max_heap_size: i64,
    pub min_bin_vheap_size: i64,
    pub min_heap_size: i64,
    pub minor_gcs: i64,
}

/// Caller-supplied part of a new or updated queue.
#[derive(Debug)]
pub struct RabbitMqQueueRequest {
    pub auto_delete: bool,
    pub durable: bool,
    pub arguments: Option<HashMap<String, String>>,
    pub node: Option<String>,
}

/// Body of a queue action call.
#[derive(Debug)]
pub struct RabbitMqQueueActionRequest {
    pub action: RabbitMqQueueAction,
}

/// A maintenance action on a queue.
#[derive(Debug, Clone, PartialEq, Eq, Structural)]
pub enum RabbitMqQueueAction {
    Sync,
    CancelSync,
}

impl RabbitMqQueueAction {
    /// The action name as the wire expects it.
    pub fn wire_name(&self) -> (s: String)
        ensures
            *self is Sync ==> s@ == "sync"@,
            *self is CancelSync ==> s@ == "cancel_sync"@,
    {
        match self {
            RabbitMqQueueAction::Sync => String::from_str("sync"),
            RabbitMqQueueAction::CancelSync => String::from_str("cancel_sync"),
        }
    }
}

} // verus!
