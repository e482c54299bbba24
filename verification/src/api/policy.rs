use vstd::prelude::*;

use std::collections::HashMap;

verus! {

/// A pattern-matched configuration override.
#[derive(Debug)]
pub struct RabbitMqPolicy {
    pub name: String,
}

/// Caller-supplied part of a new or updated policy.
#[derive(Debug)]
pub struct RabbitMqPolicyRequest {
    pub pattern: String,
    pub definition: HashMap<String, RabbitMqPolicyDefinitionValue>,
    pub priority: Option<i64>,
    pub apply_to: Option<String>,
}

/// A policy definition entry is either textual or numeric.
#[derive(Debug, Clone)]
pub enum RabbitMqPolicyDefinitionValue {
    String(String),
    Integer(i64),
}

} // verus!
