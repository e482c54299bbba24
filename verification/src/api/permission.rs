use vstd::prelude::*;

verus! {

/// One user's rights on one vhost.
#[derive(Debug)]
pub struct RabbitMqPermission {
    pub vhost: String,
    pub user: String,
    pub configure: String,
    pub write: String,
    pub read: String,
}

/// One user's topic rights on one vhost.
#[derive(Debug)]
pub struct RabbitMqTopicPermission {}

} // verus!
