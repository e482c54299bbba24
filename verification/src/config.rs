use vstd::prelude::*;

verus! {

/// Connection settings supplied once at client construction.
#[derive(Debug, Clone)]
pub struct RabbitMqConfiguration {
    pub rabbitmq_api_url: String,
    pub rabbitmq_username: String,
    pub rabbitmq_password: String,
}

} // verus!
