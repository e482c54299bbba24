use vstd::prelude::*;

verus! {

/// The cluster-wide summary the overview endpoint returns.
#[derive(Debug)]
pub struct RabbitMqOverview {
    pub management_version: String,
    pub rates_mode: String,
    pub exchange_types: Vec<RabbitMqExchangeType>,
    pub product_version: String,
    pub product_name: String,
    pub rabbitmq_version: String,
    pub cluster_name: String,
    pub erlang_version: String,
    pub erlang_full_version: String,
    pub release_series_support_status: String,
    pub disable_stats: bool,
    pub is_op_policy_updating_enabled: bool,
    pub enable_queue_totals: bool,
    pub churn_rates: RabbitMqChurnRates,
    pub object_totals: RabbitMqObjectTotals,
    pub listeners: Vec<RabbitMqListener>,
    pub contexts: Vec<RabbitMqContext>,
}

/// An exchange routing algorithm the cluster offers.
#[derive(Debug)]
pub struct RabbitMqExchangeType {
    pub name: String,
    pub description: String,
    pub enabled: bool,
}

/// A web context a node serves.
#[derive(Debug)]
pub struct RabbitMqContext {
    pub node: Option<String>,
    pub description: String,
    pub path: String,
    pub cowboy_opts: String,
    pub port: String,
    pub protocol: Option<String>,
}

/// A listening socket a node has open.
#[derive(Debug)]
pub struct RabbitMqListener {
    pub node: String,
    pub protocol: String,
    pub ip_address: String,
    pub port: i64,
}

/// Cluster-wide object churn counters.
#[derive(Debug)]
pub struct RabbitMqChurnRates {
    pub channel_closed: i64,
    pub channel_created: i64,
    pub connection_closed: i64,
    pub connection_created: i64,
    pub queue_created: i64,
    pub queue_declared: i64,
    pub queue_deleted: i64,
}

/// Cluster-wide object totals.
#[derive(Debug)]
pub struct RabbitMqObjectTotals {
    pub channels: i64,
    pub connections: i64,
    pub consumers: i64,
    pub exchanges: i64,
    pub queues: i64,
}

/// The cluster's display name.
#[derive(Debug, Clone)]
pub struct RabbitMqClusterName {
    pub name: String,
}

} // verus!
