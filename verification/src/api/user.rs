use vstd::prelude::*;

verus! {

/// The authenticated caller's own identity.
#[derive(Debug)]
pub struct RabbitMqWhoAmI {
    pub name: String,
    pub tags: Vec<RabbitMqUserTag>,
}

/// One management user.
#[derive(Debug)]
pub struct RabbitMqUser {
    pub name: String,
    pub password_hash: String,
    pub hashing_algorithm: RabbitMqHashingAlgorithm,
    pub tags: Vec<RabbitMqUserTag>,
}

/// A management role attached to a user.
#[derive(Debug, Clone, PartialEq, Eq, Structural)]
pub enum RabbitMqUserTag {
    Administrator,
    Management,
    Monitoring,
}

/// Caller-supplied part of a new user.
#[derive(Debug)]
pub struct RabbitMqUserCreateRequest {
    pub name: String,
    pub password: Option<String>,
    pub password_hash: Option<String>,
    pub hashing_algorithm: Option<RabbitMqHashingAlgorithm>,
    pub tags: Vec<RabbitMqUserTag>,
}

/// Body of a bulk user deletion.
#[derive(Debug)]
pub struct RabbitMqUsersBulkDeleteRequest {
    pub users: Vec<String>,
}

/// The password hashing scheme stored with a user.
#[derive(Debug, Clone, PartialEq, Eq, Structural)]
pub enum RabbitMqHashingAlgorithm {
    RabbitPasswordHashingSha256,
    RabbitPasswordHashingSha512,
    RabbitPasswordHashingMd5,
}

} // verus!
