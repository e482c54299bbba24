pub mod binding;
pub mod connection;
pub mod create;
pub mod exchange;
pub mod generic;
pub mod message;
pub mod node;
pub mod options;
pub mod overview;
pub mod permission;
pub mod policy;
pub mod queue;
pub mod user;
pub mod vhost;
pub mod wire;

pub use options::{
    pagination::{RabbitMqPaginatedResponse, RabbitMqPagination, RabbitMqPaginationFilter},
    sorting::RabbitMqSorting,
    RabbitMqRequestOptions,
};
