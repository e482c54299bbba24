use vstd::prelude::*;

use std::collections::HashMap;

use crate::errors::RabbitMqClientError;

verus! {

/// A routing rule from a source exchange to a destination.
#[derive(Debug)]
pub struct RabbitMqBinding {
    pub source: String,
    pub vhost: String,
    pub destination: String,
    pub destination_type: RabbitMqBindingDestinationType,
    pub routing_key: String,
    pub properties_key: String,
    pub arguments: HashMap<String, String>,
}

/// What a binding points at.
#[derive(Debug, Clone, PartialEq, Eq, Structural)]
pub enum RabbitMqBindingDestinationType {
    Exchange,
    Queue,
}

/// Caller-supplied part of a new binding.
#[derive(Debug)]
pub struct RabbitMqBindingRequest {
    pub routing_key: Option<String>,
    pub arguments: Option<HashMap<String, String>>,
}

impl RabbitMqBindingDestinationType {
    /// The one-letter path segment the binding endpoints use.
    pub fn wire_symbol(&self) -> (s: String)
        ensures
            *self is Exchange ==> s@ == "e"@,
            *self is Queue ==> s@ == "q"@,
    {
        match self {
            RabbitMqBindingDestinationType::Exchange => String::from_str("e"),
            RabbitMqBindingDestinationType::Queue => String::from_str("q"),
        }
    }
}

/// The out-of-band signal a binding creation depends on: the server names
/// the new binding in a location header. A present header passes through
/// unchanged; a missing one is an `UnexpectedResponse`.
pub fn confirm_binding_location(location: Option<String>) -> (r: Result<
    String,
    RabbitMqClientError,
>)
    ensures
        location matches Some(l) ==> (r matches Ok(s) && s@ == l@),
        location is None ==> (r matches Err(e) && e
            matches RabbitMqClientError::UnexpectedResponse(m) && m@
            == "Binding Location header not present"@),
{
    match location {
        Some(l) => Ok(l),
        None => Err(
            RabbitMqClientError::UnexpectedResponse(
                String::from_str("Binding Location header not present"),
            ),
        ),
    }
}

} // verus!
