use vstd::prelude::*;

verus! {

/// An open client connection as the broker reports it.
#[derive(Debug)]
pub struct RabbitMqConnection {}

} // verus!
