use vstd::prelude::*;

use crate::errors::RabbitMqClientError;

verus! {

/// The exact-match filter a create operation lists with: a regular
/// expression anchored on the whole target name.
pub fn exact_match_regex(name: &str) -> (r: String)
    ensures
        r@ == "("@ + name@ + "$)"@,
{
    String::from_str("(").concat(name).concat("$)")
}

/// The create-if-absent check shared by every resource's create operation.
///
/// `existing` holds the names returned by the filtered list call. The check
/// fails with `AlreadyExists` carrying the target name exactly when some
/// listed name equals it; otherwise the caller may proceed to the idempotent
/// update call. The listing and the update are two separate exchanges, so
/// two concurrent creators can still race; that window is accepted.
pub fn check_absent(existing: &Vec<String>, name: &String) -> (r: Result<(), RabbitMqClientError>)
    ensures
        r is Err <==> exists|i: int| 0 <= i < existing@.len() && existing@[i]@ == name@,
        r matches Err(e) ==> e matches RabbitMqClientError::AlreadyExists(n) && n@ == name@,
{
    let mut i: usize = 0;
    while i < existing.len()
        invariant
            i <= existing@.len(),
            forall|j: int| 0 <= j < i ==> existing@[j]@ != name@,
        decreases existing@.len() - i,
    {
        if existing[i] == *name {
            return Err(RabbitMqClientError::AlreadyExists(name.clone()));
        }
        i += 1;
    }
    Ok(())
}

/// The whole decision step between the list call and the update call: a
/// failed listing propagates unchanged, a listed match fails with
/// `AlreadyExists`, and only an empty match set lets creation proceed.
pub fn create_decision(
    listed: Result<Vec<String>, RabbitMqClientError>,
    name: &String,
) -> (r: Result<(), RabbitMqClientError>)
    ensures
        listed matches Err(e) ==> r matches Err(e2) && e2 == e,
        listed matches Ok(names) ==> ((r is Err <==> exists|i: int|
            0 <= i < names@.len() && names@[i]@ == name@) && (r matches Err(e)
            ==> e matches RabbitMqClientError::AlreadyExists(n) && n@ == name@)),
{
    match listed {
        Err(e) => Err(e),
        Ok(names) => check_absent(&names, name),
    }
}

} // verus!
