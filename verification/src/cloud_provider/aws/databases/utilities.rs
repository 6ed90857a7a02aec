//! The names under which the remote state of a service is kept.

use vstd::prelude::*;
use vstd::string::*;

verus! {

/// The suffix that tells the remote state of one service from that of
/// another: the service's id.
pub open spec fn tfstate_suffix(service_id: Seq<char>) -> Seq<char> {
    service_id
}

/// The name of the secret that holds the remote state of a service.
pub open spec fn tfstate_name(service_id: Seq<char>) -> Seq<char> {
    "tfstate-default-"@ + service_id
}

pub fn get_tfstate_suffix(service_id: &str) -> (suffix: String)
    ensures
        suffix@ == tfstate_suffix(service_id@),
{
    String::from_str(service_id)
}

pub fn get_tfstate_name(service_id: &str) -> (name: String)
    ensures
        name@ == tfstate_name(service_id@),
{
    let mut name = String::from_str("tfstate-default-");
    name.append(service_id);
    name
}

} // verus!
