//! What is said of a hosted zone that Route 53 created.
use vstd::prelude::*;
use vstd::string::*;

verus! {

/// What is said when the zone of a domain was created.
pub fn create_hosted_zone(domain_name: &str) -> (said: String)
    ensures
        said@ == "The domain name "@ + domain_name@ + " has been registered sucessfully"@,
{
    let mut said = String::from_str("The domain name ");
    said.append(domain_name);
    said.append(" has been registered sucessfully");
    said
}

} // verus!
