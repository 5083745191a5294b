use vstd::prelude::*;

verus! {

/// The error text for a host key that is not where it was looked for;
/// `location` is the path as it is displayed.
pub fn missing_key_message(location: &str) -> (r: String)
    ensures
        r@ == "Host key not found at "@ + location@ + ". Please generate host keys first."@,
{
    let mut r = String::from_str("Host key not found at ");
    r.append(location);
    r.append(". Please generate host keys first.");
    r
}

/// The error text for a host key file that could not be read or parsed;
/// `detail` is the reader's own account of the failure.
pub fn unreadable_key_message(detail: &str) -> (r: String)
    ensures
        r@ == "Failed to read host key: "@ + detail@,
{
    let mut r = String::from_str("Failed to read host key: ");
    r.append(detail);
    r
}

} // verus!
