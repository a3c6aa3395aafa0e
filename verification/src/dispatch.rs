//! Handing a completed barcode to the HTTP endpoint: which address to
//! request, and what to make of the reply.

use vstd::prelude::*;
use vstd::string::StringExecFns;
use crate::fault::{Fault, Reply};

verus! {

/// The status code that counts as success.
pub open spec fn success_status() -> u16 {
    200
}

/// The address to request for a barcode: the barcode travels as the query
/// parameter `barcode`, appended to the destination as it is.
pub open spec fn request_url_of(address: Seq<char>, barcode: Seq<char>) -> Seq<char> {
    address + "?barcode="@ + barcode
}

/// Whether a reply means that the endpoint took the barcode.
pub open spec fn delivered(reply: Reply) -> bool {
    reply == Reply::Status(success_status())
}

/// `reqwest::StatusCode::OK`, as the number `as_u16` gives for it.
/// Trusted: the crate defines the constant as the status 200.
#[verifier::external_body]
fn status_ok() -> (code: u16)
    ensures
        code == success_status(),
{
    reqwest::StatusCode::OK.as_u16()
}

/// Builds the address to request for a completed barcode.
pub fn request_url(address: &str, barcode: &str) -> (url: String)
    ensures
        url@ == request_url_of(address@, barcode@),
{
    let mut url = address.to_owned();
    url.append("?barcode=");
    url.append(barcode);
    url
}

/// Judges the reply to a request. Only the success status is a delivery;
/// any other status and any transport error is a dispatch failure, which is
/// reported and never fatal.
pub fn judge_reply(reply: Reply) -> (judged: Result<(), Fault>)
    ensures
        delivered(reply) ==> judged == Ok::<(), Fault>(()),
        !delivered(reply) ==> judged == Err::<(), Fault>(Fault::DispatchFailed(reply)),
        judged matches Err(fault) ==> !fault.fatal(),
{
    match reply {
        Reply::Status(code) => {
            if code == status_ok() {
                Ok(())
            } else {
                Err(Fault::DispatchFailed(reply))
            }
        },
        Reply::TransportError => Err(Fault::DispatchFailed(reply)),
    }
}

} // verus!
