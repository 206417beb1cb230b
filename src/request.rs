//! The request body of a send, with the optional check of the recipient's
//! address made before anything goes out.
use vstd::prelude::*;
use crate::message::Email;
use crate::outcome::Error;

verus! {

/// The text matches the parser's strict (RFC 5322) address grammar.
pub uninterp spec fn is_email_address(s: Seq<char>) -> bool;

/// Relies on email_address_parser::EmailAddress::parse, with default
/// (strict) options: an address comes back only from a completed match of
/// its grammar. It may also fail on a valid address (the parser gives up when
/// the stack runs low or a process-wide call limit is spent), so `false`
/// proves nothing.
#[verifier::external_body]
fn parses_as_address(s: &str) -> (r: bool)
    ensures
        r ==> is_email_address(s@),
{
    email_address_parser::EmailAddress::parse(s, None).is_some()
}

/// The body of the request for this message, given whether its recipient
/// passed the address check: the message's JSON when it did, `InvalidEmail`
/// when it did not.
pub fn body_for(email: &Email, address_ok: bool) -> (r: Result<String, Error>)
    ensures
        match r {
            Ok(body) => address_ok && body@ == email@.json(),
            Err(e) => !address_ok && e is InvalidEmail,
        },
{
    if address_ok {
        Ok(email.to_string())
    } else {
        Err(Error::InvalidEmail)
    }
}

/// The body of the request for this message. With `check_address`, a
/// recipient that the address parser does not accept fails with
/// `InvalidEmail` before anything is sent, and a body comes back only for a
/// recipient that matches the address grammar; without it, the message's
/// JSON always comes back.
pub fn request_body(email: &Email, check_address: bool) -> (r: Result<String, Error>)
    ensures
        match r {
            Ok(body) => (check_address ==> is_email_address(email@.to)) && body@ == email@.json(),
            Err(e) => check_address && e is InvalidEmail,
        },
        !check_address ==> r is Ok,
{
    let address_ok = if check_address {
        parses_as_address(email.recipient())
    } else {
        true
    };
    body_for(email, address_ok)
}

} // verus!
