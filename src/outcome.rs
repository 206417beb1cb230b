//! What a send can end in, and how the service's reply is read.
use vstd::prelude::*;
use crate::message::opt_view;
use crate::text::{chars_of, contains, contains_chars, decimal, status_text};

verus! {

/// Every way a send can fail.
#[derive(Debug, PartialEq, Eq)]
pub enum Error {
    /// The API token matches no domain.
    InvalidApiToken,
    /// The service cannot parse the sender's address.
    FromAddressNotParseable,
    /// The request had no `to` field.
    NoToField,
    /// The `to` field holds no valid address.
    ToAddressNotParseable,
    /// An address in the `to` field is on the blocked list.
    ToAddressBlocked,
    /// More than 50 addresses in the `to` field.
    TooManyToAddrs,
    /// An attachment's file type is not accepted.
    ExtensionTypeBlocked,
    /// The request carried no API token.
    MissingApiToken,
    /// The sending domain has not completed DKIM verification.
    DomainDkimVerificationNotCompleted,
    /// The organization has no active plan.
    InactivePlanForDomain,
    /// The organization has been disabled.
    OrganizationDisabled,
    /// The sender's domain is not the one registered for the token.
    FromAddressNotEqualToRegisteredDomain,
    /// The request is malformed.
    InvalidRequestFormat,
    /// Too many messages in a short time.
    RateLimit,
    /// The service had an internal error.
    NoContent,
    /// The service could not be reached.
    NetworkError(String),
    /// Any other reply, with its body or its status code.
    Other(String),
    /// The recipient is not a valid address; checked before any request.
    InvalidEmail,
}

/// An error with its text payloads as character sequences.
pub enum ErrorModel {
    InvalidApiToken,
    FromAddressNotParseable,
    NoToField,
    ToAddressNotParseable,
    ToAddressBlocked,
    TooManyToAddrs,
    ExtensionTypeBlocked,
    MissingApiToken,
    DomainDkimVerificationNotCompleted,
    InactivePlanForDomain,
    OrganizationDisabled,
    FromAddressNotEqualToRegisteredDomain,
    InvalidRequestFormat,
    RateLimit,
    NoContent,
    NetworkError(Seq<char>),
    Other(Seq<char>),
    InvalidEmail,
}

impl View for Error {
    type V = ErrorModel;

    open spec fn view(&self) -> ErrorModel {
        match self {
            Error::InvalidApiToken => ErrorModel::InvalidApiToken,
            Error::FromAddressNotParseable => ErrorModel::FromAddressNotParseable,
            Error::NoToField => ErrorModel::NoToField,
            Error::ToAddressNotParseable => ErrorModel::ToAddressNotParseable,
            Error::ToAddressBlocked => ErrorModel::ToAddressBlocked,
            Error::TooManyToAddrs => ErrorModel::TooManyToAddrs,
            Error::ExtensionTypeBlocked => ErrorModel::ExtensionTypeBlocked,
            Error::MissingApiToken => ErrorModel::MissingApiToken,
            Error::DomainDkimVerificationNotCompleted => ErrorModel::DomainDkimVerificationNotCompleted,
            Error::InactivePlanForDomain => ErrorModel::InactivePlanForDomain,
            Error::OrganizationDisabled => ErrorModel::OrganizationDisabled,
            Error::FromAddressNotEqualToRegisteredDomain => ErrorModel::FromAddressNotEqualToRegisteredDomain,
            Error::InvalidRequestFormat => ErrorModel::InvalidRequestFormat,
            Error::RateLimit => ErrorModel::RateLimit,
            Error::NoContent => ErrorModel::NoContent,
            Error::NetworkError(m) => ErrorModel::NetworkError(m@),
            Error::Other(m) => ErrorModel::Other(m@),
            Error::InvalidEmail => ErrorModel::InvalidEmail,
        }
    }
}

/// The model of a send's outcome.
pub open spec fn outcome_view(r: Result<(), Error>) -> Result<(), ErrorModel> {
    match r {
        Ok(()) => Ok(()),
        Err(e) => Err(e@),
    }
}

/// A 400 reply, by the first of these phrases that its body contains.
pub open spec fn bad_request(body: Seq<char>) -> ErrorModel {
    if contains(body, "Invalid API"@) {
        ErrorModel::InvalidApiToken
    } else if contains(body, "not parseable"@) {
        ErrorModel::FromAddressNotParseable
    } else if contains(body, "undefined field"@) {
        ErrorModel::NoToField
    } else if contains(body, "is invalid"@) {
        ErrorModel::ToAddressNotParseable
    } else if contains(body, "blocked address"@) {
        ErrorModel::ToAddressBlocked
    } else if contains(body, "maximum volume"@) {
        ErrorModel::RateLimit
    } else if contains(body, "Extension file type blocked"@) {
        ErrorModel::ExtensionTypeBlocked
    } else {
        ErrorModel::Other(body)
    }
}

/// A 403 reply, by the first of these phrases that its body contains.
pub open spec fn forbidden(body: Seq<char>) -> ErrorModel {
    if contains(body, "Domain DKIM"@) {
        ErrorModel::DomainDkimVerificationNotCompleted
    } else if contains(body, "not have an active plan"@) {
        ErrorModel::InactivePlanForDomain
    } else if contains(body, "unable to send email"@) {
        ErrorModel::OrganizationDisabled
    } else if contains(body, "Verified domain"@) {
        ErrorModel::FromAddressNotEqualToRegisteredDomain
    } else {
        ErrorModel::Other(body)
    }
}

/// The outcome of a reply with this status code and body; `None` stands
/// for a body that could not be read as text.
pub open spec fn classify(status: u16, body: Option<Seq<char>>) -> Result<(), ErrorModel> {
    if status == 200 {
        Ok(())
    } else if status == 401 {
        Err(ErrorModel::MissingApiToken)
    } else if status == 406 {
        Err(ErrorModel::InvalidRequestFormat)
    } else if status == 429 {
        Err(ErrorModel::RateLimit)
    } else if status == 500 {
        Err(ErrorModel::NoContent)
    } else {
        match body {
            None => Err(ErrorModel::Other(decimal(status as nat))),
            Some(b) => if status == 400 {
                Err(bad_request(b))
            } else if status == 403 {
                Err(forbidden(b))
            } else {
                Err(ErrorModel::Other(b))
            },
        }
    }
}

/// Whether the body holds the phrase.
fn mentions(body: &Vec<char>, phrase: &str) -> (r: bool)
    ensures
        r == contains(body@, phrase@),
{
    let p = chars_of(phrase);
    contains_chars(body, &p)
}

fn classify_bad_request(body: String) -> (r: Error)
    ensures
        r@ == bad_request(body@),
{
    let b = chars_of(body.as_str());
    if mentions(&b, "Invalid API") {
        Error::InvalidApiToken
    } else if mentions(&b, "not parseable") {
        Error::FromAddressNotParseable
    } else if mentions(&b, "undefined field") {
        Error::NoToField
    } else if mentions(&b, "is invalid") {
        Error::ToAddressNotParseable
    } else if mentions(&b, "blocked address") {
        Error::ToAddressBlocked
    } else if mentions(&b, "maximum volume") {
        Error::RateLimit
    } else if mentions(&b, "Extension file type blocked") {
        Error::ExtensionTypeBlocked
    } else {
        Error::Other(body)
    }
}

fn classify_forbidden(body: String) -> (r: Error)
    ensures
        r@ == forbidden(body@),
{
    let b = chars_of(body.as_str());
    if mentions(&b, "Domain DKIM") {
        Error::DomainDkimVerificationNotCompleted
    } else if mentions(&b, "not have an active plan") {
        Error::InactivePlanForDomain
    } else if mentions(&b, "unable to send email") {
        Error::OrganizationDisabled
    } else if mentions(&b, "Verified domain") {
        Error::FromAddressNotEqualToRegisteredDomain
    } else {
        Error::Other(body)
    }
}

/// Reads the service's reply: its status code and, where it could be read
/// as text, its body.
pub fn classify_response(status: u16, body: Option<String>) -> (r: Result<(), Error>)
    ensures
        outcome_view(r) == classify(status, opt_view(body)),
{
    if status == 200 {
        Ok(())
    } else if status == 401 {
        Err(Error::MissingApiToken)
    } else if status == 406 {
        Err(Error::InvalidRequestFormat)
    } else if status == 429 {
        Err(Error::RateLimit)
    } else if status == 500 {
        Err(Error::NoContent)
    } else {
        match body {
            None => Err(Error::Other(status_text(status))),
            Some(b) => if status == 400 {
                Err(classify_bad_request(b))
            } else if status == 403 {
                Err(classify_forbidden(b))
            } else {
                Err(Error::Other(b))
            },
        }
    }
}

/// The outcome of one exchange with the service: a transport failure, with
/// its message, or a reply, with its status code and body.
pub fn outcome(exchange: Result<(u16, Option<String>), String>) -> (r: Result<(), Error>)
    ensures
        outcome_view(r) == match exchange {
            Ok((status, body)) => classify(status, opt_view(body)),
            Err(message) => Err(ErrorModel::NetworkError(message@)),
        },
{
    match exchange {
        Ok((status, body)) => classify_response(status, body),
        Err(message) => Err(Error::NetworkError(message)),
    }
}

/// A 200 reply is a success and a 401 reply a missing token, whatever the
/// body; a 400 reply whose body holds none of the known phrases is `Other`
/// with that body.
pub proof fn lemma_fixed_statuses(body: Option<Seq<char>>, text: Seq<char>)
    ensures
        classify(200, body) == Ok::<(), ErrorModel>(()),
        classify(401, body) == Err::<(), ErrorModel>(ErrorModel::MissingApiToken),
        !contains(text, "Invalid API"@) && !contains(text, "not parseable"@) && !contains(
            text,
            "undefined field"@,
        ) && !contains(text, "is invalid"@) && !contains(text, "blocked address"@) && !contains(
            text,
            "maximum volume"@,
        ) && !contains(text, "Extension file type blocked"@) ==> classify(400, Some(text)) == Err::<
            (),
            ErrorModel,
        >(ErrorModel::Other(text)),
{
}

/// The first phrase in the order of the rules decides: a 400 body that
/// mentions "Invalid API" is an invalid token, whatever else it holds.
pub proof fn lemma_invalid_token_first(body: Seq<char>)
    requires
        contains(body, "Invalid API"@),
    ensures
        classify(400, Some(body)) == Err::<(), ErrorModel>(ErrorModel::InvalidApiToken),
{
}

} // verus!
