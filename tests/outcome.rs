use ohmysmtp::{body_for, classify_response, outcome, request_body, Email, Error};

fn reply(status: u16, body: &str) -> Result<(), Error> {
    classify_response(status, Some(body.to_string()))
}

#[test]
fn success_whatever_the_body() {
    assert_eq!(reply(200, "Invalid API token"), Ok(()));
    assert_eq!(classify_response(200, None), Ok(()));
}

#[test]
fn bad_request_phrases() {
    assert_eq!(reply(400, "Invalid API token"), Err(Error::InvalidApiToken));
    assert_eq!(reply(400, "From address not parseable"), Err(Error::FromAddressNotParseable));
    assert_eq!(reply(400, "undefined field to"), Err(Error::NoToField));
    assert_eq!(reply(400, "To address is invalid"), Err(Error::ToAddressNotParseable));
    assert_eq!(reply(400, "blocked address x"), Err(Error::ToAddressBlocked));
    assert_eq!(reply(400, "maximum volume reached"), Err(Error::RateLimit));
    assert_eq!(reply(400, "Extension file type blocked"), Err(Error::ExtensionTypeBlocked));
    assert_eq!(reply(400, "something else"), Err(Error::Other("something else".to_string())));
    assert_eq!(classify_response(400, None), Err(Error::Other("400".to_string())));
}

#[test]
fn bad_request_first_rule_wins() {
    assert_eq!(reply(400, "address is invalid; Invalid API token"), Err(Error::InvalidApiToken));
}

#[test]
fn phrases_are_case_sensitive() {
    assert_eq!(reply(400, "invalid api token"), Err(Error::Other("invalid api token".to_string())));
}

#[test]
fn missing_token_whatever_the_body() {
    assert_eq!(reply(401, "anything"), Err(Error::MissingApiToken));
    assert_eq!(classify_response(401, None), Err(Error::MissingApiToken));
}

#[test]
fn forbidden_phrases() {
    assert_eq!(reply(403, "Domain DKIM pending"), Err(Error::DomainDkimVerificationNotCompleted));
    assert_eq!(reply(403, "does not have an active plan"), Err(Error::InactivePlanForDomain));
    assert_eq!(reply(403, "unable to send email"), Err(Error::OrganizationDisabled));
    assert_eq!(reply(403, "Verified domain mismatch"), Err(Error::FromAddressNotEqualToRegisteredDomain));
    assert_eq!(reply(403, "nope"), Err(Error::Other("nope".to_string())));
    assert_eq!(classify_response(403, None), Err(Error::Other("403".to_string())));
}

#[test]
fn fixed_statuses() {
    assert_eq!(reply(406, "x"), Err(Error::InvalidRequestFormat));
    assert_eq!(reply(429, "x"), Err(Error::RateLimit));
    assert_eq!(reply(500, "x"), Err(Error::NoContent));
}

#[test]
fn other_statuses() {
    assert_eq!(reply(502, "bad gateway"), Err(Error::Other("bad gateway".to_string())));
    assert_eq!(classify_response(7, None), Err(Error::Other("7".to_string())));
    assert_eq!(classify_response(65535, None), Err(Error::Other("65535".to_string())));
}

#[test]
fn transport_failure_is_network_error() {
    assert_eq!(outcome(Err("dns".to_string())), Err(Error::NetworkError("dns".to_string())));
    assert_eq!(outcome(Ok((429, None))), Err(Error::RateLimit));
}

#[test]
fn address_check() {
    let bad = Email::new("from@email.address", "test@-iana.org", "Body text");
    assert_eq!(request_body(&bad, true), Err(Error::InvalidEmail));
    assert_eq!(request_body(&bad, false).unwrap(), bad.to_string());
    let good = Email::new("from@email.address", "to@email.org", "Body text");
    assert_eq!(request_body(&good, true).unwrap(), good.to_string());
    assert_eq!(body_for(&good, false), Err(Error::InvalidEmail));
    assert_eq!(body_for(&good, true).unwrap(), good.to_string());
}
