//! Client library for the OhMySMTP transactional e-mail service: a message
//! model, its JSON wire form, attachment encoding and the classification of
//! the service's replies.
pub mod encoding;
pub mod json;
pub mod message;
pub mod outcome;
pub mod request;
pub mod text;

pub use message::{Email, File, FileType};
pub use outcome::{classify_response, outcome, Error};
pub use request::{body_for, request_body};
