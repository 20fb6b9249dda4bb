use vstd::prelude::*;

verus! {

/// `url::ParseError`, the reason `url::Url::parse` gives for rejecting a string.
/// Nothing is known of a value of it here; it is carried to whoever reports it.
#[verifier::external_type_specification]
#[verifier::external_body]
pub struct ExUrlParseError(url::ParseError);

/// Everything that can go wrong inside the harvester.
#[derive(Debug)]
pub enum SystemError {
    /// A failure with no more specific kind.
    Generic(String),
    /// A spawned task did not run to completion; the text says why.
    Join(String),
    /// The record store reported a failure; the text is the store's message.
    Sqlx(String),
    /// A response arrived but its body could not be read.
    Reqwest(String),
    /// A request could not be duplicated for a further attempt.
    RetryError,
    /// Every attempt to send a request failed; the text is the last failure.
    RequestError(String),
    /// A selector was rejected by the selector parser.
    Selector(String),
    /// A link was rejected by the URL parser.
    UrlParse(url::ParseError),
    /// A link is a URL, but names no host to fetch it from.
    MissingHost,
}

/// The fixed text that opens the message of each kind of error.
pub open spec fn message_prefix(error: SystemError) -> Seq<char> {
    match error {
        SystemError::Generic(_) => "GenericError: "@,
        SystemError::Join(_) => "JoinError: "@,
        SystemError::Sqlx(_) => "SqlxError: "@,
        SystemError::Reqwest(_) => "ReqwestError: "@,
        SystemError::RetryError => "ReqwestError"@,
        SystemError::RequestError(_) => "RequestError; "@,
        SystemError::Selector(_) => "SelectorError: "@,
        SystemError::UrlParse(_) => "UrlParseError: "@,
        SystemError::MissingHost => "UrlParseError: "@,
    }
}

/// The detail carried by an error, where it is a text of this library.
pub open spec fn message_detail(error: SystemError) -> Option<Seq<char>> {
    match error {
        SystemError::Generic(text) => Some(text@),
        SystemError::Join(text) => Some(text@),
        SystemError::Sqlx(text) => Some(text@),
        SystemError::Reqwest(text) => Some(text@),
        SystemError::RetryError => Some(""@),
        SystemError::RequestError(text) => Some(text@),
        SystemError::Selector(text) => Some(text@),
        SystemError::UrlParse(_) => None,
        SystemError::MissingHost => Some("missing host"@),
    }
}

/// `<url::ParseError as ToString>::to_string`: the description the URL parser
/// attaches to the rejection. The contract promises nothing about the text.
#[verifier::external_body]
fn url_error_text(error: &url::ParseError) -> (text: String) {
    error.to_string()
}

fn prefixed(prefix: &str, detail: &str) -> (text: String)
    ensures
        text@ == prefix@ + detail@,
{
    let mut text = String::from_str(prefix);
    text.append(detail);
    text
}

impl SystemError {
    /// The line shown to an operator: the prefix of the error's kind followed
    /// by its detail. For a rejected URL the detail is the parser's own
    /// description, so only the prefix is fixed.
    pub fn message(&self) -> (text: String)
        ensures
            message_detail(*self) matches Some(detail) ==> text@ == message_prefix(*self) + detail,
            message_detail(*self) is None ==> message_prefix(*self).is_prefix_of(text@),
    {
        match self {
            SystemError::Generic(detail) => prefixed("GenericError: ", detail.as_str()),
            SystemError::Join(detail) => prefixed("JoinError: ", detail.as_str()),
            SystemError::Sqlx(detail) => prefixed("SqlxError: ", detail.as_str()),
            SystemError::Reqwest(detail) => prefixed("ReqwestError: ", detail.as_str()),
            SystemError::RetryError => prefixed("ReqwestError", ""),
            SystemError::RequestError(detail) => prefixed("RequestError; ", detail.as_str()),
            SystemError::Selector(detail) => prefixed("SelectorError: ", detail.as_str()),
            SystemError::UrlParse(error) => {
                let detail = url_error_text(error);
                prefixed("UrlParseError: ", detail.as_str())
            },
            SystemError::MissingHost => prefixed("UrlParseError: ", "missing host"),
        }
    }
}

} // verus!
