//! What can go wrong, both in the library's own steps and in the calls
//! made on its behalf.

use vstd::prelude::*;
use vstd::string::*;
use url::ParseError;
use crate::text::decimal;
use crate::text::push_decimal;

verus! {

#[verifier::external_type_specification]
#[verifier::external_body]
pub struct ExParseError(ParseError);

/// Why a receive on the snapshot channel gave no snapshot.
#[derive(Debug, Clone, Copy, PartialEq, Eq, Structural)]
pub enum RecvError {
    /// Every publisher is gone: nothing will arrive any more.
    Closed,
    /// The subscriber fell behind and this many snapshots were dropped
    /// for it. The next receive continues with the oldest one still held.
    Lagged(u64),
}

/// A failure of one step. The variants that an I/O layer reports carry its
/// message as text.
#[derive(Debug, PartialEq)]
pub enum Error {
    FromUtf8Error(String),
    InvalidHeaderValue(String),
    JoinError(String),
    ParseError(ParseError),
    RecvError(RecvError),
    Reqwest(String),
    SerdeJSON(String),
    SystemTimeError(String),
    TimeoutError(String),
    TokioIO(String),
    Unknown(String),
    /// The system gave no entropy to seed a random generator with.
    Entropy(String),
}

/// The description that a URL's parse error gives of itself.
pub uninterp spec fn parse_error_text(e: ParseError) -> Seq<char>;

/// Calls `ToString::to_string` on a `ParseError`, which writes the error's
/// description. Trusted: that the text depends on the error alone, which
/// `parse_error_text` names.
#[verifier::external_body]
fn describe(e: &ParseError) -> (text: String)
    ensures
        text@ == parse_error_text(*e),
{
    e.to_string()
}

impl RecvError {
    /// The failure in words.
    pub open spec fn text(self) -> Seq<char> {
        match self {
            RecvError::Closed => "channel closed"@,
            RecvError::Lagged(missed) => "channel lagged by "@ + decimal(missed as nat),
        }
    }

    /// The failure in words.
    pub fn message(&self) -> (s: String)
        ensures
            s@ == self.text(),
    {
        match self {
            RecvError::Closed => "channel closed".to_owned(),
            RecvError::Lagged(missed) => {
                let mut s = "channel lagged by ".to_owned();
                let n: u128 = *missed as u128;
                push_decimal(&mut s, n);
                s
            },
        }
    }
}

impl Error {
    /// The name of the failure's kind, as it opens the message.
    pub open spec fn label(self) -> Seq<char> {
        match self {
            Error::FromUtf8Error(_) => "from_utf8="@,
            Error::InvalidHeaderValue(_) => "invald_header_value="@,
            Error::JoinError(_) => "tokio_ join="@,
            Error::ParseError(_) => "url_parse="@,
            Error::RecvError(_) => "broadcast_recv="@,
            Error::Reqwest(_) => "reqwest="@,
            Error::SerdeJSON(_) => "serde_json="@,
            Error::SystemTimeError(_) => "system_time="@,
            Error::TimeoutError(_) => "timeout="@,
            Error::TokioIO(_) => "tokio_io="@,
            Error::Unknown(_) => "unknown="@,
            Error::Entropy(_) => "entropy="@,
        }
    }

    /// What the failure says of itself.
    pub open spec fn detail(self) -> Seq<char> {
        match self {
            Error::FromUtf8Error(text) => text@,
            Error::InvalidHeaderValue(text) => text@,
            Error::JoinError(text) => text@,
            Error::ParseError(e) => parse_error_text(e),
            Error::RecvError(failure) => failure.text(),
            Error::Reqwest(text) => text@,
            Error::SerdeJSON(text) => text@,
            Error::SystemTimeError(text) => text@,
            Error::TimeoutError(text) => text@,
            Error::TokioIO(text) => text@,
            Error::Unknown(text) => text@,
            Error::Entropy(text) => text@,
        }
    }

    /// The failure as one line: the label of its kind, then what it says of
    /// itself.
    pub fn message(&self) -> (s: String)
        ensures
            s@ == self.label() + self.detail(),
    {
        match self {
            Error::FromUtf8Error(text) => labelled("from_utf8=", text.as_str()),
            Error::InvalidHeaderValue(text) => labelled("invald_header_value=", text.as_str()),
            Error::JoinError(text) => labelled("tokio_ join=", text.as_str()),
            Error::ParseError(e) => {
                let detail = describe(e);
                labelled("url_parse=", detail.as_str())
            },
            Error::RecvError(failure) => {
                let detail = failure.message();
                labelled("broadcast_recv=", detail.as_str())
            },
            Error::Reqwest(text) => labelled("reqwest=", text.as_str()),
            Error::SerdeJSON(text) => labelled("serde_json=", text.as_str()),
            Error::SystemTimeError(text) => labelled("system_time=", text.as_str()),
            Error::TimeoutError(text) => labelled("timeout=", text.as_str()),
            Error::TokioIO(text) => labelled("tokio_io=", text.as_str()),
            Error::Unknown(text) => labelled("unknown=", text.as_str()),
            Error::Entropy(text) => labelled("entropy=", text.as_str()),
        }
    }
}

fn labelled(label: &str, detail: &str) -> (s: String)
    ensures
        s@ == label@ + detail@,
{
    let mut s = label.to_owned();
    s.append(detail);
    s
}

} // verus!
