//! The failures that the client reports.

use vstd::prelude::*;
use vstd::std_specs::convert::FromSpecImpl;
use crate::text::{decimal, decimal_text};

verus! {

/// Why no access token could be obtained.
#[derive(Clone, Copy, Debug, PartialEq, Eq, Structural)]
pub enum AuthError {
    /// The token endpoint answered with a status outside the success class.
    RequestFailed { status: u16 },
    /// The token endpoint answered with a body that is no token.
    Deserialize,
    /// The token endpoint could not be reached.
    HttpRequestFailed,
}

/// Why an operation on the API failed.
#[allow(inconsistent_fields)]
#[derive(Clone, Debug, PartialEq, Eq)]
pub enum DomoErr {
    /// The token endpoint answered with a status outside the success class.
    AuthRequestFailed { status: u16 },
    /// The token endpoint answered with a body that is no token.
    AuthDeserializeFailed,
    /// An upload was started before any data was given to it.
    NoDataToUpload,
    /// The request could not be carried to the server or its answer not read.
    HttpRequestFailed,
    /// A resource endpoint answered with a status outside the success class:
    /// the reason phrase of that status and the text of the response body.
    ApiRequestFailed { status: String, body: String },
}

/// A `DomoErr` with its texts as sequences of characters.
#[allow(inconsistent_fields)]
pub enum DomoErrView {
    AuthRequestFailed { status: u16 },
    AuthDeserializeFailed,
    NoDataToUpload,
    HttpRequestFailed,
    ApiRequestFailed { status: Seq<char>, body: Seq<char> },
}

impl View for DomoErr {
    type V = DomoErrView;

    open spec fn view(&self) -> DomoErrView {
        match self {
            DomoErr::AuthRequestFailed { status } => DomoErrView::AuthRequestFailed {
                status: *status,
            },
            DomoErr::AuthDeserializeFailed => DomoErrView::AuthDeserializeFailed,
            DomoErr::NoDataToUpload => DomoErrView::NoDataToUpload,
            DomoErr::HttpRequestFailed => DomoErrView::HttpRequestFailed,
            DomoErr::ApiRequestFailed { status, body } => DomoErrView::ApiRequestFailed {
                status: status@,
                body: body@,
            },
        }
    }
}

/// The failure of an operation that an authentication failure amounts to.
pub open spec fn auth_failure(e: AuthError) -> DomoErrView {
    match e {
        AuthError::RequestFailed { status } => DomoErrView::AuthRequestFailed { status },
        AuthError::Deserialize => DomoErrView::AuthDeserializeFailed,
        AuthError::HttpRequestFailed => DomoErrView::HttpRequestFailed,
    }
}

impl DomoErrView {
    /// The text that describes the failure to a reader.
    pub open spec fn message(self) -> Seq<char> {
        match self {
            DomoErrView::AuthRequestFailed { status } => "Error getting Domo Token: "@
                + decimal_text(status as nat),
            DomoErrView::AuthDeserializeFailed => "Malformed Domo Token"@,
            DomoErrView::NoDataToUpload => "No Data was set to upload"@,
            DomoErrView::HttpRequestFailed => "HTTP request failed"@,
            DomoErrView::ApiRequestFailed { status, body } => status + ": "@ + body,
        }
    }
}

impl From<AuthError> for DomoErr {
    fn from(e: AuthError) -> (err: DomoErr) {
        match e {
            AuthError::RequestFailed { status } => DomoErr::AuthRequestFailed { status },
            AuthError::Deserialize => DomoErr::AuthDeserializeFailed,
            AuthError::HttpRequestFailed => DomoErr::HttpRequestFailed,
        }
    }
}

impl FromSpecImpl<AuthError> for DomoErr {
    open spec fn obeys_from_spec() -> bool {
        true
    }

    open spec fn from_spec(e: AuthError) -> DomoErr {
        match e {
            AuthError::RequestFailed { status } => DomoErr::AuthRequestFailed { status },
            AuthError::Deserialize => DomoErr::AuthDeserializeFailed,
            AuthError::HttpRequestFailed => DomoErr::HttpRequestFailed,
        }
    }
}

/// Converting an authentication failure keeps its kind and its status.
pub proof fn lemma_from_auth_error(e: AuthError)
    ensures
        <DomoErr as vstd::std_specs::convert::FromSpec<AuthError>>::from_spec(e)@ == auth_failure(e),
{
}

impl DomoErr {
    /// Describes the failure in one line of text.
    pub fn message(&self) -> (text: String)
        ensures
            text@ == self@.message(),
    {
        match self {
            DomoErr::AuthRequestFailed { status } => {
                let mut text = String::from_str("Error getting Domo Token: ");
                let number = decimal(*status as usize);
                text.append(number.as_str());
                text
            },
            DomoErr::AuthDeserializeFailed => String::from_str("Malformed Domo Token"),
            DomoErr::NoDataToUpload => String::from_str("No Data was set to upload"),
            DomoErr::HttpRequestFailed => String::from_str("HTTP request failed"),
            DomoErr::ApiRequestFailed { status, body } => {
                let mut text = status.clone();
                text.append(": ");
                text.append(body.as_str());
                text
            },
        }
    }
}

} // verus!
