//! The error taxonomy: transport failures, JSON-decode failures with the
//! exact field path at which decoding failed, and URL-construction failures.

use vstd::prelude::*;

use crate::text::push_str;

verus! {

/// Every failure the client reports, as a structured value.
#[derive(Debug)]
pub enum Error {
    /// Transport-level failure; keeps the status code when the transport saw
    /// one.
    Http { status: Option<u16>, message: String },
    /// The response body did not decode into the requested type; `path` is
    /// the dotted/bracketed location inside the JSON document at which
    /// decoding first failed.
    Json { path: String, message: String },
    /// The base URL and the route could not be joined into a valid URL.
    Url { message: String },
}

/// Mathematical model of an error.
pub enum ErrorModel {
    Http { status: Option<u16>, message: Seq<char> },
    Json { path: Seq<char>, message: Seq<char> },
    Url { message: Seq<char> },
}

impl View for Error {
    type V = ErrorModel;

    open spec fn view(&self) -> ErrorModel {
        match self {
            Error::Http { status, message } => ErrorModel::Http {
                status: *status,
                message: message@,
            },
            Error::Json { path, message } => ErrorModel::Json {
                path: path@,
                message: message@,
            },
            Error::Url { message } => ErrorModel::Url { message: message@ },
        }
    }
}

/// The one-line diagnostic for an error.
pub open spec fn spec_describe(e: ErrorModel) -> Seq<char> {
    match e {
        ErrorModel::Http { message, .. } => "HTTP Error: "@ + message,
        ErrorModel::Json { path, message } => "JSON Error in "@ + path + ": "@ + message,
        ErrorModel::Url { message } => "Url parse error: "@ + message,
    }
}

impl Error {
    /// A human-readable diagnostic that names the kind of failure and, for a
    /// decode failure, the path inside the document.
    pub fn describe(&self) -> (s: String)
        ensures
            s@ == spec_describe(self@),
    {
        match self {
            Error::Http { message, .. } => {
                let mut s = String::new();
                push_str(&mut s, "HTTP Error: ");
                push_str(&mut s, message.as_str());
                proof {
                    assert(s@ =~= spec_describe(self@));
                }
                s
            },
            Error::Json { path, message } => {
                let mut s = String::new();
                push_str(&mut s, "JSON Error in ");
                push_str(&mut s, path.as_str());
                push_str(&mut s, ": ");
                push_str(&mut s, message.as_str());
                proof {
                    assert(s@ =~= spec_describe(self@));
                }
                s
            },
            Error::Url { message } => {
                let mut s = String::new();
                push_str(&mut s, "Url parse error: ");
                push_str(&mut s, message.as_str());
                proof {
                    assert(s@ =~= spec_describe(self@));
                }
                s
            },
        }
    }
}

} // verus!
