//! Request descriptors, transport outcomes and their mathematical models.
//!
//! A [`Request`] is one not-yet-sent request; an [`Outcome`] is what the
//! transport reports for one attempt at sending it.  The execution engine in
//! the crate root works over these types and never touches the network
//! itself.

use vstd::prelude::*;

use crate::error::Error;
use crate::error::ErrorModel;

verus! {

/// HTTP method of a request descriptor.
#[derive(Clone, Copy, Debug, PartialEq, Eq, Structural)]
pub enum Method {
    Get,
    Post,
}

/// One not-yet-sent request: method, absolute URL, query parameters (ordered
/// key/value pairs), extra headers and an optional JSON body.
pub struct Request {
    pub method: Method,
    pub url: String,
    pub query: Vec<(String, String)>,
    pub headers: Vec<(String, String)>,
    pub body: Option<String>,
}

/// Mathematical model of a request descriptor.
pub struct ReqModel {
    pub method: Method,
    pub url: Seq<char>,
    pub query: Seq<(Seq<char>, Seq<char>)>,
    pub headers: Seq<(Seq<char>, Seq<char>)>,
    pub body: Option<Seq<char>>,
}

/// The model of a sequence of string pairs: each pair replaced by its views.
pub open spec fn pairs_model(q: Seq<(String, String)>) -> Seq<(Seq<char>, Seq<char>)> {
    q.map_values(|p: (String, String)| (p.0@, p.1@))
}

/// The model of an optional string.
pub open spec fn opt_model(o: Option<String>) -> Option<Seq<char>> {
    match o {
        Some(s) => Some(s@),
        None => None,
    }
}

impl View for Request {
    type V = ReqModel;

    open spec fn view(&self) -> ReqModel {
        ReqModel {
            method: self.method,
            url: self.url@,
            query: pairs_model(self.query@),
            headers: pairs_model(self.headers@),
            body: opt_model(self.body),
        }
    }
}

impl Request {
    /// A copy of this descriptor with the same model; the original is kept
    /// untouched so it can serve as the pre-auth snapshot for every attempt.
    pub fn duplicate(&self) -> (r: Request)
        ensures
            r@ == self@,
    {
        let r = Request {
            method: self.method,
            url: self.url.clone(),
            query: clone_pairs(&self.query),
            headers: clone_pairs(&self.headers),
            body: match &self.body {
                Some(b) => Some(b.clone()),
                None => None,
            },
        };
        proof {
            assert(r@.query =~= self@.query);
            assert(r@.headers =~= self@.headers);
        }
        r
    }
}

/// A copy of a list of string pairs, pair for pair.
pub fn clone_pairs(v: &Vec<(String, String)>) -> (r: Vec<(String, String)>)
    ensures
        r@ == v@,
{
    let mut r: Vec<(String, String)> = Vec::new();
    let mut i: usize = 0;
    while i < v.len()
        invariant
            i <= v.len(),
            r@ == v@.subrange(0, i as int),
        decreases v.len() - i,
    {
        let p = &v[i];
        r.push((p.0.clone(), p.1.clone()));
        proof {
            assert(r@ =~= v@.subrange(0, i + 1));
        }
        i = i + 1;
    }
    proof {
        assert(v@.subrange(0, v@.len() as int) =~= v@);
    }
    r
}

/// A completed HTTP response: status code and body text.
pub struct Response {
    pub status: u16,
    pub body: String,
}

/// Mathematical model of a response.
pub struct RespModel {
    pub status: u16,
    pub body: Seq<char>,
}

impl View for Response {
    type V = RespModel;

    open spec fn view(&self) -> RespModel {
        RespModel { status: self.status, body: self.body@ }
    }
}

/// What the transport reports for one attempt: a completed response (of any
/// status), or a transport-level failure, which may still expose a status
/// code (for instance when the transport itself treats a non-success status
/// as an error).
pub enum Outcome {
    Success(Response),
    Failure { status: Option<u16>, message: String },
}

/// Mathematical model of an outcome.
pub enum OutcomeModel {
    Success(RespModel),
    Failure { status: Option<u16>, message: Seq<char> },
}

impl View for Outcome {
    type V = OutcomeModel;

    open spec fn view(&self) -> OutcomeModel {
        match self {
            Outcome::Success(r) => OutcomeModel::Success(r@),
            Outcome::Failure { status, message } => OutcomeModel::Failure {
                status: *status,
                message: message@,
            },
        }
    }
}

/// The status code an outcome carries, if any.
pub open spec fn spec_status(o: OutcomeModel) -> Option<u16> {
    match o {
        OutcomeModel::Success(r) => Some(r.status),
        OutcomeModel::Failure { status, .. } => status,
    }
}

impl Outcome {
    /// The status code of this outcome: the response's status if the attempt
    /// completed, else whatever status the failure exposes.
    pub fn status(&self) -> (st: Option<u16>)
        ensures
            st == spec_status(self@),
    {
        match self {
            Outcome::Success(r) => Some(r.status),
            Outcome::Failure { status, .. } => *status,
        }
    }
}

/// The caller's result for a terminal outcome: a completed response is handed
/// back as-is, a transport failure becomes [`Error::Http`] with the same
/// status and message.
pub open spec fn spec_finish(o: OutcomeModel) -> Result<RespModel, ErrorModel> {
    match o {
        OutcomeModel::Success(r) => Ok(r),
        OutcomeModel::Failure { status, message } => Err(
            ErrorModel::Http { status, message },
        ),
    }
}

/// The model of a `Result` over a response and an error.
pub open spec fn result_model(r: Result<Response, Error>) -> Result<RespModel, ErrorModel> {
    match r {
        Ok(resp) => Ok(resp@),
        Err(e) => Err(e@),
    }
}

/// Turn a terminal outcome into the caller's result.
pub fn finish(outcome: &Outcome) -> (r: Result<Response, Error>)
    ensures
        result_model(r) == spec_finish(outcome@),
{
    match outcome {
        Outcome::Success(resp) => Ok(Response { status: resp.status, body: resp.body.clone() }),
        Outcome::Failure { status, message } => Err(Error::Http {
            status: *status,
            message: message.clone(),
        }),
    }
}

} // verus!
