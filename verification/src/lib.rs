//! A typed client for the Printavo order-management REST API.
//!
//! The crate's core is the request-execution engine: it attaches
//! authentication credentials to outgoing requests, detects authentication
//! failure (HTTP status 401) and retries under a bounded budget, decodes
//! response bodies into typed results with path-qualified errors, and exposes
//! a uniform pagination envelope over list-style endpoints.
//!
//! The engine itself never performs network I/O: it produces the request to
//! send for each attempt and classifies the outcome the transport reports.
//! A thin asynchronous shell around the crate drives the actual HTTP calls.

use vstd::prelude::*;

pub mod auth;
pub mod error;
pub mod from_response;
pub mod json;
pub mod orders;
pub mod page;
pub mod params;
pub mod request;
mod text;
mod urls;

use crate::auth::Auth;
use crate::auth::expose_secret;
use crate::error::Error;
use crate::request::Method;
use crate::request::Outcome;
use crate::request::ReqModel;
use crate::request::pairs_model;
use crate::request::Request;
use crate::request::Response;
use crate::request::clone_pairs;
use crate::request::result_model;
use crate::request::spec_finish;
use crate::request::spec_status;
use crate::urls::default_base_url;
use crate::urls::join_url;
use crate::urls::parse_url;
use crate::urls::url_string;
use crate::urls::url_chars;
use crate::urls::url_join;
use crate::urls::url_parse;

verus! {

/// Number of extra attempts `execute` may make after an authentication
/// failure, process-wide.
pub const MAX_RETRIES: u32 = 3;

/// Printavo API version to use.
#[derive(Clone, Copy, Debug, PartialEq, Eq, Structural)]
pub enum Version {
    V1,
}

impl Version {
    /// The path segment that names this version in a route.
    pub open spec fn spec_path_segment(self) -> Seq<char> {
        match self {
            Version::V1 => "v1"@,
        }
    }

    /// The path segment that names this version in a route, e.g. `"v1"`.
    pub fn path_segment(&self) -> (s: &'static str)
        ensures
            s@ == self.spec_path_segment(),
    {
        match self {
            Version::V1 => "v1",
        }
    }
}

impl Default for Version {
    fn default() -> (v: Self)
        ensures
            v == Version::V1,
    {
        Version::V1
    }
}

/// The credential resolved at build time: either nothing, or Printavo's
/// long-lived token credentials, attached to every request as the query
/// parameters `email` and `token`.
pub enum AuthState {
    /// No credential: requests go out unchanged.
    Anonymous,
    /// Token auth via Printavo's long-lived tokens.
    TokenAuth { email: String, token: String },
}

/// Mathematical model of a credential.
pub enum AuthModel {
    Anonymous,
    TokenAuth { email: Seq<char>, token: Seq<char> },
}

impl View for AuthState {
    type V = AuthModel;

    open spec fn view(&self) -> AuthModel {
        match self {
            AuthState::Anonymous => AuthModel::Anonymous,
            AuthState::TokenAuth { email, token } => AuthModel::TokenAuth {
                email: email@,
                token: token@,
            },
        }
    }
}

/// The request actually sent for one attempt: the base descriptor unchanged
/// when no credential is held, else the base descriptor with exactly the two
/// credential parameters appended.  Attachment always starts from the base
/// descriptor, so retries never accumulate duplicate parameters.
pub open spec fn spec_authed(auth: AuthModel, r: ReqModel) -> ReqModel {
    match auth {
        AuthModel::Anonymous => r,
        AuthModel::TokenAuth { email, token } => ReqModel {
            query: r.query.push(("email"@, email)).push(("token"@, token)),
            ..r
        },
    }
}

/// Whether an attempt's outcome triggers a retry: only an exact 401 status,
/// only when a credential was attached, and only while the retry budget
/// lasts.
pub open spec fn spec_retry(auth: AuthModel, status: Option<u16>, retries: u32) -> bool {
    &&& status == Some(401u16)
    &&& auth is TokenAuth
    &&& retries < MAX_RETRIES
}

/// How many attempts `execute` makes when the transport reports the statuses
/// in `sts`, one per attempt, starting with `retries` retries already spent.
/// (On an exhausted status supply the count keeps demanding one more
/// attempt, so a caller obeying `execute`'s precondition always supplies
/// enough outcomes.)
pub open spec fn spec_attempts(auth: AuthModel, sts: Seq<Option<u16>>, retries: u32) -> nat
    decreases sts.len(),
{
    if sts.len() == 0 {
        1
    } else if spec_retry(auth, sts[0], retries) {
        1 + spec_attempts(auth, sts.skip(1), (retries + 1) as u32)
    } else {
        1
    }
}

/// The statuses of a sequence of outcomes.
pub open spec fn spec_statuses(os: Seq<Outcome>) -> Seq<Option<u16>> {
    os.map_values(|o: Outcome| spec_status(o@))
}

/// Law: however the transport answers, `execute` makes at most
/// `MAX_RETRIES + 1 - retries` attempts once `retries` retries are spent —
/// in particular at most `MAX_RETRIES + 1` in all.
pub proof fn lemma_retry_budget(auth: AuthModel, sts: Seq<Option<u16>>, retries: u32)
    requires
        retries <= MAX_RETRIES,
    ensures
        1 <= spec_attempts(auth, sts, retries) <= MAX_RETRIES + 1 - retries,
    decreases sts.len(),
{
    if sts.len() != 0 && spec_retry(auth, sts[0], retries) {
        lemma_retry_budget(auth, sts.skip(1), (retries + 1) as u32);
    }
}

/// Law: when the transport answers every attempt with a 401 and a credential
/// is attached, the whole retry budget is spent: exactly `MAX_RETRIES + 1`
/// attempts in all (counting from `retries` retries already spent).
pub proof fn lemma_persistent_unauthorized(auth: AuthModel, sts: Seq<Option<u16>>, retries: u32)
    requires
        auth is TokenAuth,
        retries <= MAX_RETRIES,
        sts.len() + retries > MAX_RETRIES,
        forall|j: int| 0 <= j < sts.len() ==> sts[j] == Some(401u16),
    ensures
        spec_attempts(auth, sts, retries) == MAX_RETRIES + 1 - retries,
    decreases sts.len(),
{
    if retries < MAX_RETRIES {
        lemma_persistent_unauthorized(auth, sts.skip(1), (retries + 1) as u32);
    }
}

/// Law: a 401 followed by any non-401 outcome costs exactly two attempts —
/// the retry short-circuits on the first outcome that is no authentication
/// failure.
pub proof fn lemma_retry_short_circuit(auth: AuthModel, sts: Seq<Option<u16>>)
    requires
        auth is TokenAuth,
        sts.len() >= 2,
        sts[0] == Some(401u16),
        sts[1] != Some(401u16),
    ensures
        spec_attempts(auth, sts, 0) == 2,
{
    assert(sts.skip(1)[0] == sts[1]);
    assert(sts.skip(1).len() == sts.len() - 1);
    assert(!spec_retry(auth, sts.skip(1)[0], 1u32));
    assert(spec_attempts(auth, sts.skip(1), 1u32) == 1);
}

/// Law: an outcome that is not a 401, or any outcome with no credential
/// attached, is terminal at once: exactly one attempt.
pub proof fn lemma_no_retry(auth: AuthModel, sts: Seq<Option<u16>>)
    requires
        sts.len() >= 1,
        sts[0] != Some(401u16) || auth is Anonymous,
    ensures
        spec_attempts(auth, sts, 0) == 1,
{
}

/// How many pairs in `q` carry the key `k`.
pub open spec fn count_key(q: Seq<(Seq<char>, Seq<char>)>, k: Seq<char>) -> nat
    decreases q.len(),
{
    if q.len() == 0 {
        0
    } else {
        count_key(q.drop_last(), k) + (if q.last().0 == k {
            1nat
        } else {
            0nat
        })
    }
}

/// Law: with no credential, attachment appends no `email` or `token`
/// parameter — the descriptor is returned unchanged; with token credentials,
/// attachment appends exactly one `email` and one `token` parameter, so a
/// descriptor that carried neither carries each exactly once afterwards.
pub proof fn lemma_credential_attachment(auth: AuthModel, r: ReqModel)
    ensures
        auth is Anonymous ==> spec_authed(auth, r) == r,
        auth is TokenAuth ==> count_key(spec_authed(auth, r).query, "email"@) == count_key(
            r.query,
            "email"@,
        ) + 1,
        auth is TokenAuth ==> count_key(spec_authed(auth, r).query, "token"@) == count_key(
            r.query,
            "token"@,
        ) + 1,
{
    match auth {
        AuthModel::Anonymous => {
        },
        AuthModel::TokenAuth { email, token } => {
            let q1 = r.query.push(("email"@, email));
            let q2 = q1.push(("token"@, token));
            reveal_strlit("email");
            reveal_strlit("token");
            assert("email"@[0] == 'e' && "token"@[0] == 't');
            assert("email"@ != "token"@);
            assert(q1.drop_last() =~= r.query);
            assert(q2.drop_last() =~= q1);
            assert(count_key(q1, "email"@) == count_key(r.query, "email"@) + 1);
            assert(count_key(q1, "token"@) == count_key(r.query, "token"@));
            assert(count_key(q2, "email"@) == count_key(q1, "email"@));
            assert(count_key(q2, "token"@) == count_key(q1, "token"@) + 1);
        },
    }
}

/// The record `execute` hands back: how many attempts were made, the request
/// sent on each attempt (in order), and the terminal outcome.
pub struct ExecReport {
    /// Total number of send attempts.
    pub attempts: usize,
    /// The request sent on each attempt, in order.
    pub sent: Vec<Request>,
    /// The terminal outcome: a completed response, or the error surfaced to
    /// the caller.
    pub result: Result<Response, Error>,
}

/// An immutable client for the Printavo API: resolved credential, base URL,
/// API version and the default headers every request carries.  Built once
/// via [`PrintavoBuilder`] and shared read-only by every request.
pub struct Printavo {
    pub auth_state: AuthState,
    pub base_url: url::Url,
    pub version: Version,
    pub default_headers: Vec<(String, String)>,
}

impl Printavo {
    /// A builder for a client.
    pub fn builder() -> (b: PrintavoBuilder)
        ensures
            b.auth is Anonymous,
            b.extra_headers@.len() == 0,
            b.base_url is None,
            b.version == Version::V1,
    {
        PrintavoBuilder::new()
    }

    /// Returns an absolute URL version of `url` using the `base_url`
    /// (default: `https://www.printavo.com`).
    pub fn absolute_url(&self, url: &str) -> (r: Result<url::Url, Error>)
        ensures
            r is Ok <==> url_join(url_chars(self.base_url), url@) is Some,
            r matches Ok(u) ==> url_chars(u) == url_join(url_chars(self.base_url), url@)->0,
            r matches Err(e) ==> e@ is Url,
    {
        match join_url(&self.base_url, url) {
            Ok(u) => Ok(u),
            Err(message) => Err(Error::Url { message }),
        }
    }

    /// Build the base GET descriptor for `route`: the route resolved against
    /// the base URL, with the given query parameters, no extra headers and
    /// no body.  A route that does not join onto the base URL is a
    /// URL-construction error, surfaced at once — no retry.  Credentials are
    /// attached per attempt, never here.
    pub fn prepare_get(&self, route: &str, query: Vec<(String, String)>) -> (r: Result<
        Request,
        Error,
    >)
        ensures
            r is Ok <==> url_join(url_chars(self.base_url), route@) is Some,
            r matches Ok(req) ==> {
                &&& req.method == Method::Get
                &&& req.url@ == url_join(url_chars(self.base_url), route@)->0
                &&& pairs_model(req.query@) == pairs_model(query@)
                &&& req.headers@.len() == 0
                &&& req.body is None
            },
            r matches Err(e) ==> e@ is Url,
    {
        let url = match self.absolute_url(route) {
            Ok(u) => u,
            Err(e) => return Err(e),
        };
        Ok(
            Request {
                method: Method::Get,
                url: url_string(&url),
                query,
                headers: Vec::new(),
                body: None,
            },
        )
    }

    /// Build the base POST descriptor for `route`: the route resolved
    /// against the base URL, with an optional JSON body text.  A route that
    /// does not join onto the base URL is a URL-construction error, surfaced
    /// at once — no retry.
    pub fn prepare_post(&self, route: &str, body: Option<String>) -> (r: Result<Request, Error>)
        ensures
            r is Ok <==> url_join(url_chars(self.base_url), route@) is Some,
            r matches Ok(req) ==> {
                &&& req.method == Method::Post
                &&& req.url@ == url_join(url_chars(self.base_url), route@)->0
                &&& req.query@.len() == 0
                &&& req.headers@.len() == 0
                &&& crate::request::opt_model(req.body) == crate::request::opt_model(body)
            },
            r matches Err(e) ==> e@ is Url,
    {
        let url = match self.absolute_url(route) {
            Ok(u) => u,
            Err(e) => return Err(e),
        };
        Ok(
            Request {
                method: Method::Post,
                url: url_string(&url),
                query: Vec::new(),
                headers: Vec::new(),
                body,
            },
        )
    }

    /// The request actually sent for one attempt: the base descriptor with
    /// this client's credential parameters appended.  The base descriptor is
    /// left untouched, so every retry re-attaches credentials fresh to the
    /// same snapshot.
    pub fn authed_request(&self, base: &Request) -> (r: Request)
        ensures
            r@ == spec_authed(self.auth_state@, base@),
    {
        match &self.auth_state {
            AuthState::Anonymous => base.duplicate(),
            AuthState::TokenAuth { email, token } => {
                let mut query = clone_pairs(&base.query);
                query.push((email_key(), email.clone()));
                query.push((token_key(), token.clone()));
                let r = Request {
                    method: base.method,
                    url: base.url.clone(),
                    query,
                    headers: clone_pairs(&base.headers),
                    body: match &base.body {
                        Some(b) => Some(b.clone()),
                        None => None,
                    },
                };
                proof {
                    assert(r@.query =~= spec_authed(self.auth_state@, base@).query);
                    assert(r@.headers =~= spec_authed(self.auth_state@, base@).headers);
                }
                r
            },
        }
    }

    /// Whether the outcome of an attempt triggers a retry with this client's
    /// credential, `retries` retries in.
    pub fn should_retry(&self, outcome: &Outcome, retries: u32) -> (b: bool)
        ensures
            b == spec_retry(self.auth_state@, spec_status(outcome@), retries),
    {
        let has_credential = match &self.auth_state {
            AuthState::Anonymous => false,
            AuthState::TokenAuth { .. } => true,
        };
        match outcome.status() {
            Some(code) => code == 401 && has_credential && retries < MAX_RETRIES,
            None => false,
        }
    }

    /// Run the bounded-retry loop against the outcomes the transport yields,
    /// one per attempt.  Every attempt sends the credential-attached base
    /// descriptor; a 401 with a credential attached is retried while the
    /// budget lasts; any other outcome is terminal: a completed response is
    /// returned as-is, a transport failure surfaces unchanged as
    /// [`Error::Http`].
    pub fn execute(&self, base: &Request, outcomes: &Vec<Outcome>) -> (r: ExecReport)
        requires
            outcomes@.len() >= spec_attempts(self.auth_state@, spec_statuses(outcomes@), 0),
        ensures
            r.attempts == spec_attempts(self.auth_state@, spec_statuses(outcomes@), 0),
            1 <= r.attempts <= MAX_RETRIES + 1,
            r.sent@.len() == r.attempts,
            forall|j: int|
                0 <= j < r.attempts ==> r.sent@[j]@ == spec_authed(self.auth_state@, base@),
            result_model(r.result) == spec_finish(outcomes@[r.attempts - 1]@),
            forall|j: int|
                0 <= j < r.attempts - 1 ==> spec_status(outcomes@[j]@) == Some(401u16),
            r.attempts > 1 ==> self.auth_state@ is TokenAuth,
    {
        let ghost auth = self.auth_state@;
        let ghost sts = spec_statuses(outcomes@);
        proof {
            assert(sts.skip(0) =~= sts);
        }
        let mut i: usize = 0;
        let mut sent: Vec<Request> = Vec::new();
        loop
            invariant
                auth == self.auth_state@,
                sts == spec_statuses(outcomes@),
                sts.len() == outcomes@.len(),
                outcomes@.len() >= spec_attempts(auth, sts, 0),
                i <= MAX_RETRIES,
                sent@.len() == i,
                forall|j: int| 0 <= j < i ==> sent@[j]@ == spec_authed(auth, base@),
                forall|j: int| 0 <= j < i ==> sts[j] == Some(401u16),
                i > 0 ==> auth is TokenAuth,
                spec_attempts(auth, sts, 0) == i + spec_attempts(auth, sts.skip(i as int), i as u32),
            decreases MAX_RETRIES - i,
        {
            proof {
                assert(spec_attempts(auth, sts.skip(i as int), i as u32) >= 1);
                assert(i < outcomes@.len());
            }
            let attempt = self.authed_request(base);
            sent.push(attempt);
            let outcome = &outcomes[i];
            proof {
                assert(sts.skip(i as int)[0] == sts[i as int]);
                assert(sts[i as int] == spec_status(outcome@));
            }
            if self.should_retry(outcome, i as u32) {
                proof {
                    assert(sts.skip(i as int).skip(1) =~= sts.skip(i as int + 1));
                    assert(spec_attempts(auth, sts.skip(i as int), i as u32) == 1
                        + spec_attempts(auth, sts.skip(i as int + 1), (i + 1) as u32));
                }
                i = i + 1;
            } else {
                let result = crate::request::finish(outcome);
                proof {
                    assert(spec_attempts(auth, sts.skip(i as int), i as u32) == 1);
                    assert forall|j: int| 0 <= j < i implies spec_status(outcomes@[j]@) == Some(
                        401u16,
                    ) by {
                        assert(sts[j] == spec_status(outcomes@[j]@));
                    }
                }
                return ExecReport { attempts: i + 1, sent, result };
            }
        }
    }

    /// The handler for the orders API.
    pub fn orders(&self) -> (h: orders::OrdersHandler<'_>)
        ensures
            h.printavo == self,
    {
        orders::OrdersHandler::new(self)
    }
}

impl Default for Printavo {
    /// A client with no credential, the default base URL and version `V1`.
    fn default() -> (p: Self)
        ensures
            p.auth_state@ is Anonymous,
            url_chars(p.base_url) == url_parse("https://www.printavo.com"@)->0,
            p.version == Version::V1,
            p.default_headers@.len() == 0,
    {
        Printavo {
            auth_state: AuthState::Anonymous,
            base_url: default_base_url(),
            version: Version::V1,
            default_headers: Vec::new(),
        }
    }
}

fn email_key() -> (s: String)
    ensures
        s@ == "email"@,
{
    "email".to_owned()
}

fn token_key() -> (s: String)
    ensures
        s@ == "token"@,
{
    "token".to_owned()
}

/// Builds an immutable [`Printavo`] client from a credential configuration,
/// an optional base URL override, extra default headers and an API version.
pub struct PrintavoBuilder {
    pub auth: Auth,
    pub extra_headers: Vec<(String, String)>,
    pub base_url: Option<url::Url>,
    pub version: Version,
}

impl PrintavoBuilder {
    /// A builder with no credential, no extra headers, the default base URL
    /// and the default version.
    pub fn new() -> (b: Self)
        ensures
            b.auth is Anonymous,
            b.extra_headers@.len() == 0,
            b.base_url is None,
            b.version == Version::V1,
    {
        PrintavoBuilder {
            auth: Auth::Anonymous,
            extra_headers: Vec::new(),
            base_url: None,
            version: Version::V1,
        }
    }

    /// Authenticate with Printavo's long-lived tokens.
    pub fn token_auth(self, email: String, token: String) -> (b: Self)
        ensures
            b.auth matches Auth::Token { email: e, token: t } && e@ == email@
                && crate::auth::secret_chars(t) == token@,
            b.extra_headers == self.extra_headers,
            b.base_url == self.base_url,
            b.version == self.version,
    {
        PrintavoBuilder {
            auth: Auth::Token { email, token: crate::auth::new_secret(token) },
            ..self
        }
    }

    /// Set the base URL for [`Printavo`]; fails when `base_url` is not a
    /// valid URL.
    pub fn base_url(self, base_url: &str) -> (r: Result<Self, Error>)
        ensures
            r is Ok <==> url_parse(base_url@) is Some,
            r matches Ok(b) ==> {
                &&& b.base_url matches Some(u) && url_chars(u) == url_parse(base_url@)->0
                &&& b.auth == self.auth
                &&& b.extra_headers == self.extra_headers
                &&& b.version == self.version
            },
            r matches Err(e) ==> e@ is Url,
    {
        match parse_url(base_url) {
            Ok(u) => Ok(PrintavoBuilder { base_url: Some(u), ..self }),
            Err(message) => Err(Error::Url { message }),
        }
    }

    /// Add an additional header to include with every request.
    pub fn add_header(self, key: String, value: String) -> (b: Self)
        ensures
            b.extra_headers@ == self.extra_headers@.push((key, value)),
            b.auth == self.auth,
            b.base_url == self.base_url,
            b.version == self.version,
    {
        let mut headers = self.extra_headers;
        headers.push((key, value));
        PrintavoBuilder {
            auth: self.auth,
            extra_headers: headers,
            base_url: self.base_url,
            version: self.version,
        }
    }

    /// Select the API version.
    pub fn version(self, version: Version) -> (b: Self)
        ensures
            b.version == version,
            b.auth == self.auth,
            b.extra_headers == self.extra_headers,
            b.base_url == self.base_url,
    {
        PrintavoBuilder { version, ..self }
    }

    /// Resolve the configuration into an immutable client: the credential's
    /// secret is read out once, the base URL falls back to the default when
    /// none was given, and the extra headers become the client's default
    /// headers.
    pub fn build(self) -> (r: Result<Printavo, Error>)
        ensures
            r is Ok,
            r matches Ok(p) ==> {
                &&& match self.auth {
                    Auth::Anonymous => p.auth_state@ is Anonymous,
                    Auth::Token { email, token } => p.auth_state@ matches
                        AuthModel::TokenAuth { email: e, token: t } && e == email@ && t
                        == crate::auth::secret_chars(token),
                }
                &&& match self.base_url {
                    Some(u) => url_chars(p.base_url) == url_chars(u),
                    None => url_chars(p.base_url) == url_parse("https://www.printavo.com"@)->0,
                }
                &&& p.version == self.version
                &&& p.default_headers@ == self.extra_headers@
            },
    {
        let auth_state = match self.auth {
            Auth::Anonymous => AuthState::Anonymous,
            Auth::Token { email, token } => AuthState::TokenAuth {
                email,
                token: expose_secret(&token).clone(),
            },
        };
        let base_url = match self.base_url {
            Some(u) => u,
            None => default_base_url(),
        };
        Ok(Printavo {
            auth_state,
            base_url,
            version: self.version,
            default_headers: self.extra_headers,
        })
    }
}

} // verus!
