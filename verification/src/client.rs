//! The authenticated client state machine.
//!
//! The client is pure data: a base URL and, once authenticated, a bearer
//! token.  Every operation is split into a *plan* — the exact request to
//! send, computed and proved here — and a *verdict* over the status code
//! and body text that came back.  The transport that performs the send
//! lives outside the library and feeds plain values in and out.

use vstd::prelude::*;
use vstd::string::*;

use crate::auth::Token;
use crate::baseurl::{with_slash, BaseUrl};
use crate::endpoints::{endpoint_path_spec, Endpoint};
use crate::errors::ApiError;
use crate::filter::{
    encode_query, filter_models, FilterOperator, IntoQueryTuples, QueryFilter, QueryFilterModel,
};
use crate::resources::{
    ApiResource, Class, ClassRelation, GetID, Group, Namespace, Object, ObjectRelation, User,
};
use crate::text::{dec_int, replace_all, trim_leading};
use core::marker::PhantomData;

verus! {

broadcast use vstd::string::group_string_axioms;

/// The initial client state: no token, no privileged operations.
#[derive(Debug, Clone)]
pub struct Unauthenticated;

/// The state after a successful login: the bearer token.
#[derive(Debug, Clone)]
pub struct Authenticated {
    token: String,
}

/// The verbs the generic dispatcher can be asked for; only GET, POST,
/// PATCH and DELETE are implemented.
#[derive(Debug, Clone, Copy, PartialEq, Eq, Structural)]
pub enum HttpMethod {
    Get,
    Post,
    Patch,
    Delete,
    Put,
    Head,
}

/// The verb's name, for the unsupported-operation error.
pub open spec fn method_name_spec(m: HttpMethod) -> Seq<char> {
    match m {
        HttpMethod::Get => "GET"@,
        HttpMethod::Post => "POST"@,
        HttpMethod::Patch => "PATCH"@,
        HttpMethod::Delete => "DELETE"@,
        HttpMethod::Put => "PUT"@,
        HttpMethod::Head => "HEAD"@,
    }
}

impl HttpMethod {
    /// The verb's name.
    pub fn name(&self) -> (r: &'static str)
        ensures
            r@ == method_name_spec(*self),
    {
        match self {
            HttpMethod::Get => "GET",
            HttpMethod::Post => "POST",
            HttpMethod::Patch => "PATCH",
            HttpMethod::Delete => "DELETE",
            HttpMethod::Put => "PUT",
            HttpMethod::Head => "HEAD",
        }
    }
}

/// The mathematical value of a request plan.
pub ghost struct RequestPlanModel {
    pub method: HttpMethod,
    pub url: Seq<char>,
    pub bearer: Option<Seq<char>>,
    pub send_json_body: bool,
}

/// Exactly what the transport must send: the verb, the full URL, the
/// bearer token to attach if any, and whether a JSON body accompanies the
/// request.
#[derive(Debug, Clone)]
pub struct RequestPlan {
    pub method: HttpMethod,
    pub url: String,
    pub bearer: Option<String>,
    pub send_json_body: bool,
}

impl View for RequestPlan {
    type V = RequestPlanModel;

    open spec fn view(&self) -> RequestPlanModel {
        RequestPlanModel {
            method: self.method,
            url: self.url@,
            bearer: match self.bearer {
                Some(t) => Some(t@),
                None => None,
            },
            send_json_body: self.send_json_body,
        }
    }
}

/// Path-parameter substitutions, in order.
pub type UrlParams = Vec<(String, String)>;

/// The views of the substitution pairs.
pub open spec fn params_model(v: Seq<(String, String)>) -> Seq<(Seq<char>, Seq<char>)> {
    v.map_values(|p: (String, String)| (p.0@, p.1@))
}

/// The `{key}` placeholder of a path parameter.
pub open spec fn placeholder(k: Seq<char>) -> Seq<char> {
    seq!['{'] + k + seq!['}']
}

/// Apply every substitution pair to `u`, left to right.
pub open spec fn subst_params(u: Seq<char>, params: Seq<(Seq<char>, Seq<char>)>) -> Seq<char>
    decreases params.len(),
{
    if params.len() == 0 {
        u
    } else {
        replace_all(
            subst_params(u, params.drop_last()),
            placeholder(params.last().0),
            params.last().1,
        )
    }
}

/// The full URL of an endpoint under a base, after substitutions.
pub open spec fn url_of(base: Seq<char>, e: Endpoint, params: Seq<(Seq<char>, Seq<char>)>) -> Seq<
    char,
> {
    subst_params(with_slash(base) + trim_leading(endpoint_path_spec(e), '/'), params)
}

/// The URL of a GET, with the query string attached when it is non-empty.
pub open spec fn get_url(
    base: Seq<char>,
    e: Endpoint,
    params: Seq<(Seq<char>, Seq<char>)>,
    query: Seq<QueryFilterModel>,
) -> Seq<char> {
    if query.len() == 0 {
        url_of(base, e, params)
    } else {
        url_of(base, e, params) + seq!['?'] + encode_query(query)
    }
}

/// The first value bound to `k` among the substitution pairs.
pub open spec fn lookup_param(params: Seq<(Seq<char>, Seq<char>)>, k: Seq<char>) -> Option<
    Seq<char>,
>
    decreases params.len(),
{
    if params.len() == 0 {
        None
    } else if params[0].0 == k {
        Some(params[0].1)
    } else {
        lookup_param(params.skip(1), k)
    }
}

proof fn lemma_lookup_exact(params: Seq<(Seq<char>, Seq<char>)>, k: Seq<char>, i: int)
    requires
        0 <= i < params.len(),
        params[i].0 == k,
        forall|j: int| 0 <= j < i ==> (#[trigger] params[j]).0 != k,
    ensures
        lookup_param(params, k) == Some(params[i].1),
    decreases i,
{
    if i == 0 {
    } else {
        assert(params[0].0 != k);
        assert(forall|j: int| 0 <= j < i - 1 ==> params.skip(1)[j] == params[j + 1]);
        assert(params.skip(1)[i - 1] == params[i]);
        lemma_lookup_exact(params.skip(1), k, i - 1);
    }
}

proof fn lemma_lookup_absent(params: Seq<(Seq<char>, Seq<char>)>, k: Seq<char>)
    requires
        forall|j: int| 0 <= j < params.len() ==> (#[trigger] params[j]).0 != k,
    ensures
        lookup_param(params, k) is None,
    decreases params.len(),
{
    if params.len() > 0 {
        assert(forall|j: int|
            0 <= j < params.len() - 1 ==> params.skip(1)[j] == params[j + 1]);
        lemma_lookup_absent(params.skip(1), k);
    }
}

/// Exec lookup of the first value bound to `k`.
fn find_param<'a>(params: &'a UrlParams, k: &str) -> (r: Option<&'a String>)
    ensures
        match r {
            Some(v) => lookup_param(params_model(params@), k@) == Some(v@),
            None => lookup_param(params_model(params@), k@) is None,
        },
{
    let mut i: usize = 0;
    while i < params.len()
        invariant
            i <= params@.len(),
            forall|j: int| 0 <= j < i ==> (#[trigger] params_model(params@)[j]).0 != k@,
        decreases params@.len() - i,
    {
        if crate::text::str_eq(params[i].0.as_str(), k) {
            proof {
                lemma_lookup_exact(params_model(params@), k@, i as int);
            }
            return Some(&params[i].1);
        }
        i += 1;
    }
    proof {
        lemma_lookup_absent(params_model(params@), k@);
    }
    None
}

/// Whether the status code counts as success.
pub open spec fn success_status(status: u16) -> bool {
    200 <= status < 300
}

/// Exec test of the success range.
pub fn is_success(status: u16) -> (r: bool)
    ensures
        r == success_status(status),
{
    200 <= status && status < 300
}

// --- best-effort error message extraction -------------------------------------

/// What probing a response body for a JSON `message` member yields:
/// `None` when the body is not JSON, `Some(None)` when it is JSON without
/// a string `message` member, `Some(Some(m))` when the member holds `m`.
pub uninterp spec fn message_probe(body: Seq<char>) -> Option<Option<Seq<char>>>;

/// Relies on `serde_json::from_str::<Value>`, with `Value::get` and
/// `Value::as_str` reading the result: whether the body parses and what
/// its `message` member holds are functions of the body text alone.
#[verifier::external_body]
fn json_message_field(body: &str) -> (r: Option<Option<String>>)
    ensures
        r.deep_view() == message_probe(body@),
{
    match serde_json::from_str::<serde_json::Value>(body) {
        Err(_) => None,
        Ok(v) => match v.get("message") {
            None => Some(None),
            Some(m) => match m.as_str() {
                None => Some(None),
                Some(t) => Some(Some(t.to_string())),
            },
        },
    }
}

/// The message a failed response carries: the JSON `message` member when
/// there is one, a fixed note when the body is JSON without one, the raw
/// body otherwise.
pub open spec fn error_message_of(body: Seq<char>) -> Seq<char> {
    match message_probe(body) {
        None => body,
        Some(None) => "Error without message."@,
        Some(Some(m)) => m,
    }
}

/// Best-effort extraction of an error message from a response body.
pub fn extract_error_message(body: &str) -> (r: String)
    ensures
        r@ == error_message_of(body@),
{
    match json_message_field(body) {
        None => String::from_str(body),
        Some(inner) => match inner {
            None => String::from_str("Error without message."),
            Some(m) => m,
        },
    }
}

// --- response classification ----------------------------------------------------

/// What the library concludes from a response: nothing came back and that
/// is fine, a payload that still needs decoding, or a failure.
#[derive(Debug)]
pub enum ResponseVerdict {
    Empty,
    Payload(String),
    Failed(ApiError),
}

/// Classify a response.  A non-success status fails with the extracted
/// message; a DELETE must come back empty, anything else is a contract
/// violation; 204 yields no value; any other success hands the body on
/// for decoding.
pub fn response_verdict(method: &HttpMethod, status: u16, body: &str) -> (r: ResponseVerdict)
    ensures
        !success_status(status) ==> (r matches ResponseVerdict::Failed(e)
            && e matches ApiError::HttpWithBody { status: st, message } && st == status
            && message@ == error_message_of(body@)),
        success_status(status) && method is Delete && body@.len() > 0 ==> (
        r matches ResponseVerdict::Failed(e) && e matches ApiError::DeserializationError(raw)
            && raw@ == body@),
        success_status(status) && method is Delete && body@.len() == 0 ==> r is Empty,
        success_status(status) && !(method is Delete) && status == 204 ==> r is Empty,
        success_status(status) && !(method is Delete) && status != 204 ==> (
        r matches ResponseVerdict::Payload(b) && b@ == body@),
{
    if !is_success(status) {
        let message = extract_error_message(body);
        return ResponseVerdict::Failed(ApiError::HttpWithBody { status, message });
    }
    if matches!(method, HttpMethod::Delete) {
        if body.unicode_len() == 0 {
            return ResponseVerdict::Empty;
        }
        return ResponseVerdict::Failed(
            ApiError::DeserializationError(String::from_str(body)),
        );
    }
    if status == 204 {
        return ResponseVerdict::Empty;
    }
    ResponseVerdict::Payload(String::from_str(body))
}

/// The outcome of a GET once classified: a failure propagates, an empty
/// success is an empty-result error, a payload is handed on for decoding.
pub fn get_outcome(verdict: ResponseVerdict) -> (r: Result<String, ApiError>)
    ensures
        verdict matches ResponseVerdict::Failed(e) ==> r == Err::<String, ApiError>(e),
        verdict is Empty ==> (r matches Err(e) && e matches ApiError::EmptyResult(m) && m@
            == "GET returned empty result"@),
        verdict matches ResponseVerdict::Payload(b) ==> r == Ok::<String, ApiError>(b),
{
    match verdict {
        ResponseVerdict::Failed(e) => Err(e),
        ResponseVerdict::Empty => Err(
            ApiError::EmptyResult(String::from_str("GET returned empty result")),
        ),
        ResponseVerdict::Payload(b) => Ok(b),
    }
}

/// The outcome of a search: as a GET, with the search wording on an empty
/// success.
pub fn search_outcome(verdict: ResponseVerdict) -> (r: Result<String, ApiError>)
    ensures
        verdict matches ResponseVerdict::Failed(e) ==> r == Err::<String, ApiError>(e),
        verdict is Empty ==> (r matches Err(e) && e matches ApiError::EmptyResult(m) && m@
            == "SEARCH returned empty result"@),
        verdict matches ResponseVerdict::Payload(b) ==> r == Ok::<String, ApiError>(b),
{
    match verdict {
        ResponseVerdict::Failed(e) => Err(e),
        ResponseVerdict::Empty => Err(
            ApiError::EmptyResult(String::from_str("SEARCH returned empty result")),
        ),
        ResponseVerdict::Payload(b) => Ok(b),
    }
}

/// The outcome of a POST: the created record must come back.
pub fn post_outcome(verdict: ResponseVerdict) -> (r: Result<String, ApiError>)
    ensures
        verdict matches ResponseVerdict::Failed(e) ==> r == Err::<String, ApiError>(e),
        verdict is Empty ==> (r matches Err(e) && e matches ApiError::EmptyResult(m) && m@
            == "POST returned empty result"@),
        verdict matches ResponseVerdict::Payload(b) ==> r == Ok::<String, ApiError>(b),
{
    match verdict {
        ResponseVerdict::Failed(e) => Err(e),
        ResponseVerdict::Empty => Err(
            ApiError::EmptyResult(String::from_str("POST returned empty result")),
        ),
        ResponseVerdict::Payload(b) => Ok(b),
    }
}

/// The outcome of a PATCH: the updated record must come back.
pub fn patch_outcome(verdict: ResponseVerdict) -> (r: Result<String, ApiError>)
    ensures
        verdict matches ResponseVerdict::Failed(e) ==> r == Err::<String, ApiError>(e),
        verdict is Empty ==> (r matches Err(e) && e matches ApiError::EmptyResult(m) && m@
            == "PATCH returned empty result"@),
        verdict matches ResponseVerdict::Payload(b) ==> r == Ok::<String, ApiError>(b),
{
    match verdict {
        ResponseVerdict::Failed(e) => Err(e),
        ResponseVerdict::Empty => Err(
            ApiError::EmptyResult(String::from_str("PATCH returned empty result")),
        ),
        ResponseVerdict::Payload(b) => Ok(b),
    }
}

/// The outcome of a listing where nothing coming back simply means an
/// empty list, as for a group's members or a namespace's permissions.
pub fn list_outcome(verdict: ResponseVerdict) -> (r: Result<Option<String>, ApiError>)
    ensures
        verdict matches ResponseVerdict::Failed(e) ==> r == Err::<Option<String>, ApiError>(e),
        verdict is Empty ==> r == Ok::<Option<String>, ApiError>(None),
        verdict matches ResponseVerdict::Payload(b) ==> r == Ok::<Option<String>, ApiError>(
            Some(b),
        ),
{
    match verdict {
        ResponseVerdict::Failed(e) => Err(e),
        ResponseVerdict::Empty => Ok(None),
        ResponseVerdict::Payload(b) => Ok(Some(b)),
    }
}

/// The error for a body that did not match the expected shape; the raw
/// text is retained.
pub fn deserialization_failed(body: &str) -> (r: ApiError)
    ensures
        r matches ApiError::DeserializationError(m) && m@ == body@,
{
    ApiError::DeserializationError(String::from_str(body))
}

// --- the client ------------------------------------------------------------------

/// The client: a base URL plus the authentication state.  The only path
/// from `Unauthenticated` to `Authenticated` consumes the client and
/// produces a new one carrying the token.
#[derive(Debug)]
pub struct Client<S> {
    base_url: BaseUrl,
    state: S,
}

impl<S> Client<S> {
    /// The normalized base URL text.
    pub closed spec fn spec_base(&self) -> Seq<char> {
        self.base_url@
    }

    /// The base URL always ends with a slash.
    pub closed spec fn base_wf(&self) -> bool {
        self.base_url.wf()
    }

    /// Substitute every `{key}` path placeholder and return the full URL.
    pub fn build_url(&self, endpoint: &Endpoint, url_params: &UrlParams) -> (r: String)
        ensures
            r@ == url_of(self.spec_base(), *endpoint, params_model(url_params@)),
    {
        let mut url = endpoint.complete(&self.base_url);
        let mut i: usize = 0;
        proof {
            assert(params_model(url_params@).take(0) =~= Seq::<(Seq<char>, Seq<char>)>::empty());
        }
        while i < url_params.len()
            invariant
                i <= url_params@.len(),
                url@ == subst_params(
                    with_slash(self.spec_base()) + trim_leading(endpoint_path_spec(*endpoint), '/'),
                    params_model(url_params@).take(i as int),
                ),
            decreases url_params@.len() - i,
        {
            let ghost models = params_model(url_params@);
            let mut pat = String::from_str("{");
            pat.append(url_params[i].0.as_str());
            pat.append("}");
            proof {
                reveal_strlit("{");
                reveal_strlit("}");
                assert("{"@ =~= seq!['{']);
                assert("}"@ =~= seq!['}']);
                assert(pat@ == placeholder(models[i as int].0));
                assert(models.take(i as int + 1).drop_last() =~= models.take(i as int));
                assert(models.take(i as int + 1).last() == models[i as int]);
            }
            url = crate::text::replace_all_str(
                url.as_str(),
                pat.as_str(),
                url_params[i].1.as_str(),
            );
            i += 1;
        }
        proof {
            assert(params_model(url_params@).take(url_params@.len() as int) =~= params_model(
                url_params@,
            ));
        }
        url
    }
}

impl Client<Unauthenticated> {
    /// A fresh client with no token.
    pub fn new(base_url: BaseUrl) -> (r: Self)
        ensures
            r.spec_base() == base_url@,
            base_url.wf() ==> r.base_wf(),
    {
        Client { base_url, state: Unauthenticated }
    }

    /// The request that performs a credential login: a POST of the
    /// credentials to the login endpoint, with no bearer attached yet.
    pub fn login_plan(&self) -> (r: RequestPlan)
        ensures
            r@.method == HttpMethod::Post,
            r@.url == url_of(self.spec_base(), Endpoint::Login, Seq::empty()),
            r@.bearer is None,
            r@.send_json_body == true,
    {
        let empty: UrlParams = Vec::new();
        let url = self.build_url(&Endpoint::Login, &empty);
        proof {
            assert(params_model(empty@) =~= Seq::<(Seq<char>, Seq<char>)>::empty());
        }
        RequestPlan { method: HttpMethod::Post, url, bearer: None, send_json_body: true }
    }

    /// The request that validates a pre-issued token: a GET of the
    /// validation endpoint carrying the token as bearer.
    pub fn login_with_token_plan(&self, token: &Token) -> (r: RequestPlan)
        ensures
            r@.method == HttpMethod::Get,
            r@.url == url_of(self.spec_base(), Endpoint::LoginWithToken, Seq::empty()),
            r@.bearer == Some(token@),
            r@.send_json_body == false,
    {
        let empty: UrlParams = Vec::new();
        let url = self.build_url(&Endpoint::LoginWithToken, &empty);
        proof {
            assert(params_model(empty@) =~= Seq::<(Seq<char>, Seq<char>)>::empty());
        }
        RequestPlan {
            method: HttpMethod::Get,
            url,
            bearer: Some(token.token.clone()),
            send_json_body: false,
        }
    }

    /// Decide the outcome of a credential login from the response verdict
    /// and the token the transport decoded from the payload, if any.  The
    /// one-way transition to `Authenticated` happens here.
    pub fn login_decide(self, verdict: ResponseVerdict, parsed: Option<Token>) -> (r: Result<
        Client<Authenticated>,
        ApiError,
    >)
        ensures
            verdict matches ResponseVerdict::Failed(e) ==> r == Err::<
                Client<Authenticated>,
                ApiError,
            >(e),
            parsed matches Some(t) ==> (verdict is Payload ==> (r matches Ok(c) && c.spec_token()
                == t@ && c.spec_base() == self.spec_base())),
            verdict matches ResponseVerdict::Payload(b) ==> (parsed is None ==> (r matches Err(e)
                && e matches ApiError::DeserializationError(m) && m@ == b@)),
            verdict is Empty ==> (r matches Err(e) && e matches ApiError::DeserializationError(m)
                && m@.len() == 0),
    {
        match verdict {
            ResponseVerdict::Failed(e) => Err(e),
            ResponseVerdict::Empty => Err(ApiError::DeserializationError(String::new())),
            ResponseVerdict::Payload(b) => match parsed {
                Some(t) => Ok(self.authenticate(t)),
                None => Err(ApiError::DeserializationError(b)),
            },
        }
    }

    /// Decide the outcome of a token validation: a success status yields
    /// the authenticated client, anything else the invalid-token error —
    /// distinct from a transport failure, since the request itself
    /// succeeded.
    pub fn login_with_token_outcome(self, token: Token, status: u16) -> (r: Result<
        Client<Authenticated>,
        ApiError,
    >)
        ensures
            success_status(status) ==> (r matches Ok(c) && c.spec_token() == token@
                && c.spec_base() == self.spec_base()),
            !success_status(status) ==> r == Err::<Client<Authenticated>, ApiError>(
                ApiError::InvalidToken,
            ),
    {
        if is_success(status) {
            Ok(self.authenticate(token))
        } else {
            Err(ApiError::InvalidToken)
        }
    }

    /// The one-way transition: consume this client and the token, produce
    /// the authenticated client.
    pub fn authenticate(self, token: Token) -> (r: Client<Authenticated>)
        ensures
            r.spec_token() == token@,
            r.spec_base() == self.spec_base(),
            self.base_wf() ==> r.base_wf(),
    {
        Client { base_url: self.base_url, state: Authenticated { token: token.token } }
    }
}

impl Clone for Client<Authenticated> {
    /// An authenticated client clones to one with the same base URL and
    /// token; clones are safe to use concurrently for reads.
    fn clone(&self) -> (r: Self)
        ensures
            r.spec_base() == self.spec_base(),
            r.spec_token() == self.spec_token(),
    {
        Client {
            base_url: self.base_url.clone(),
            state: Authenticated { token: self.state.token.clone() },
        }
    }
}

impl Client<Authenticated> {
    /// The bearer token.
    pub closed spec fn spec_token(&self) -> Seq<char> {
        self.state.token@
    }

    /// The bearer token.
    pub fn get_token(&self) -> (r: &str)
        ensures
            r@ == self.spec_token(),
    {
        self.state.token.as_str()
    }

    /// Plan one generic request against an explicit endpoint.  GET attaches
    /// the serialized query filters when there are any; PATCH requires a
    /// `patch_id` substitution pair and appends its value to the URL —
    /// a missing identifier is a hard error, raised before any request
    /// exists to send; verbs outside the four are refused.
    pub fn plan_request(
        &self,
        method: HttpMethod,
        endpoint: &Endpoint,
        url_params: &UrlParams,
        query_params: &Vec<QueryFilter>,
    ) -> (r: Result<RequestPlan, ApiError>)
        ensures
            r matches Ok(p) ==> p@.method == method && p@.bearer == Some(self.spec_token())
                && p@.send_json_body == (method is Post || method is Patch),
            method is Get ==> (r matches Ok(p) && p@.url == get_url(
                self.spec_base(),
                *endpoint,
                params_model(url_params@),
                filter_models(query_params@),
            )),
            method is Post ==> (r matches Ok(p) && p@.url == url_of(
                self.spec_base(),
                *endpoint,
                params_model(url_params@),
            )),
            method is Delete ==> (r matches Ok(p) && p@.url == url_of(
                self.spec_base(),
                *endpoint,
                params_model(url_params@),
            )),
            method is Patch ==> (match lookup_param(params_model(url_params@), "patch_id"@) {
                Some(v) => r matches Ok(p) && p@.url == url_of(
                    self.spec_base(),
                    *endpoint,
                    params_model(url_params@),
                ) + v,
                None => r == Err::<RequestPlan, ApiError>(ApiError::MissingUrlIdentifier),
            }),
            method is Put || method is Head ==> (r matches Err(e)
                && e matches ApiError::UnsupportedHttpOperation(m) && m@ == method_name_spec(
                method,
            )),
    {
        let url = self.build_url(endpoint, url_params);
        match method {
            HttpMethod::Get => {
                let query = query_params.into_query_string();
                let url = if query.unicode_len() > 0 {
                    let mut u = url;
                    u.append("?");
                    proof {
                        reveal_strlit("?");
                        assert("?"@ =~= seq!['?']);
                    }
                    u.append(query.as_str());
                    u
                } else {
                    url
                };
                Ok(
                    RequestPlan {
                        method: HttpMethod::Get,
                        url,
                        bearer: Some(self.state.token.clone()),
                        send_json_body: false,
                    },
                )
            },
            HttpMethod::Post => Ok(
                RequestPlan {
                    method: HttpMethod::Post,
                    url,
                    bearer: Some(self.state.token.clone()),
                    send_json_body: true,
                },
            ),
            HttpMethod::Patch => {
                match find_param(url_params, "patch_id") {
                    None => Err(ApiError::MissingUrlIdentifier),
                    Some(id) => {
                        let mut u = url;
                        u.append(id.as_str());
                        Ok(
                            RequestPlan {
                                method: HttpMethod::Patch,
                                url: u,
                                bearer: Some(self.state.token.clone()),
                                send_json_body: true,
                            },
                        )
                    },
                }
            },
            HttpMethod::Delete => Ok(
                RequestPlan {
                    method: HttpMethod::Delete,
                    url,
                    bearer: Some(self.state.token.clone()),
                    send_json_body: false,
                },
            ),
            _ => Err(ApiError::UnsupportedHttpOperation(String::from_str(method.name()))),
        }
    }
}


// --- per-kind plans ---------------------------------------------------------------

proof fn lemma_lookup_some(params: Seq<(Seq<char>, Seq<char>)>, k: Seq<char>)
    requires
        exists|i: int| 0 <= i < params.len() && (#[trigger] params[i]).0 == k,
    ensures
        lookup_param(params, k) is Some,
    decreases params.len(),
{
    if params.len() > 0 && params[0].0 != k {
        let i = choose|i: int| 0 <= i < params.len() && (#[trigger] params[i]).0 == k;
        assert(params.skip(1)[i - 1] == params[i]);
        lemma_lookup_some(params.skip(1), k);
    }
}

impl Client<Authenticated> {
    /// Plan a filtered read of a resource kind.
    pub fn get_plan<R: ApiResource>(
        &self,
        url_params: &UrlParams,
        query_params: &Vec<QueryFilter>,
    ) -> (r: RequestPlan)
        ensures
            r@.method == HttpMethod::Get,
            r@.url == get_url(
                self.spec_base(),
                R::spec_endpoint(),
                params_model(url_params@),
                filter_models(query_params@),
            ),
            r@.bearer == Some(self.spec_token()),
            r@.send_json_body == false,
    {
        let ep = R::endpoint_kind();
        match self.plan_request(HttpMethod::Get, &ep, url_params, query_params) {
            Ok(p) => p,
            Err(_) => vstd::pervasive::unreached(),
        }
    }

    /// Plan a search: a filtered read with no extra parameters beyond the
    /// query filters.
    pub fn search_plan<R: ApiResource>(
        &self,
        url_params: &UrlParams,
        query_params: &Vec<QueryFilter>,
    ) -> (r: RequestPlan)
        ensures
            r@.method == HttpMethod::Get,
            r@.url == get_url(
                self.spec_base(),
                R::spec_endpoint(),
                params_model(url_params@),
                filter_models(query_params@),
            ),
            r@.bearer == Some(self.spec_token()),
            r@.send_json_body == false,
    {
        self.get_plan::<R>(url_params, query_params)
    }

    /// Plan the creation of a record; the transport sends the create
    /// payload as the JSON body.
    pub fn post_plan<R: ApiResource>(&self, url_params: &UrlParams) -> (r: RequestPlan)
        ensures
            r@.method == HttpMethod::Post,
            r@.url == url_of(self.spec_base(), R::spec_endpoint(), params_model(url_params@)),
            r@.bearer == Some(self.spec_token()),
            r@.send_json_body == true,
    {
        let ep = R::endpoint_kind();
        let empty: Vec<QueryFilter> = Vec::new();
        proof {
            assert(filter_models(empty@) =~= Seq::<QueryFilterModel>::empty());
        }
        match self.plan_request(HttpMethod::Post, &ep, url_params, &empty) {
            Ok(p) => p,
            Err(_) => vstd::pervasive::unreached(),
        }
    }

    /// Plan a partial update of the record with this identifier; the
    /// identifier is appended to the collection URL.
    pub fn patch_plan<R: ApiResource>(&self, id: i32, url_params: UrlParams) -> (r: RequestPlan)
        ensures
            ({
                let ps = params_model(url_params@).push(("patch_id"@, dec_int(id as int)));
                r@.method == HttpMethod::Patch && r@.bearer == Some(self.spec_token())
                    && r@.send_json_body == true && (match lookup_param(ps, "patch_id"@) {
                    Some(v) => r@.url == url_of(self.spec_base(), R::spec_endpoint(), ps) + v,
                    None => false,
                })
            }),
    {
        let ep = R::endpoint_kind();
        let ghost orig = params_model(url_params@);
        let mut with_id = url_params;
        with_id.push((String::from_str("patch_id"), crate::text::i32_to_dec(id)));
        proof {
            assert(params_model(with_id@) =~= orig.push(("patch_id"@, dec_int(id as int))));
            let ps = params_model(with_id@);
            assert(ps[ps.len() - 1].0 == "patch_id"@);
            lemma_lookup_some(ps, "patch_id"@);
        }
        let empty: Vec<QueryFilter> = Vec::new();
        match self.plan_request(HttpMethod::Patch, &ep, &with_id, &empty) {
            Ok(p) => p,
            Err(_) => vstd::pervasive::unreached(),
        }
    }

    /// Plan the deletion of the record with this identifier; DELETE sends
    /// no body and the identifier is appended to the collection URL.
    pub fn delete_plan<R: ApiResource>(&self, id: i32, url_params: &UrlParams) -> (r: RequestPlan)
        ensures
            r@.method == HttpMethod::Delete,
            r@.url == url_of(self.spec_base(), R::spec_endpoint(), params_model(url_params@))
                + dec_int(id as int),
            r@.bearer == Some(self.spec_token()),
            r@.send_json_body == false,
    {
        let ep = R::endpoint_kind();
        let mut url = self.build_url(&ep, url_params);
        let ds = crate::text::i32_to_dec(id);
        url.append(ds.as_str());
        RequestPlan {
            method: HttpMethod::Delete,
            url,
            bearer: Some(self.state.token.clone()),
            send_json_body: false,
        }
    }
}


// --- the fluent resource surface ---------------------------------------------------

/// A caller-supplied conversion into query filters.
pub trait IntoResourceFilter<T: ApiResource> {
    /// The filters the receiver stands for.
    spec fn spec_filters(&self) -> Seq<QueryFilterModel>;

    fn into_resource_filter(self) -> (r: Vec<QueryFilter>)
        ensures
            filter_models(r@) == self.spec_filters(),
    ;
}

impl<T: ApiResource> IntoResourceFilter<T> for Vec<QueryFilter> {
    open spec fn spec_filters(&self) -> Seq<QueryFilterModel> {
        filter_models(self@)
    }

    fn into_resource_filter(self) -> Vec<QueryFilter> {
        self
    }
}

/// The create payload of a request that sends none.
#[derive(Debug, Clone, PartialEq, Eq, Structural, Default)]
pub struct EmptyPostParams;

fn copy_params(params: &UrlParams) -> (r: UrlParams)
    ensures
        params_model(r@) == params_model(params@),
{
    let mut out: UrlParams = Vec::new();
    let mut i: usize = 0;
    while i < params.len()
        invariant
            i <= params@.len(),
            out@.len() == i,
            forall|j: int|
                0 <= j < i ==> (#[trigger] params_model(out@)[j]) == params_model(params@)[j],
        decreases params@.len() - i,
    {
        let ghost prev = out@;
        out.push((params[i].0.clone(), params[i].1.clone()));
        proof {
            assert(out@ == prev.push(out@[i as int]));
            assert(params_model(out@)[i as int] == (params@[i as int].0@, params@[i as int].1@));
            assert(forall|j: int|
                0 <= j < i ==> (#[trigger] params_model(out@)[j]) == params_model(prev)[j]);
        }
        i += 1;
    }
    proof {
        assert(params_model(out@) =~= params_model(params@));
    }
    out
}

/// One resource kind scoped to a client, with any path parameters the
/// kind needs already bound.
pub struct Resource<T: ApiResource> {
    client: Client<Authenticated>,
    url_params: UrlParams,
    _marker: PhantomData<T>,
}

impl<T: ApiResource> Resource<T> {
    /// The base URL of the owning client.
    pub closed spec fn spec_base(&self) -> Seq<char> {
        self.client.spec_base()
    }

    /// The token of the owning client.
    pub closed spec fn spec_token(&self) -> Seq<char> {
        self.client.spec_token()
    }

    /// The bound path parameters.
    pub closed spec fn spec_params(&self) -> Seq<(Seq<char>, Seq<char>)> {
        params_model(self.url_params@)
    }

    fn make(client: Client<Authenticated>, url_params: UrlParams) -> (r: Self)
        ensures
            r.spec_base() == client.spec_base(),
            r.spec_token() == client.spec_token(),
            r.spec_params() == params_model(url_params@),
    {
        Resource { client, url_params, _marker: PhantomData }
    }

    /// Start accumulating filters for a search.
    pub fn find(&self) -> (r: FilterBuilder<T>)
        ensures
            r.spec_base() == self.spec_base(),
            r.spec_token() == self.spec_token(),
            r.spec_params() == self.spec_params(),
            r.spec_filters() == Seq::<(Seq<char>, FilterOperator, Seq<char>)>::empty(),
    {
        FilterBuilder {
            client: self.client.clone(),
            url_params: copy_params(&self.url_params),
            filters: Vec::new(),
            _marker: PhantomData,
        }
    }

    /// Plan the search a caller-supplied filter stands for.
    pub fn filter_plan<F: IntoResourceFilter<T>>(&self, filter: F) -> (r: RequestPlan)
        ensures
            r@.method == HttpMethod::Get,
            r@.url == get_url(
                self.spec_base(),
                T::spec_endpoint(),
                self.spec_params(),
                filter.spec_filters(),
            ),
            r@.bearer == Some(self.spec_token()),
            r@.send_json_body == false,
    {
        let params = filter.into_resource_filter();
        self.client.search_plan::<T>(&self.url_params, &params)
    }

    /// Plan the creation of a record in this collection.
    pub fn create_plan(&self) -> (r: RequestPlan)
        ensures
            r@.method == HttpMethod::Post,
            r@.url == url_of(self.spec_base(), T::spec_endpoint(), self.spec_params()),
            r@.bearer == Some(self.spec_token()),
            r@.send_json_body == true,
    {
        self.client.post_plan::<T>(&self.url_params)
    }

    /// Plan a partial update of the record with this identifier.
    pub fn update_plan(&self, id: i32) -> (r: RequestPlan)
        ensures
            ({
                let ps = self.spec_params().push(("patch_id"@, dec_int(id as int)));
                r@.method == HttpMethod::Patch && r@.bearer == Some(self.spec_token())
                    && r@.send_json_body == true && (match lookup_param(ps, "patch_id"@) {
                    Some(v) => r@.url == url_of(self.spec_base(), T::spec_endpoint(), ps) + v,
                    None => false,
                })
            }),
    {
        self.client.patch_plan::<T>(id, copy_params(&self.url_params))
    }

    /// Plan the deletion of the record with this identifier.
    pub fn delete_plan(&self, id: i32) -> (r: RequestPlan)
        ensures
            r@.method == HttpMethod::Delete,
            r@.url == url_of(self.spec_base(), T::spec_endpoint(), self.spec_params()) + dec_int(
                id as int,
            ),
            r@.bearer == Some(self.spec_token()),
            r@.send_json_body == false,
    {
        self.client.delete_plan::<T>(id, &self.url_params)
    }
}

/// Accumulates field/operator/value filter tuples and turns them into the
/// search they describe.
pub struct FilterBuilder<T: ApiResource> {
    client: Client<Authenticated>,
    url_params: UrlParams,
    filters: Vec<(String, FilterOperator, String)>,
    _marker: PhantomData<T>,
}

/// The views of the accumulated tuples.
pub open spec fn tuple_models(v: Seq<(String, FilterOperator, String)>) -> Seq<
    (Seq<char>, FilterOperator, Seq<char>),
> {
    v.map_values(|t: (String, FilterOperator, String)| (t.0@, t.1, t.2@))
}

/// The filters the accumulated tuples translate to, one to one.
pub open spec fn tuples_as_filters(v: Seq<(Seq<char>, FilterOperator, Seq<char>)>) -> Seq<
    QueryFilterModel,
> {
    v.map_values(
        |t: (Seq<char>, FilterOperator, Seq<char>)|
            QueryFilterModel { key: t.0, value: t.2, operator: t.1 },
    )
}

impl<T: ApiResource> FilterBuilder<T> {
    /// The base URL of the owning client.
    pub closed spec fn spec_base(&self) -> Seq<char> {
        self.client.spec_base()
    }

    /// The token of the owning client.
    pub closed spec fn spec_token(&self) -> Seq<char> {
        self.client.spec_token()
    }

    /// The bound path parameters.
    pub closed spec fn spec_params(&self) -> Seq<(Seq<char>, Seq<char>)> {
        params_model(self.url_params@)
    }

    /// The accumulated tuples, in insertion order.
    pub closed spec fn spec_filters(&self) -> Seq<(Seq<char>, FilterOperator, Seq<char>)> {
        tuple_models(self.filters@)
    }

    /// Append one field/operator/value tuple.
    pub fn add_filter(self, field: &str, op: FilterOperator, value: &str) -> (r: Self)
        ensures
            r.spec_base() == self.spec_base(),
            r.spec_token() == self.spec_token(),
            r.spec_params() == self.spec_params(),
            r.spec_filters() == self.spec_filters().push((field@, op, value@)),
    {
        let mut this = self;
        let ghost prev = tuple_models(this.filters@);
        this.filters.push((String::from_str(field), op, String::from_str(value)));
        proof {
            assert(tuple_models(this.filters@) =~= prev.push((field@, op, value@)));
        }
        this
    }

    /// Append an equality filter.
    pub fn add_filter_equals(self, field: &str, value: &str) -> (r: Self)
        ensures
            r.spec_base() == self.spec_base(),
            r.spec_token() == self.spec_token(),
            r.spec_params() == self.spec_params(),
            r.spec_filters() == self.spec_filters().push(
                (field@, FilterOperator::Equals { is_negated: false }, value@),
            ),
    {
        self.add_filter(field, FilterOperator::Equals { is_negated: false }, value)
    }

    /// Append an equality filter on the `id` field.
    pub fn add_filter_id(self, value: &str) -> (r: Self)
        ensures
            r.spec_base() == self.spec_base(),
            r.spec_token() == self.spec_token(),
            r.spec_params() == self.spec_params(),
            r.spec_filters() == self.spec_filters().push(
                ("id"@, FilterOperator::Equals { is_negated: false }, value@),
            ),
    {
        self.add_filter_equals("id", value)
    }

    /// Append an equality filter on the idiomatic name field of the kind:
    /// most resources use `name`, but some differ, and this cloaks the
    /// difference behind the kind's own name field.
    pub fn add_filter_name_exact(self, value: &str) -> (r: Self)
        ensures
            r.spec_base() == self.spec_base(),
            r.spec_token() == self.spec_token(),
            r.spec_params() == self.spec_params(),
            r.spec_filters() == self.spec_filters().push(
                (T::spec_name_field(), FilterOperator::Equals { is_negated: false }, value@),
            ),
    {
        self.add_filter(T::name_field(), FilterOperator::Equals { is_negated: false }, value)
    }

    /// Plan the search the accumulated filters describe: the tuples pass
    /// one to one through the kind's `build_params` and become the query
    /// string, in insertion order.
    pub fn search_plan(self) -> (r: RequestPlan)
        ensures
            r@.method == HttpMethod::Get,
            r@.url == get_url(
                self.spec_base(),
                T::spec_endpoint(),
                self.spec_params(),
                tuples_as_filters(self.spec_filters()),
            ),
            r@.bearer == Some(self.spec_token()),
            r@.send_json_body == false,
    {
        let ghost want = tuples_as_filters(tuple_models(self.filters@));
        let params = T::build_params(self.filters);
        proof {
            assert(filter_models(params@) =~= want);
        }
        self.client.search_plan::<T>(&self.url_params, &params)
    }
}

// --- cardinality ---------------------------------------------------------------------

/// Unwrap the single element of a search expected to match exactly one
/// record: an empty result is a not-found failure naming the resource
/// kind, more than one is a too-many failure reporting the count.
pub fn one_or_err<T>(v: Vec<T>, kind: &str) -> (r: Result<T, ApiError>)
    ensures
        v@.len() == 1 ==> (r matches Ok(x) && x == v@[0]),
        v@.len() == 0 ==> (r matches Err(e) && e matches ApiError::EmptyResult(m) && m@ == kind@
            + " not found"@),
        v@.len() > 1 ==> (r matches Err(e) && e matches ApiError::TooManyResults {
            kind: k,
            count,
        } && k@ == kind@ && count == v@.len()),
{
    let n = v.len();
    if n == 1 {
        let mut v = v;
        match v.pop() {
            Some(x) => Ok(x),
            None => vstd::pervasive::unreached(),
        }
    } else if n == 0 {
        let mut m = String::from_str(kind);
        m.append(" not found");
        Err(ApiError::EmptyResult(m))
    } else {
        Err(ApiError::TooManyResults { kind: String::from_str(kind), count: n })
    }
}

// --- handles and relationship navigation -----------------------------------------------

/// One fetched record bound to the client that fetched it, so that
/// relationship calls are scoped to the right client and identifier.
pub struct Handle<T> {
    client: Client<Authenticated>,
    resource: T,
}

impl<T: ApiResource + GetID> Handle<T> {
    /// The base URL of the owning client.
    pub closed spec fn spec_base(&self) -> Seq<char> {
        self.client.spec_base()
    }

    /// The token of the owning client.
    pub closed spec fn spec_token(&self) -> Seq<char> {
        self.client.spec_token()
    }

    /// The wrapped record.
    pub closed spec fn spec_resource(&self) -> T {
        self.resource
    }

    pub fn new(client: Client<Authenticated>, resource: T) -> (r: Self)
        ensures
            r.spec_base() == client.spec_base(),
            r.spec_token() == client.spec_token(),
            r.spec_resource() == resource,
    {
        Handle { client, resource }
    }

    /// The wrapped record.
    pub fn resource(&self) -> (r: &T)
        ensures
            *r == self.spec_resource(),
    {
        &self.resource
    }

    /// The wrapped record's identifier.
    pub fn id(&self) -> (r: i32)
        ensures
            r == self.spec_resource().spec_id(),
    {
        self.resource.id()
    }

    /// The owning client.
    pub fn client(&self) -> (r: &Client<Authenticated>)
        ensures
            r.spec_base() == self.spec_base(),
            r.spec_token() == self.spec_token(),
    {
        &self.client
    }
}

/// Wrap the outcome of a single-record search: exactly one element yields
/// a handle on it, anything else the cardinality failure.
pub fn select_wrap<T: ApiResource + GetID>(
    client: Client<Authenticated>,
    items: Vec<T>,
    kind: &str,
) -> (r: Result<Handle<T>, ApiError>)
    ensures
        items@.len() == 1 ==> (r matches Ok(h) && h.spec_resource() == items@[0] && h.spec_base()
            == client.spec_base() && h.spec_token() == client.spec_token()),
        items@.len() == 0 ==> (r matches Err(e) && e matches ApiError::EmptyResult(m) && m@
            == kind@ + " not found"@),
        items@.len() > 1 ==> (r matches Err(e) && e matches ApiError::TooManyResults {
            kind: k,
            count,
        } && k@ == kind@ && count == items@.len()),
{
    match one_or_err(items, kind) {
        Ok(x) => Ok(Handle::new(client, x)),
        Err(e) => Err(e),
    }
}

/// Wrap every fetched record into a handle bound to the same client,
/// keeping the order; the companion of `select_wrap` for list results.
pub fn wrap_handles<T: ApiResource + GetID>(client: &Client<Authenticated>, items: Vec<T>) -> (r:
    Vec<Handle<T>>)
    ensures
        r@.len() == items@.len(),
        forall|i: int|
            0 <= i < r@.len() ==> (#[trigger] r@[i]).spec_resource() == items@[i]
                && r@[i].spec_base() == client.spec_base() && r@[i].spec_token()
                == client.spec_token(),
{
    let ghost orig = items@;
    let mut items = items;
    let mut out: Vec<Handle<T>> = Vec::new();
    while items.len() > 0
        invariant
            out@.len() + items@.len() == orig.len(),
            items@ == orig.skip(out@.len() as int),
            forall|i: int|
                0 <= i < out@.len() ==> (#[trigger] out@[i]).spec_resource() == orig[i]
                    && out@[i].spec_base() == client.spec_base() && out@[i].spec_token()
                    == client.spec_token(),
        decreases items@.len(),
    {
        let ghost k = out@.len() as int;
        let x = items.remove(0);
        proof {
            assert(orig.skip(k)[0] == orig[k]);
            assert(orig.skip(k).remove(0) =~= orig.skip(k + 1));
        }
        out.push(Handle::new(client.clone(), x));
    }
    out
}

impl<T: ApiResource + GetID> Resource<T> {
    /// Plan the GET that selects the record with this identifier: an
    /// equality filter on `id`.
    pub fn select_plan(&self, id: i32) -> (r: RequestPlan)
        ensures
            r@.method == HttpMethod::Get,
            r@.url == get_url(
                self.spec_base(),
                T::spec_endpoint(),
                self.spec_params(),
                seq![
                    (QueryFilterModel {
                        key: "id"@,
                        value: dec_int(id as int),
                        operator: FilterOperator::Equals { is_negated: false },
                    }),
                ],
            ),
            r@.bearer == Some(self.spec_token()),
            r@.send_json_body == false,
    {
        let mut query: Vec<QueryFilter> = Vec::new();
        query.push(
            QueryFilter {
                key: String::from_str("id"),
                value: crate::text::i32_to_dec(id),
                operator: FilterOperator::Equals { is_negated: false },
            },
        );
        proof {
            assert(filter_models(query@) =~= seq![
                (QueryFilterModel {
                    key: "id"@,
                    value: dec_int(id as int),
                    operator: FilterOperator::Equals { is_negated: false },
                }),
            ]);
        }
        self.client.get_plan::<T>(&self.url_params, &query)
    }

    /// Plan the GET that selects the record with this name, using the
    /// kind's own name field.
    pub fn select_by_name_plan(&self, name: &str) -> (r: RequestPlan)
        ensures
            r@.method == HttpMethod::Get,
            r@.url == get_url(
                self.spec_base(),
                T::spec_endpoint(),
                self.spec_params(),
                seq![
                    (QueryFilterModel {
                        key: T::spec_name_field(),
                        value: name@,
                        operator: FilterOperator::Equals { is_negated: false },
                    }),
                ],
            ),
            r@.bearer == Some(self.spec_token()),
            r@.send_json_body == false,
    {
        let mut query: Vec<QueryFilter> = Vec::new();
        query.push(
            QueryFilter {
                key: String::from_str(T::name_field()),
                value: String::from_str(name),
                operator: FilterOperator::Equals { is_negated: false },
            },
        );
        proof {
            assert(filter_models(query@) =~= seq![
                (QueryFilterModel {
                    key: T::spec_name_field(),
                    value: name@,
                    operator: FilterOperator::Equals { is_negated: false },
                }),
            ]);
        }
        self.client.get_plan::<T>(&self.url_params, &query)
    }

    /// A clone of the owning client, for wrapping results into handles.
    pub fn client_clone(&self) -> (r: Client<Authenticated>)
        ensures
            r.spec_base() == self.spec_base(),
            r.spec_token() == self.spec_token(),
    {
        self.client.clone()
    }
}

impl Client<Authenticated> {
    /// The user collection.
    pub fn users(&self) -> (r: Resource<User>)
        ensures
            r.spec_base() == self.spec_base(),
            r.spec_token() == self.spec_token(),
            r.spec_params() == Seq::<(Seq<char>, Seq<char>)>::empty(),
    {
        let r = Resource::make(self.clone(), Vec::new());
        proof {
            assert(params_model(Seq::<(String, String)>::empty()) =~= Seq::<
                (Seq<char>, Seq<char>),
            >::empty());
        }
        r
    }

    /// The class collection.
    pub fn classes(&self) -> (r: Resource<Class>)
        ensures
            r.spec_base() == self.spec_base(),
            r.spec_token() == self.spec_token(),
            r.spec_params() == Seq::<(Seq<char>, Seq<char>)>::empty(),
    {
        let r = Resource::make(self.clone(), Vec::new());
        proof {
            assert(params_model(Seq::<(String, String)>::empty()) =~= Seq::<
                (Seq<char>, Seq<char>),
            >::empty());
        }
        r
    }

    /// The namespace collection.
    pub fn namespaces(&self) -> (r: Resource<Namespace>)
        ensures
            r.spec_base() == self.spec_base(),
            r.spec_token() == self.spec_token(),
            r.spec_params() == Seq::<(Seq<char>, Seq<char>)>::empty(),
    {
        let r = Resource::make(self.clone(), Vec::new());
        proof {
            assert(params_model(Seq::<(String, String)>::empty()) =~= Seq::<
                (Seq<char>, Seq<char>),
            >::empty());
        }
        r
    }

    /// The group collection.
    pub fn groups(&self) -> (r: Resource<Group>)
        ensures
            r.spec_base() == self.spec_base(),
            r.spec_token() == self.spec_token(),
            r.spec_params() == Seq::<(Seq<char>, Seq<char>)>::empty(),
    {
        let r = Resource::make(self.clone(), Vec::new());
        proof {
            assert(params_model(Seq::<(String, String)>::empty()) =~= Seq::<
                (Seq<char>, Seq<char>),
            >::empty());
        }
        r
    }

    /// The object collection inside one class.
    pub fn objects(&self, class_id: i32) -> (r: Resource<Object>)
        ensures
            r.spec_base() == self.spec_base(),
            r.spec_token() == self.spec_token(),
            r.spec_params() == seq![("class_id"@, dec_int(class_id as int))],
    {
        let mut params: UrlParams = Vec::new();
        params.push((String::from_str("class_id"), crate::text::i32_to_dec(class_id)));
        proof {
            assert(params_model(params@) =~= seq![("class_id"@, dec_int(class_id as int))]);
        }
        Resource::make(self.clone(), params)
    }

    /// The class-relation collection.
    pub fn class_relation(&self) -> (r: Resource<ClassRelation>)
        ensures
            r.spec_base() == self.spec_base(),
            r.spec_token() == self.spec_token(),
            r.spec_params() == Seq::<(Seq<char>, Seq<char>)>::empty(),
    {
        let r = Resource::make(self.clone(), Vec::new());
        proof {
            assert(params_model(Seq::<(String, String)>::empty()) =~= Seq::<
                (Seq<char>, Seq<char>),
            >::empty());
        }
        r
    }

    /// The object-relation collection.
    pub fn object_relation(&self) -> (r: Resource<ObjectRelation>)
        ensures
            r.spec_base() == self.spec_base(),
            r.spec_token() == self.spec_token(),
            r.spec_params() == Seq::<(Seq<char>, Seq<char>)>::empty(),
    {
        let r = Resource::make(self.clone(), Vec::new());
        proof {
            assert(params_model(Seq::<(String, String)>::empty()) =~= Seq::<
                (Seq<char>, Seq<char>),
            >::empty());
        }
        r
    }
}

// --- relationship navigation, hand-written per relationship ---------------------------

impl Handle<Class> {
    /// Plan the listing of the objects in this class.
    pub fn objects_plan(&self) -> (r: RequestPlan)
        ensures
            r@.method == HttpMethod::Get,
            r@.url == url_of(
                self.spec_base(),
                Endpoint::Objects,
                seq![("class_id"@, dec_int(self.spec_resource().spec_id() as int))],
            ),
            r@.bearer == Some(self.spec_token()),
            r@.send_json_body == false,
    {
        let mut params: UrlParams = Vec::new();
        params.push((String::from_str("class_id"), crate::text::i32_to_dec(self.id())));
        proof {
            assert(params_model(params@) =~= seq![
                ("class_id"@, dec_int(self.spec_resource().spec_id() as int)),
            ]);
        }
        let empty: Vec<QueryFilter> = Vec::new();
        proof {
            assert(filter_models(empty@) =~= Seq::<QueryFilterModel>::empty());
        }
        self.client.get_plan::<Object>(&params, &empty)
    }

    /// Plan the lookup of one object of this class by name.
    pub fn object_by_name_plan(&self, name: &str) -> (r: RequestPlan)
        ensures
            r@.method == HttpMethod::Get,
            r@.url == get_url(
                self.spec_base(),
                Endpoint::Objects,
                seq![("name"@, name@), ("class_id"@, dec_int(self.spec_resource().spec_id() as int))],
                seq![
                    (QueryFilterModel {
                        key: "name"@,
                        value: name@,
                        operator: FilterOperator::Equals { is_negated: false },
                    }),
                ],
            ),
            r@.bearer == Some(self.spec_token()),
            r@.send_json_body == false,
    {
        let mut params: UrlParams = Vec::new();
        params.push((String::from_str("name"), String::from_str(name)));
        params.push((String::from_str("class_id"), crate::text::i32_to_dec(self.id())));
        let mut query: Vec<QueryFilter> = Vec::new();
        query.push(
            QueryFilter {
                key: String::from_str("name"),
                value: String::from_str(name),
                operator: FilterOperator::Equals { is_negated: false },
            },
        );
        proof {
            assert(params_model(params@) =~= seq![
                ("name"@, name@),
                ("class_id"@, dec_int(self.spec_resource().spec_id() as int)),
            ]);
            assert(filter_models(query@) =~= seq![
                (QueryFilterModel {
                    key: "name"@,
                    value: name@,
                    operator: FilterOperator::Equals { is_negated: false },
                }),
            ]);
        }
        self.client.get_plan::<Object>(&params, &query)
    }

    /// Plan the deletion of this handle's class: a DELETE scoped to the
    /// wrapped record's identifier.
    pub fn delete_plan(&self) -> (r: RequestPlan)
        ensures
            r@.method == HttpMethod::Delete,
            r@.url == url_of(self.spec_base(), Endpoint::Classes, Seq::empty()) + dec_int(
                self.spec_resource().spec_id() as int,
            ),
            r@.bearer == Some(self.spec_token()),
            r@.send_json_body == false,
    {
        let empty: UrlParams = Vec::new();
        proof {
            assert(params_model(empty@) =~= Seq::<(Seq<char>, Seq<char>)>::empty());
        }
        self.client.delete_plan::<Class>(self.id(), &empty)
    }
}

impl Handle<Group> {
    /// The substitution pairs a membership action on this group needs.
    fn member_params(&self, user_id: i32) -> (r: UrlParams)
        ensures
            params_model(r@) == seq![
                ("group_id"@, dec_int(self.spec_resource().spec_id() as int)),
                ("user_id"@, dec_int(user_id as int)),
            ],
    {
        let mut params: UrlParams = Vec::new();
        params.push((String::from_str("group_id"), crate::text::i32_to_dec(self.id())));
        params.push((String::from_str("user_id"), crate::text::i32_to_dec(user_id)));
        proof {
            assert(params_model(params@) =~= seq![
                ("group_id"@, dec_int(self.spec_resource().spec_id() as int)),
                ("user_id"@, dec_int(user_id as int)),
            ]);
        }
        params
    }

    /// Plan adding the user with this identifier to the group.
    pub fn add_user_plan(&self, user_id: i32) -> (r: RequestPlan)
        ensures
            r@.method == HttpMethod::Post,
            r@.url == url_of(
                self.spec_base(),
                Endpoint::GroupMembersAddRemove,
                seq![
                    ("group_id"@, dec_int(self.spec_resource().spec_id() as int)),
                    ("user_id"@, dec_int(user_id as int)),
                ],
            ),
            r@.bearer == Some(self.spec_token()),
            r@.send_json_body == true,
    {
        let params = self.member_params(user_id);
        let empty: Vec<QueryFilter> = Vec::new();
        match self.client.plan_request(
            HttpMethod::Post,
            &Endpoint::GroupMembersAddRemove,
            &params,
            &empty,
        ) {
            Ok(p) => p,
            Err(_) => vstd::pervasive::unreached(),
        }
    }

    /// Plan removing the user with this identifier from the group.
    pub fn remove_user_plan(&self, user_id: i32) -> (r: RequestPlan)
        ensures
            r@.method == HttpMethod::Delete,
            r@.url == url_of(
                self.spec_base(),
                Endpoint::GroupMembersAddRemove,
                seq![
                    ("group_id"@, dec_int(self.spec_resource().spec_id() as int)),
                    ("user_id"@, dec_int(user_id as int)),
                ],
            ),
            r@.bearer == Some(self.spec_token()),
            r@.send_json_body == false,
    {
        let params = self.member_params(user_id);
        let empty: Vec<QueryFilter> = Vec::new();
        match self.client.plan_request(
            HttpMethod::Delete,
            &Endpoint::GroupMembersAddRemove,
            &params,
            &empty,
        ) {
            Ok(p) => p,
            Err(_) => vstd::pervasive::unreached(),
        }
    }

    /// Plan the listing of the group's members.
    pub fn members_plan(&self) -> (r: RequestPlan)
        ensures
            r@.method == HttpMethod::Get,
            r@.url == url_of(
                self.spec_base(),
                Endpoint::GroupMembers,
                seq![("group_id"@, dec_int(self.spec_resource().spec_id() as int))],
            ),
            r@.bearer == Some(self.spec_token()),
            r@.send_json_body == false,
    {
        let mut params: UrlParams = Vec::new();
        params.push((String::from_str("group_id"), crate::text::i32_to_dec(self.id())));
        proof {
            assert(params_model(params@) =~= seq![
                ("group_id"@, dec_int(self.spec_resource().spec_id() as int)),
            ]);
        }
        let empty: Vec<QueryFilter> = Vec::new();
        proof {
            assert(filter_models(empty@) =~= Seq::<QueryFilterModel>::empty());
        }
        match self.client.plan_request(HttpMethod::Get, &Endpoint::GroupMembers, &params, &empty) {
            Ok(p) => p,
            Err(_) => vstd::pervasive::unreached(),
        }
    }
}

impl Handle<Namespace> {
    /// Plan the listing of the groups with permissions on this namespace.
    pub fn permissions_plan(&self) -> (r: RequestPlan)
        ensures
            r@.method == HttpMethod::Get,
            r@.url == url_of(
                self.spec_base(),
                Endpoint::NamespacePermissions,
                seq![("namespace_id"@, dec_int(self.spec_resource().spec_id() as int))],
            ),
            r@.bearer == Some(self.spec_token()),
            r@.send_json_body == false,
    {
        let mut params: UrlParams = Vec::new();
        params.push((String::from_str("namespace_id"), crate::text::i32_to_dec(self.id())));
        proof {
            assert(params_model(params@) =~= seq![
                ("namespace_id"@, dec_int(self.spec_resource().spec_id() as int)),
            ]);
        }
        let empty: Vec<QueryFilter> = Vec::new();
        proof {
            assert(filter_models(empty@) =~= Seq::<QueryFilterModel>::empty());
        }
        match self.client.plan_request(
            HttpMethod::Get,
            &Endpoint::NamespacePermissions,
            &params,
            &empty,
        ) {
            Ok(p) => p,
            Err(_) => vstd::pervasive::unreached(),
        }
    }
}

} // verus!
