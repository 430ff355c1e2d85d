//! The rules by which a request is planned and an answer judged.
//!
//! A request is planned as plain values (method, URL, bearer token, headers,
//! query, timeout); the transport performs the plan.

use vstd::prelude::*;

use crate::externs::push_char;
use crate::sdk_core::config::Config;
use crate::sdk_core::error::{ApiError, ApiErrorEnvelope, OpenAIError};
use crate::sdk_core::request_options::RequestOptions;
use crate::text::{chars_of, opt_string_view, string_from_chars, trim_end_char, trim_start_char};

verus! {

/// The `User-Agent` that the SDK sends.
pub const USER_AGENT: &'static str = "open_ai_sdk-rust/0.1.0";

/// The name of the `User-Agent` header.
pub const USER_AGENT_HEADER: &'static str = "user-agent";

/// The header that names the organization.
pub const ORGANIZATION_HEADER: &'static str = "OpenAI-Organization";

/// The header that names the project.
pub const PROJECT_HEADER: &'static str = "OpenAI-Project";

/// The header that carries an idempotency key.
pub const IDEMPOTENCY_HEADER: &'static str = "Idempotency-Key";

/// The header that names the media types that an answer may have.
pub const ACCEPT_HEADER: &'static str = "accept";

/// The media type of a stream of server-sent events.
pub const EVENT_STREAM: &'static str = "text/event-stream";

/// The HTTP methods that the SDK uses.
#[derive(Clone, Copy, Debug, PartialEq, Eq, Structural)]
pub enum HttpMethod {
    Get,
    Post,
    Delete,
}

/// A request, planned as plain values.
#[derive(Clone, Debug)]
pub struct RequestPlan {
    pub method: HttpMethod,
    pub url: String,
    /// The token sent as `Authorization: Bearer <token>`.
    pub bearer_token: String,
    /// The other headers, in the order in which they are sent.
    pub headers: Vec<(String, String)>,
    /// The query parameters; none are sent where this is empty.
    pub query: Vec<(String, String)>,
    pub timeout: Option<std::time::Duration>,
}

/// The URL of `path` under `base`: `base` without its trailing slashes, one
/// slash, and `path` without its leading slashes.
pub open spec fn join_url(base: Seq<char>, path: Seq<char>) -> Seq<char> {
    trim_end_char(base, '/') + seq!['/'] + trim_start_char(path, '/')
}

/// The views of a list of name-value pairs.
pub open spec fn pair_views(pairs: Seq<(String, String)>) -> Seq<(Seq<char>, Seq<char>)> {
    pairs.map_values(|p: (String, String)| (p.0@, p.1@))
}

/// A header, where there is a value.
pub open spec fn optional_header(name: Seq<char>, value: Option<String>) -> Seq<(Seq<char>, Seq<char>)> {
    match value {
        Some(v) => seq![(name, v@)],
        None => Seq::empty(),
    }
}

/// The idempotency key of a request's options.
pub open spec fn options_idempotency_key(options: Option<RequestOptions>) -> Option<String> {
    match options {
        Some(o) => o.idempotency_key,
        None => None,
    }
}

/// The extra headers of a request's options.
pub open spec fn options_headers(options: Option<RequestOptions>) -> Seq<(String, String)> {
    match options {
        Some(o) => o.headers@,
        None => Seq::empty(),
    }
}

/// The query parameters of a request's options.
pub open spec fn options_query(options: Option<RequestOptions>) -> Seq<(String, String)> {
    match options {
        Some(o) => o.query@,
        None => Seq::empty(),
    }
}

/// The timeout of a request's options.
pub open spec fn options_timeout(options: Option<RequestOptions>) -> Option<std::time::Duration> {
    match options {
        Some(o) => o.timeout,
        None => None,
    }
}

/// The headers of a request besides the bearer token: the user agent, the
/// organization and project of the configuration where it names them, the
/// idempotency key where the options give one, then the options' headers.
pub open spec fn planned_headers(config: Config, options: Option<RequestOptions>) -> Seq<
    (Seq<char>, Seq<char>),
> {
    seq![(USER_AGENT_HEADER@, USER_AGENT@)] + optional_header(
        ORGANIZATION_HEADER@,
        config.organization,
    ) + optional_header(PROJECT_HEADER@, config.project) + optional_header(
        IDEMPOTENCY_HEADER@,
        options_idempotency_key(options),
    ) + pair_views(options_headers(options))
}

/// The base URL of a request: the options' one where they give one, and the
/// configuration's otherwise.
pub open spec fn planned_base_url(config: Config, options: Option<RequestOptions>) -> Seq<char> {
    match options {
        Some(o) => match o.base_url {
            Some(b) => b@,
            None => config.base_url@,
        },
        None => config.base_url@,
    }
}

/// The URL of `path` under `base`.
pub fn join_url_exec(base: &str, path: &str) -> (url: String)
    ensures
        url@ == join_url(base@, path@),
{
    let b = chars_of(base);
    let p = chars_of(path);
    let mut end = b.len();
    proof {
        assert(b@.subrange(0, b@.len() as int) =~= b@);
    }
    while end > 0 && b[end - 1] == '/'
        invariant
            end <= b.len(),
            trim_end_char(b@.subrange(0, end as int), '/') == trim_end_char(b@, '/'),
        decreases end,
    {
        assert(b@.subrange(0, end as int).drop_last() =~= b@.subrange(0, end - 1));
        end = end - 1;
    }
    let mut start: usize = 0;
    proof {
        assert(p@.subrange(0, p@.len() as int) =~= p@);
    }
    while start < p.len() && p[start] == '/'
        invariant
            start <= p.len(),
            trim_start_char(p@.subrange(start as int, p@.len() as int), '/') == trim_start_char(
                p@,
                '/',
            ),
        decreases p.len() - start,
    {
        assert(p@.subrange(start as int, p@.len() as int).drop_first() =~= p@.subrange(
            start + 1,
            p@.len() as int,
        ));
        start = start + 1;
    }
    let mut url = string_from_chars(&b, 0, end);
    push_char(&mut url, '/');
    let tail = string_from_chars(&p, start, p.len());
    url.append(tail.as_str());
    assert(url@ =~= join_url(base@, path@));
    url
}

/// Appends a header.
fn push_header(headers: &mut Vec<(String, String)>, name: &str, value: &String)
    ensures
        pair_views(final(headers)@) == pair_views(old(headers)@).push((name@, value@)),
{
    let ghost h0 = headers@;
    headers.push((String::from_str(name), value.clone()));
    assert(pair_views(headers@) =~= pair_views(h0).push((name@, value@)));
}

/// Plans a request with `method` to `path`, for a client with `config` and
/// with the request's `options` (none: the defaults): the URL joins the
/// options' base URL, or else the configuration's, with `path`; the API key
/// is the bearer token; the headers are those of `planned_headers`; the
/// query and timeout are the options'.
pub fn plan_request(
    config: &Config,
    method: HttpMethod,
    path: &str,
    options: Option<RequestOptions>,
) -> (plan: RequestPlan)
    ensures
        plan.method == method,
        plan.url@ == join_url(planned_base_url(*config, options), path@),
        plan.bearer_token@ == config.api_key@,
        pair_views(plan.headers@) == planned_headers(*config, options),
        plan.query@ == options_query(options),
        plan.timeout == options_timeout(options),
{
    let ghost given = options;
    let options = match options {
        Some(o) => o,
        None => RequestOptions::new(),
    };
    let url = match &options.base_url {
        Some(b) => join_url_exec(b.as_str(), path),
        None => join_url_exec(config.base_url.as_str(), path),
    };
    let mut headers: Vec<(String, String)> = Vec::new();
    let ua = String::from_str(USER_AGENT);
    push_header(&mut headers, USER_AGENT_HEADER, &ua);
    if let Some(org) = &config.organization {
        push_header(&mut headers, ORGANIZATION_HEADER, org);
    }
    let ghost h1 = pair_views(headers@);
    if let Some(project) = &config.project {
        push_header(&mut headers, PROJECT_HEADER, project);
    }
    let ghost h2 = pair_views(headers@);
    if let Some(key) = &options.idempotency_key {
        push_header(&mut headers, IDEMPOTENCY_HEADER, key);
    }
    let ghost h3 = pair_views(headers@);
    let mut i: usize = 0;
    while i < options.headers.len()
        invariant
            i <= options.headers@.len(),
            pair_views(headers@) == h3 + pair_views(options.headers@).take(i as int),
        decreases options.headers@.len() - i,
    {
        let ghost hb = headers@;
        let (name, value) = &options.headers[i];
        headers.push((name.clone(), value.clone()));
        proof {
            assert(pair_views(headers@) =~= pair_views(hb).push((name@, value@)));
            assert(pair_views(options.headers@).take(i + 1) =~= pair_views(options.headers@).take(
                i as int,
            ).push((name@, value@)));
        }
        i = i + 1;
    }
    proof {
        assert(pair_views(options.headers@).take(options.headers@.len() as int) =~= pair_views(
            options.headers@,
        ));
        assert(pair_views(headers@) =~= planned_headers(*config, given));
    }
    RequestPlan {
        method,
        url,
        bearer_token: config.api_key.clone(),
        headers,
        query: options.query,
        timeout: options.timeout,
    }
}

/// Plans a streamed request to `path`: a `POST` planned as `plan_request`
/// plans it, which asks for server-sent events by an `Accept` header after
/// the other headers.
pub fn plan_stream_request(config: &Config, path: &str, options: Option<RequestOptions>) -> (plan:
    RequestPlan)
    ensures
        plan.method == HttpMethod::Post,
        plan.url@ == join_url(planned_base_url(*config, options), path@),
        plan.bearer_token@ == config.api_key@,
        pair_views(plan.headers@) == planned_headers(*config, options).push(
            (ACCEPT_HEADER@, EVENT_STREAM@),
        ),
        plan.query@ == options_query(options),
        plan.timeout == options_timeout(options),
{
    let mut plan = plan_request(config, HttpMethod::Post, path, options);
    let accept = String::from_str(EVENT_STREAM);
    push_header(&mut plan.headers, ACCEPT_HEADER, &accept);
    plan
}

/// The statuses that `StatusCode::is_success` accepts: 200 to 299.
pub open spec fn is_success_status(status: u16) -> bool {
    200 <= status < 300
}

/// Tests whether an answer's status is a success.
pub fn status_is_success(status: u16) -> (r: bool)
    ensures
        r == is_success_status(status),
{
    200 <= status && status < 300
}

/// The error for an answer with a failure `status`, given its `body` and the
/// envelope parsed from that body (none where it did not parse): the message
/// is the API's own where the envelope holds an error object, and the body
/// otherwise.
pub fn api_error(status: u16, envelope: Option<ApiErrorEnvelope>, body: String) -> (e: OpenAIError)
    ensures
        ({
            let error = match envelope {
                Some(env) => env.error,
                None => None,
            };
            e == OpenAIError::Api {
                status,
                message: match error {
                    Some(a) => a.message,
                    None => body,
                },
                error,
            }
        }),
{
    let error = match envelope {
        Some(env) => env.error,
        None => None,
    };
    let message = match &error {
        Some(a) => a.message.clone(),
        None => body,
    };
    OpenAIError::Api { status, message, error }
}

/// Where the path of a request goes does not depend on slashes at the seam:
/// a base URL with one more trailing slash, and a path with one more leading
/// slash, give the same URL.
pub proof fn lemma_join_url_slashes(base: Seq<char>, path: Seq<char>)
    ensures
        join_url(base.push('/'), path) == join_url(base, path),
        join_url(base, seq!['/'] + path) == join_url(base, path),
{
    assert(base.push('/').drop_last() =~= base);
    assert((seq!['/'] + path).drop_first() =~= path);
}

/// The names of the headers that the SDK itself sends are distinct.
proof fn lemma_header_names_distinct()
    ensures
        USER_AGENT_HEADER@ != ORGANIZATION_HEADER@,
        USER_AGENT_HEADER@ != PROJECT_HEADER@,
        IDEMPOTENCY_HEADER@ != ORGANIZATION_HEADER@,
        IDEMPOTENCY_HEADER@ != PROJECT_HEADER@,
        ORGANIZATION_HEADER@ != PROJECT_HEADER@,
{
    reveal_strlit("user-agent");
    reveal_strlit("OpenAI-Organization");
    reveal_strlit("OpenAI-Project");
    reveal_strlit("Idempotency-Key");
    assert(USER_AGENT_HEADER@.len() != ORGANIZATION_HEADER@.len());
    assert(USER_AGENT_HEADER@.len() != PROJECT_HEADER@.len());
    assert(IDEMPOTENCY_HEADER@.len() != ORGANIZATION_HEADER@.len());
    assert(IDEMPOTENCY_HEADER@[0] != PROJECT_HEADER@[0]);
    assert(ORGANIZATION_HEADER@.len() != PROJECT_HEADER@.len());
}

/// No header of `h` has the name `n`.
pub open spec fn lacks_header(h: Seq<(Seq<char>, Seq<char>)>, n: Seq<char>) -> bool {
    forall|i: int| 0 <= i < h.len() ==> (#[trigger] h[i]).0 != n
}

/// The headers that the configuration asks for depend on it alone and come
/// first: the user agent; then `OpenAI-Organization` with the organization
/// where one is configured; then `OpenAI-Project` with the project where
/// one is configured, whether or not an organization is, and whatever the
/// request's options are. Neither header is sent where its field is not
/// configured, unless the options' own headers name it.
pub proof fn lemma_configured_headers(config: Config, options: Option<RequestOptions>)
    ensures
        ({
            let h = planned_headers(config, options);
            let project_at = if config.organization is Some {
                2int
            } else {
                1int
            };
            &&& h[0] == (USER_AGENT_HEADER@, USER_AGENT@)
            &&& config.organization matches Some(o) ==> h[1] == (ORGANIZATION_HEADER@, o@)
            &&& config.project matches Some(p) ==> h[project_at] == (PROJECT_HEADER@, p@)
            &&& config.organization is None && lacks_header(
                pair_views(options_headers(options)),
                ORGANIZATION_HEADER@,
            ) ==> lacks_header(h, ORGANIZATION_HEADER@)
            &&& config.project is None && lacks_header(
                pair_views(options_headers(options)),
                PROJECT_HEADER@,
            ) ==> lacks_header(h, PROJECT_HEADER@)
        }),
{
    lemma_header_names_distinct();
    let h = planned_headers(config, options);
    let ua: Seq<(Seq<char>, Seq<char>)> = seq![(USER_AGENT_HEADER@, USER_AGENT@)];
    let org = optional_header(ORGANIZATION_HEADER@, config.organization);
    let proj = optional_header(PROJECT_HEADER@, config.project);
    let idem = optional_header(IDEMPOTENCY_HEADER@, options_idempotency_key(options));
    let extra = pair_views(options_headers(options));
    assert(h == ua + org + proj + idem + extra);
    assert(h[0] == ua[0]);
    if let Some(o) = config.organization {
        assert(h[1] == org[0]);
    }
    if let Some(p) = config.project {
        let at = (ua + org).len() as int;
        assert(h[at] == proj[0]);
    }
    assert forall|n: Seq<char>|
        (n == ORGANIZATION_HEADER@ || n == PROJECT_HEADER@) && lacks_header(org, n) && lacks_header(
            proj,
            n,
        ) && lacks_header(extra, n) implies lacks_header(h, n) by {
        assert forall|i: int| 0 <= i < h.len() implies (#[trigger] h[i]).0 != n by {
            let a = ua.len() as int;
            let b = a + org.len();
            let c = b + proj.len();
            let d = c + idem.len();
            if i < a {
                assert(h[i] == ua[i]);
            } else if i < b {
                assert(h[i] == org[i - a]);
            } else if i < c {
                assert(h[i] == proj[i - b]);
            } else if i < d {
                assert(h[i] == idem[i - c]);
            } else {
                assert(h[i] == extra[i - d]);
            }
        }
    }
}

/// A request's options add headers after the configured ones and take none
/// away: the headers planned with options are those planned without any,
/// then the idempotency key's header where the options give a key, then the
/// options' own headers in their order; what the options add does not
/// depend on the configuration.
pub proof fn lemma_options_extend_headers(config: Config, other: Config, o: RequestOptions)
    ensures
        planned_headers(config, Some(o)) == planned_headers(config, None) + optional_header(
            IDEMPOTENCY_HEADER@,
            o.idempotency_key,
        ) + pair_views(o.headers@),
        planned_headers(config, Some(o)).skip(planned_headers(config, None).len() as int)
            == planned_headers(other, Some(o)).skip(planned_headers(other, None).len() as int),
{
    let empty: Seq<(String, String)> = Seq::empty();
    assert(pair_views(empty) =~= Seq::<(Seq<char>, Seq<char>)>::empty());
    let tail = optional_header(IDEMPOTENCY_HEADER@, o.idempotency_key) + pair_views(o.headers@);
    assert(planned_headers(config, None) + Seq::<(Seq<char>, Seq<char>)>::empty()
        =~= planned_headers(config, None));
    assert(planned_headers(other, None) + Seq::<(Seq<char>, Seq<char>)>::empty()
        =~= planned_headers(other, None));
    assert(planned_headers(config, Some(o)) =~= planned_headers(config, None) + tail);
    assert(planned_headers(other, Some(o)) =~= planned_headers(other, None) + tail);
    assert((planned_headers(config, None) + tail).skip(planned_headers(config, None).len() as int)
        =~= tail);
    assert((planned_headers(other, None) + tail).skip(planned_headers(other, None).len() as int)
        =~= tail);
}

/// What a request's options set replaces the configuration's, and nothing
/// else does: the base URL is the options' where they give one and the
/// configuration's otherwise; the query and timeout are the options', and
/// without options there is no query and no timeout of the request's own.
pub proof fn lemma_options_apply(config: Config, o: RequestOptions)
    ensures
        planned_base_url(config, None) == config.base_url@,
        o.base_url matches Some(b) ==> planned_base_url(config, Some(o)) == b@,
        o.base_url is None ==> planned_base_url(config, Some(o)) == config.base_url@,
        options_query(Some(o)) == o.query@,
        options_query(None) == Seq::<(String, String)>::empty(),
        options_timeout(Some(o)) == o.timeout,
        options_timeout(None) is None,
{
}

/// Where neither side of the seam has a slash, the URL is the base URL, one
/// slash, and the path.
pub proof fn lemma_join_url_plain(base: Seq<char>, path: Seq<char>)
    requires
        base.len() == 0 || base.last() != '/',
        path.len() == 0 || path[0] != '/',
    ensures
        join_url(base, path) == base + seq!['/'] + path,
{
}

} // verus!
