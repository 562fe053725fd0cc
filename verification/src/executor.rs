//! The request executor, without the network: how a request is assembled
//! and how a reply becomes an outcome.
//!
//! Sending the request is left to the caller, who hands the reply back.

use vstd::multiset::Multiset;
use vstd::prelude::*;
use crate::outcome::{failure_reason, reason_of, Failure, FailureReason};
use crate::params::{RequestTask, RequestTaskView};
use crate::setup::SetupError;
use crate::transport::{
    error_display_text, error_text, error_timed_out, error_while_building, get, header,
    header_value_accepted, headers_held, holds_request, is_value_char, name_held,
    just_started, plain_header_name, request_held, request_parts, settings_kept, started,
    status_held, url_accepted, ClientView, RequestView,
};

verus! {

/// The seconds allowed for one request.
pub const REQUEST_TIMEOUT_SECS: u64 = 30;

/// The idle connections kept for each host.
pub const MAX_IDLE_PER_HOST: usize = 5000;

/// How the shared HTTP client is set up.
#[derive(Clone, Copy, Debug, PartialEq, Eq, Structural)]
pub struct ClientSettings {
    /// The seconds allowed for one request, from connecting to the end of
    /// the response.
    pub timeout_secs: u64,
    /// The idle connections kept for each host.
    pub pool_max_idle_per_host: usize,
}

impl ClientSettings {
    /// The settings of a run: 30 seconds for each request, and up to 5000
    /// idle connections for each host.
    pub fn standard() -> (settings: ClientSettings)
        ensures
            settings == (ClientSettings {
                timeout_secs: REQUEST_TIMEOUT_SECS,
                pool_max_idle_per_host: MAX_IDLE_PER_HOST,
            }),
    {
        ClientSettings {
            timeout_secs: REQUEST_TIMEOUT_SECS,
            pool_max_idle_per_host: MAX_IDLE_PER_HOST,
        }
    }
}

/// One header of a request.
#[derive(Debug)]
pub struct Header {
    pub name: String,
    pub value: String,
}

impl View for Header {
    type V = (Seq<char>, Seq<char>);

    open spec fn view(&self) -> (Seq<char>, Seq<char>) {
        (self.name@, self.value@)
    }
}

/// The views of a list of headers.
pub open spec fn headers_view(headers: Seq<Header>) -> Seq<(Seq<char>, Seq<char>)> {
    Seq::new(headers.len(), |i: int| headers[i]@)
}

/// The value of the authorization header for `token`.
pub open spec fn bearer_text(token: Seq<char>) -> Seq<char> {
    "Bearer "@ + token
}

/// The headers of the request for `task`, in the order in which they are
/// set: what is accepted, the authorization where the task has a token, and
/// the user agent.
pub open spec fn headers_of(task: RequestTaskView) -> Seq<(Seq<char>, Seq<char>)> {
    let accept = seq![("accept"@, "application/json"@)];
    let agent = seq![("user-agent"@, "rust-web-test/0.1.0"@)];
    match task.auth_token {
        Some(token) => accept + seq![("Authorization"@, bearer_text(token))] + agent,
        None => accept + agent,
    }
}

/// What a client with `settings` works with.
pub open spec fn settings_view(settings: ClientSettings) -> ClientView {
    ClientView {
        timeout: Some((settings.timeout_secs, 0u32)),
        idle_cap: settings.pool_max_idle_per_host,
    }
}

/// The shared HTTP client of a run: it allows each request the time of
/// `settings`, and keeps no more idle connections for a host than they
/// say. Whether a client can be made is for the machine to say.
pub fn new_client(settings: &ClientSettings) -> (client: Result<reqwest::Client, SetupError>)
    ensures
        client matches Ok(made) ==> settings_kept(made) == settings_view(*settings),
        client matches Err(error) ==> error == SetupError::ClientConstruction,
{
    let builder = reqwest::Client::builder();
    let builder = builder.timeout(core::time::Duration::from_secs(settings.timeout_secs));
    let builder = builder.pool_max_idle_per_host(settings.pool_max_idle_per_host);
    match builder.build() {
        Ok(client) => Ok(client),
        Err(_) => Err(SetupError::ClientConstruction),
    }
}

/// The value of the authorization header for `token`.
pub fn bearer_value(token: &str) -> (value: String)
    ensures
        value@ == bearer_text(token@),
{
    let mut value = String::from_str("Bearer ");
    value.append(token);
    value
}

/// The headers of the request for `task`.
pub fn request_headers(task: &RequestTask) -> (headers: Vec<Header>)
    ensures
        headers_view(headers@) == headers_of(task@),
{
    let mut headers: Vec<Header> = Vec::new();
    headers.push(
        Header { name: String::from_str("accept"), value: String::from_str("application/json") },
    );
    match &task.auth_token {
        Some(token) => {
            headers.push(
                Header {
                    name: String::from_str("Authorization"),
                    value: bearer_value(token.as_str()),
                },
            );
        },
        None => {},
    }
    headers.push(
        Header {
            name: String::from_str("user-agent"),
            value: String::from_str("rust-web-test/0.1.0"),
        },
    );
    headers
}

/// The failure that `error` is recorded as. An error met while a request
/// was assembled (`while_building`) is a failure of construction, whatever
/// the error says of itself; any other is a failure of construction, a
/// timeout or a transport failure, as the error says. The detail is what
/// the error says of itself.
pub fn failure_of(error: &reqwest::Error, while_building: bool) -> (failure: Failure)
    ensures
        failure.reason == reason_of(
            while_building || error_while_building(*error),
            error_timed_out(*error),
        ),
        failure.detail@ == error_display_text(*error),
{
    let reason = failure_reason(while_building || error.is_builder(), error.is_timeout());
    Failure { reason, detail: error_text(error) }
}

/// What becomes of an assembled request: handed on as it is, or a failure
/// of construction in place of the error.
pub fn assembled(built: Result<reqwest::Request, reqwest::Error>) -> (request: Result<
    reqwest::Request,
    Failure,
>)
    ensures
        built matches Ok(made) ==> request == Ok::<reqwest::Request, Failure>(made),
        built matches Err(error) ==> (request matches Err(failure) && failure.reason
            == FailureReason::Construction && failure.detail@ == error_display_text(error)),
{
    match built {
        Ok(made) => Ok(made),
        Err(error) => Err(failure_of(&error, true)),
    }
}

/// Whether `token` can be sent: there is none, or it is acceptable as the
/// value of a header.
pub open spec fn token_accepted(token: Option<Seq<char>>) -> bool {
    match token {
        Some(text) => header_value_accepted(text),
        None => true,
    }
}

/// The names of the headers of a request are plain, and their values are
/// acceptable but for the token, on which it depends whether the
/// authorization is.
pub proof fn lemma_headers_of(task: RequestTaskView)
    ensures
        1 <= headers_of(task).len() <= 3,
        forall|i: int|
            0 <= i < headers_of(task).len() ==> plain_header_name(#[trigger] headers_of(task)[i].0),
        (forall|i: int|
            0 <= i < headers_of(task).len() ==> header_value_accepted(
                #[trigger] headers_of(task)[i].1,
            )) <==> token_accepted(task.auth_token),
{
    reveal_strlit("accept");
    reveal_strlit("application/json");
    reveal_strlit("user-agent");
    reveal_strlit("rust-web-test/0.1.0");
    reveal_strlit("Authorization");
    reveal_strlit("Bearer ");
    let headers = headers_of(task);
    match task.auth_token {
        Some(token) => {
            let value = bearer_text(token);
            assert(headers[1].1 == value);
            if header_value_accepted(token) {
                assert forall|i: int| 0 <= i < value.len() implies is_value_char(
                    #[trigger] value[i],
                ) by {
                    if i >= 7 {
                        assert(value[i] == token[i - 7]);
                    } else {
                        assert(value[i] == "Bearer "@[i]);
                    }
                }
            }
            if header_value_accepted(value) {
                assert forall|i: int| 0 <= i < token.len() implies is_value_char(
                    #[trigger] token[i],
                ) by {
                    assert(token[i] == value[i + 7]);
                }
            }
        },
        None => {},
    }
}

/// Whether the values of the first `upto` of `headers` are acceptable.
pub open spec fn values_accepted(headers: Seq<(Seq<char>, Seq<char>)>, upto: int) -> bool {
    forall|j: int| 0 <= j < upto ==> header_value_accepted(#[trigger] headers[j].1)
}

/// `headers` as a request holds them once each is set: every name in small
/// letters, and no order between them.
pub open spec fn as_held(headers: Seq<(Seq<char>, Seq<char>)>) -> Multiset<(Seq<char>, Seq<char>)>
    decreases headers.len(),
{
    if headers.len() == 0 {
        Multiset::empty()
    } else {
        as_held(headers.drop_last()).insert((name_held(headers.last().0), headers.last().1))
    }
}

/// The headers that the request for `task` is sent with, as the request
/// holds them.
pub open spec fn headers_sent(task: RequestTaskView) -> Multiset<(Seq<char>, Seq<char>)> {
    let fixed = Multiset::empty().insert(("accept"@, "application/json"@)).insert(
        ("user-agent"@, "rust-web-test/0.1.0"@),
    );
    match task.auth_token {
        Some(token) => fixed.insert(("authorization"@, bearer_text(token))),
        None => fixed,
    }
}

/// The request for `task` that the HTTP client starts with `first`: the
/// same method and URL, and the headers of the task beside those that it
/// started with.
pub open spec fn request_for(first: RequestView, task: RequestTaskView) -> RequestView {
    RequestView { headers: first.headers.add(headers_sent(task)), ..first }
}

/// Set one after the other, the headers of a request are held as
/// `headers_sent` has them.
pub proof fn lemma_headers_sent(task: RequestTaskView)
    ensures
        as_held(headers_of(task)) == headers_sent(task),
{
    reveal_strlit("accept");
    reveal_strlit("user-agent");
    reveal_strlit("Authorization");
    reveal_strlit("authorization");
    reveal_with_fuel(as_held, 4);
    let headers = headers_of(task);
    assert(name_held("accept"@) =~= "accept"@);
    assert(name_held("user-agent"@) =~= "user-agent"@);
    assert(name_held("Authorization"@) =~= "authorization"@);
    assert(headers.drop_last().drop_last() =~= headers.take(headers.len() - 2));
    assert(as_held(headers) =~= headers_sent(task));
}

/// Assembles the GET request for `task`: its URL, and each header of
/// `request_headers` in order. The request is made where the HTTP client
/// accepts the URL and the token is acceptable as the value of a header; it
/// is then a GET to that URL with the headers of the task, beside the one
/// that the client sets of itself where the URL names a user. A failure is
/// one of construction.
pub fn build_request(client: &reqwest::Client, task: &RequestTask) -> (request: Result<
    reqwest::Request,
    Failure,
>)
    ensures
        request is Ok <==> url_accepted(task@.resolved_url) && token_accepted(task@.auth_token),
        request matches Ok(made) ==> (started(task@.resolved_url) matches Some(first)
            && just_started(first, task@.resolved_url) && request_parts(made) == request_for(
            first,
            task@,
        )),
        request matches Err(failure) ==> failure.reason == FailureReason::Construction,
{
    let headers = request_headers(task);
    let ghost planned = headers_view(headers@);
    proof {
        lemma_headers_of(task@);
        lemma_headers_sent(task@);
    }
    let mut builder = get(client, task.resolved_url.as_str());
    proof {
        assert(planned.take(0) =~= Seq::empty());
        if let Some(first) = started(task@.resolved_url) {
            assert(first.headers.add(as_held(planned.take(0))) =~= first.headers);
        }
    }
    let mut i: usize = 0;
    while i < headers.len()
        invariant
            i <= headers.len() <= 3,
            planned == headers_view(headers@),
            forall|j: int| 0 <= j < planned.len() ==> plain_header_name(#[trigger] planned[j].0),
            headers_held(builder) <= 1 + i,
            holds_request(builder) <==> url_accepted(task@.resolved_url) && values_accepted(
                planned,
                i as int,
            ),
            request_held(builder) matches Some(held) ==> (started(task@.resolved_url) matches Some(
                first,
            ) && just_started(first, task@.resolved_url) && held == (RequestView {
                headers: first.headers.add(as_held(planned.take(i as int))),
                ..first
            })),
        decreases headers.len() - i,
    {
        assert(plain_header_name(planned[i as int].0));
        assert(values_accepted(planned, i + 1) <==> values_accepted(planned, i as int)
            && header_value_accepted(planned[i as int].1));
        assert(planned.take(i + 1).drop_last() =~= planned.take(i as int));
        builder = header(builder, headers[i].name.as_str(), headers[i].value.as_str());
        proof {
            if let Some(after) = request_held(builder) {
                let first = started(task@.resolved_url).unwrap();
                assert(after.headers =~= first.headers.add(as_held(planned.take(i + 1))));
            }
        }
        i = i + 1;
    }
    assert(planned.take(i as int) =~= planned);
    assembled(builder.build())
}

/// What a request that was sent ended with: the status code of the
/// response, or the failure that the error is recorded as.
pub fn read_reply(reply: Result<reqwest::Response, reqwest::Error>) -> (attempt: Result<
    u16,
    Failure,
>)
    ensures
        reply matches Ok(response) ==> attempt == Ok::<u16, Failure>(status_held(response)),
        reply matches Err(error) ==> (attempt matches Err(failure) && failure.reason == reason_of(
            error_while_building(error),
            error_timed_out(error),
        ) && failure.detail@ == error_display_text(error)),
        attempt matches Ok(status_code) ==> 100 <= status_code <= 999,
{
    match reply {
        Ok(response) => Ok(response.status().as_u16()),
        Err(error) => Err(failure_of(&error, false)),
    }
}

} // verus!
