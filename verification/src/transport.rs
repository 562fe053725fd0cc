//! The HTTP client as this library sees it.
//!
//! Requests are assembled and replies are read with `reqwest`. Its types are
//! opaque here, and nothing in this file is proved: each item states what
//! is taken on trust of one function of `reqwest`, or of `std`.

use vstd::multiset::Multiset;
use vstd::prelude::*;

verus! {

/// The HTTP client of `reqwest`, with its pool of connections.
#[verifier::external_type_specification]
#[verifier::external_body]
pub struct ExClient(reqwest::Client);

/// A client of `reqwest` that is being set up.
#[verifier::external_type_specification]
#[verifier::external_body]
pub struct ExClientBuilder(reqwest::ClientBuilder);

/// A request of `reqwest` that is being assembled.
#[verifier::external_type_specification]
#[verifier::external_body]
pub struct ExRequestBuilder(reqwest::RequestBuilder);

/// A request of `reqwest`, ready to be sent.
#[verifier::external_type_specification]
#[verifier::external_body]
pub struct ExRequest(reqwest::Request);

/// A response as `reqwest` hands it over.
#[verifier::external_type_specification]
#[verifier::external_body]
pub struct ExResponse(reqwest::Response);

/// An error of `reqwest`.
#[verifier::external_type_specification]
#[verifier::external_body]
pub struct ExError(reqwest::Error);

/// The status of a response.
#[verifier::external_type_specification]
#[verifier::external_body]
pub struct ExStatusCode(reqwest::StatusCode);

/// What this library sets of an HTTP client.
pub ghost struct ClientView {
    /// The time allowed for a whole request, in seconds and nanoseconds;
    /// none where the time is not bounded.
    pub timeout: Option<(u64, u32)>,
    /// The largest number of idle connections kept for each host.
    pub idle_cap: usize,
}

/// The whole seconds of `duration`, and the nanoseconds beyond them.
pub uninterp spec fn duration_parts(duration: core::time::Duration) -> (u64, u32);

/// What `builder` is set to.
pub uninterp spec fn settings_set(builder: reqwest::ClientBuilder) -> ClientView;

/// What `client` works with.
pub uninterp spec fn settings_kept(client: reqwest::Client) -> ClientView;

/// `std::time::Duration::from_secs`: a duration of whole seconds, with no
/// nanoseconds beyond them.
pub assume_specification[ core::time::Duration::from_secs ](secs: u64) -> (duration:
    core::time::Duration)
    ensures
        duration_parts(duration) == (secs, 0u32),
;

/// `reqwest::Client::builder`: a client builder with the defaults of
/// `reqwest`. Nothing is claimed of the result.
pub assume_specification[ reqwest::Client::builder ]() -> (builder: reqwest::ClientBuilder);

/// `reqwest::ClientBuilder::timeout`: sets the time allowed for a whole
/// request, and leaves the cap on idle connections as it was.
pub assume_specification[ reqwest::ClientBuilder::timeout ](
    builder: reqwest::ClientBuilder,
    timeout: core::time::Duration,
) -> (configured: reqwest::ClientBuilder)
    ensures
        settings_set(configured) == (ClientView {
            timeout: Some(duration_parts(timeout)),
            ..settings_set(builder)
        }),
;

/// `reqwest::ClientBuilder::pool_max_idle_per_host`: caps the idle
/// connections kept for each host, and leaves the time allowed for a
/// request as it was.
pub assume_specification[ reqwest::ClientBuilder::pool_max_idle_per_host ](
    builder: reqwest::ClientBuilder,
    max: usize,
) -> (configured: reqwest::ClientBuilder)
    ensures
        settings_set(configured) == (ClientView { idle_cap: max, ..settings_set(builder) }),
;

/// `reqwest::ClientBuilder::build`: the client, or the error met while
/// setting it up. Which of the two comes back depends on the machine. A
/// client that is made works with what the builder was set to.
pub assume_specification[ reqwest::ClientBuilder::build ](builder: reqwest::ClientBuilder) -> (client:
    Result<reqwest::Client, reqwest::Error>)
    ensures
        client matches Ok(made) ==> settings_kept(made) == settings_set(builder),
;

/// A request as this library sees it: what is asked, of whom, and with
/// which headers.
pub ghost struct RequestView {
    /// The method, as its name reads: `GET` for one.
    pub method: Seq<char>,
    /// The URL, as `reqwest` writes it once it has parsed it.
    pub url: Seq<char>,
    /// The headers, each with its name in small letters and with the text
    /// of its value. A header that was set twice is held twice.
    pub headers: Multiset<(Seq<char>, Seq<char>)>,
}

/// The request that `reqwest` starts for the URL text `url`; none where it
/// does not take the text, which is where it does not parse as a URL or the
/// URL names no host.
pub uninterp spec fn started(url: Seq<char>) -> Option<RequestView>;

/// The request that `builder` holds; none where it holds an error in place
/// of one.
pub uninterp spec fn request_held(builder: reqwest::RequestBuilder) -> Option<RequestView>;

/// What `request` holds.
pub uninterp spec fn request_parts(request: reqwest::Request) -> RequestView;

/// Whether `reqwest` takes `url` as the URL of a request.
pub open spec fn url_accepted(url: Seq<char>) -> bool {
    started(url) is Some
}

/// Whether `builder` holds a request, and not an error in place of one.
pub open spec fn holds_request(builder: reqwest::RequestBuilder) -> bool {
    request_held(builder) is Some
}

/// The number of headers in the request that `builder` holds; zero where
/// it holds an error in place of a request.
pub open spec fn headers_held(builder: reqwest::RequestBuilder) -> nat {
    match request_held(builder) {
        Some(request) => request.headers.len(),
        None => 0,
    }
}

/// A number of headers below which a request can always take another. The
/// header map that `reqwest` keeps them in panics when it can grow no more,
/// which takes thousands of headers, or more than a hundred where their
/// names are chosen to collide.
pub const HEADER_ROOM: usize = 64;

/// Whether `c` may stand in the value of a header: a tab, or any character
/// that is no control character.
pub open spec fn is_value_char(c: char) -> bool {
    c == '\t' || (c as u32 >= 32 && c as u32 != 127)
}

/// Whether `value` is taken as the value of a header: each of its
/// characters may stand in one.
pub open spec fn header_value_accepted(value: Seq<char>) -> bool {
    forall|i: int| 0 <= i < value.len() ==> is_value_char(#[trigger] value[i])
}

/// Whether `c` is a letter or digit of ASCII, or a hyphen.
pub open spec fn is_plain_name_char(c: char) -> bool {
    ||| 97 <= c as u32 <= 122
    ||| 65 <= c as u32 <= 90
    ||| 48 <= c as u32 <= 57
    ||| c == '-'
}

/// Whether `name` is a plain name for a header: up to 64 letters and digits
/// of ASCII and hyphens, and at least one. Such a name is always taken;
/// some others are taken too.
pub open spec fn plain_header_name(name: Seq<char>) -> bool {
    &&& 1 <= name.len() <= 64
    &&& forall|i: int| 0 <= i < name.len() ==> is_plain_name_char(#[trigger] name[i])
}

/// `c`, or the small letter for it where it is a capital letter of ASCII.
pub open spec fn lowered_char(c: char) -> char {
    if 65 <= c as u32 <= 90 {
        ((c as u32 + 32) as u8) as char
    } else {
        c
    }
}

/// The name under which a header is held: `name` in small letters.
pub open spec fn name_held(name: Seq<char>) -> Seq<char> {
    Seq::new(name.len(), |i: int| lowered_char(name[i]))
}

/// `request` with one more header.
pub open spec fn with_header(request: RequestView, name: Seq<char>, value: Seq<char>) -> RequestView {
    RequestView { headers: request.headers.insert((name_held(name), value)), ..request }
}

/// What holds of a request that `reqwest` has just started for the URL
/// text `url`. It is a GET. It has no header, but for one that the client
/// makes where the URL names a user: that one is an authorization header,
/// and a URL without an `@` names no user.
pub open spec fn just_started(request: RequestView, url: Seq<char>) -> bool {
    &&& request.method == "GET"@
    &&& request.headers.len() <= 1
    &&& forall|held: (Seq<char>, Seq<char>)| #[trigger]
        request.headers.contains(held) ==> held.0 == "authorization"@
    &&& !url.contains('@') ==> request.headers.len() == 0
}

/// `reqwest::Client::get`: starts a request to `url`. The builder holds
/// the request that `reqwest` starts for that text, or an error where it
/// starts none.
#[verifier::external_body]
pub(crate) fn get(client: &reqwest::Client, url: &str) -> (builder: reqwest::RequestBuilder)
    ensures
        request_held(builder) == started(url@),
        request_held(builder) matches Some(request) ==> just_started(request, url@),
{
    client.get(url)
}

/// `reqwest::RequestBuilder::header`: adds one header. A builder that holds
/// an error stays as it is. A builder that holds a request takes the header
/// where name and value are acceptable, and holds an error from then on
/// where one of them is not. A header that is taken is held under its name
/// in small letters, beside those that the request had; method and URL stay
/// as they were. A value is acceptable where none of its bytes is a control
/// character other than a tab, which for a text is what
/// `header_value_accepted` says; of the names only so much is claimed, that
/// a plain one is acceptable.
#[verifier::external_body]
pub(crate) fn header(builder: reqwest::RequestBuilder, name: &str, value: &str) -> (extended:
    reqwest::RequestBuilder)
    requires
        headers_held(builder) < HEADER_ROOM,
    ensures
        request_held(extended) matches Some(after) ==> header_value_accepted(value@) && (
        request_held(builder) matches Some(before) && after == with_header(
            before,
            name@,
            value@,
        )),
        holds_request(builder) && plain_header_name(name@) && header_value_accepted(value@)
            ==> holds_request(extended),
{
    builder.header(name, value)
}

/// `reqwest::RequestBuilder::build`: the request that the builder holds, or
/// the error that it holds in place of one.
pub assume_specification[ reqwest::RequestBuilder::build ](builder: reqwest::RequestBuilder) -> (request:
    Result<reqwest::Request, reqwest::Error>)
    ensures
        request is Ok <==> holds_request(builder),
        request matches Ok(made) ==> request_held(builder) == Some(request_parts(made)),
;

/// Whether `error` arose while a request or a client was assembled.
pub uninterp spec fn error_while_building(error: reqwest::Error) -> bool;

/// Whether `error` is a timeout, or was caused by one.
pub uninterp spec fn error_timed_out(error: reqwest::Error) -> bool;

/// What the `Display` form of `error` reads.
pub uninterp spec fn error_display_text(error: reqwest::Error) -> Seq<char>;

/// `reqwest::Error::is_builder`: whether the error arose while a request or
/// a client was assembled, which depends on nothing but the error.
pub assume_specification[ reqwest::Error::is_builder ](error: &reqwest::Error) -> (while_building:
    bool)
    ensures
        while_building == error_while_building(*error),
;

/// `reqwest::Error::is_timeout`: whether the error is a timeout or was
/// caused by one, which depends on nothing but the error.
pub assume_specification[ reqwest::Error::is_timeout ](error: &reqwest::Error) -> (timed_out: bool)
    ensures
        timed_out == error_timed_out(*error),
;

/// The `Display` form of a `reqwest::Error`, through `to_string`: what the
/// error says of itself, which is the kind of error it is and the URL it
/// came up for. The text depends on nothing but the error.
#[verifier::external_body]
pub(crate) fn error_text(error: &reqwest::Error) -> (text: String)
    ensures
        text@ == error_display_text(*error),
{
    error.to_string()
}

/// The number of the status that `response` holds.
pub uninterp spec fn status_held(response: reqwest::Response) -> u16;

/// The number of `status`.
pub uninterp spec fn status_number(status: reqwest::StatusCode) -> u16;

/// `reqwest::Response::status`: the status that the response holds.
pub assume_specification[ reqwest::Response::status ](response: &reqwest::Response) -> (status:
    reqwest::StatusCode)
    ensures
        status_number(status) == status_held(*response),
;

/// `reqwest::StatusCode::as_u16`: the number of a status. A status can
/// only be made of a number from 100 to 999.
pub assume_specification[ reqwest::StatusCode::as_u16 ](status: &reqwest::StatusCode) -> (code: u16)
    ensures
        code == status_number(*status),
        100 <= code <= 999,
;

/// What the `Display` form of the status with number `code` reads, such as
/// `200 OK`.
pub uninterp spec fn status_display_text(code: u16) -> Seq<char>;

/// `reqwest::StatusCode::from_u16`, then the `Display` form of the status,
/// through `to_string`. There is a status for the numbers from 100 to 999
/// and for no other; its text depends on nothing but the number.
#[verifier::external_body]
pub(crate) fn status_display(code: u16) -> (text: Option<String>)
    ensures
        text is Some <==> 100 <= code <= 999,
        text matches Some(shown) ==> shown@ == status_display_text(code),
{
    match reqwest::StatusCode::from_u16(code) {
        Ok(status) => Some(status.to_string()),
        Err(_) => None,
    }
}

} // verus!
