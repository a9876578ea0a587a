//! Type for making a generic request to the Matrix API.

use vstd::prelude::*;
use vstd::string::*;
use crate::codec::{FromJson, ToJson};
use crate::dict::Dict;
use crate::errors::{result_view, MatrixError, MatrixErrorView, MatrixResult};
use crate::json::{json_parse, json_text, parse, print, Json, JsonView};
use crate::request::apis::r0::ClientApi;
use crate::text::{digit_char, owned, str_eq};
use crate::types::replies::BadRequestReply;

pub mod apis;

verus! {

/// A request method.
#[derive(Debug, Clone, Copy, PartialEq, Eq, Structural)]
pub enum Method {
    Get,
    Post,
    Put,
    Delete,
    Head,
    Options,
    Patch,
}

impl Method {
    /// The method's name on the wire.
    pub open spec fn name(self) -> Seq<char> {
        match self {
            Method::Get => "GET"@,
            Method::Post => "POST"@,
            Method::Put => "PUT"@,
            Method::Delete => "DELETE"@,
            Method::Head => "HEAD"@,
            Method::Options => "OPTIONS"@,
            Method::Patch => "PATCH"@,
        }
    }

    /// The method's name on the wire.
    pub fn as_str(&self) -> (r: &'static str)
        ensures
            r@ == self.name(),
    {
        match self {
            Method::Get => "GET",
            Method::Post => "POST",
            Method::Put => "PUT",
            Method::Delete => "DELETE",
            Method::Head => "HEAD",
            Method::Options => "OPTIONS",
            Method::Patch => "PATCH",
        }
    }
}

/// An HTTP request that is ready to be sent: method, address, and the bytes of the body.
#[derive(Debug, PartialEq)]
pub struct HttpRequest {
    pub method: Method,
    pub uri: String,
    /// The value of the `Content-Type` header, where the request has one.
    pub content_type: Option<String>,
    /// The body; empty where the request has none.
    pub body: Vec<u8>,
}

/// The mathematical value of a request.
pub ghost struct HttpRequestView {
    pub method: Method,
    pub uri: Seq<char>,
    pub content_type: Option<Seq<char>>,
    pub body: Seq<u8>,
}

impl DeepView for HttpRequest {
    type V = HttpRequestView;

    open spec fn deep_view(&self) -> HttpRequestView {
        HttpRequestView {
            method: self.method,
            uri: self.uri@,
            content_type: self.content_type.deep_view(),
            body: self.body@,
        }
    }
}

/// Describes the type of a Matrix API.
pub trait ApiType {
    /// The base path which all requests to this API contain.
    spec fn path(&self) -> Seq<char>;

    /// Get the base path which all requests to this API should contain.
    ///
    /// For example, `ClientApi`, the struct for the client-server API, sets
    /// this method to return `/_matrix/client/r0`
    fn get_path(&self) -> (r: String)
        ensures
            r@ == self.path(),
    ;
}

/// Represents an object that holds what a request to the Matrix Client-Server API is made
/// with: the homeserver's address and the credentials.
pub trait MatrixRequestable {
    /// The client's URL.
    spec fn url(&self) -> Seq<char>;

    /// The client's access token.
    spec fn access_token(&self) -> Seq<char>;

    /// The client's user ID.
    spec fn user_id(&self) -> Seq<char>;

    /// Whether the client is an Application Service (AS).
    spec fn acts_as_service(&self) -> bool;

    /// Gets the client's URL.
    fn get_url(&self) -> (r: String)
        ensures
            r@ == self.url(),
    ;

    /// Checks whether the client is an Application Service (AS).
    fn is_as(&self) -> (r: bool)
        ensures
            r == self.acts_as_service(),
    ;

    /// Gets the client's access token.
    fn get_access_token(&self) -> (r: String)
        ensures
            r@ == self.access_token(),
    ;

    /// Gets the client's user ID.
    fn get_user_id(&self) -> (r: String)
        ensures
            r@ == self.user_id(),
    ;

    /// Gets a new transaction ID.
    ///
    /// Implementors should generate a unique ID, as this will be used by the server to ensure
    /// idempotency of requests.
    fn get_txnid(&mut self) -> (r: String)
        ensures
            final(self).url() == old(self).url(),
            final(self).access_token() == old(self).access_token(),
            final(self).user_id() == old(self).user_id(),
            final(self).acts_as_service() == old(self).acts_as_service(),
    ;
}

/// Whether a byte is escaped in a query string: the controls, the space, what lies beyond
/// ASCII's printable range, and `"`, `#`, `<`, `>`, `` ` ``, `?`, `{`, `}`.
pub open spec fn is_escaped(b: u8) -> bool {
    b < 0x20 || b > 0x7E || b == 0x20 || b == 0x22 || b == 0x23 || b == 0x3C || b == 0x3E || b
        == 0x60 || b == 0x3F || b == 0x7B || b == 0x7D
}

/// The upper-case hexadecimal digit for `d`.
pub open spec fn hex_char(d: nat) -> char {
    if d < 10 {
        digit_char(d)
    } else if d == 10 {
        'A'
    } else if d == 11 {
        'B'
    } else if d == 12 {
        'C'
    } else if d == 13 {
        'D'
    } else if d == 14 {
        'E'
    } else {
        'F'
    }
}

/// One byte, percent-encoded: `%` and two hexadecimal digits where the byte is escaped, and
/// the byte's own character where it is not.
pub open spec fn percent_encoded_byte(b: u8) -> Seq<char> {
    if is_escaped(b) {
        seq!['%', hex_char((b / 16) as nat), hex_char((b % 16) as nat)]
    } else {
        seq![b as char]
    }
}

/// The percent-encoding of a sequence of bytes.
pub open spec fn percent_encoded(bytes: Seq<u8>) -> Seq<char>
    decreases bytes.len(),
{
    if bytes.len() == 0 {
        Seq::empty()
    } else {
        percent_encoded(bytes.drop_last()) + percent_encoded_byte(bytes.last())
    }
}

/// The percent-encoding of a string's UTF-8 bytes.
pub open spec fn escaped(s: Seq<char>) -> Seq<char> {
    percent_encoded(vstd::utf8::encode_utf8(s))
}

/// `percent_encoding::utf8_percent_encode` with `DEFAULT_ENCODE_SET`, collected into a
/// string: each byte of the UTF-8 form of `s` that the set holds becomes `%` and its two
/// upper-case hexadecimal digits, every other byte stays as it is.
#[verifier::external_body]
fn percent_encode(s: &str) -> (r: String)
    ensures
        r@ == escaped(s@),
{
    percent_encoding::utf8_percent_encode(s, percent_encoding::DEFAULT_ENCODE_SET).to_string()
}

/// Whether the `http` crate takes a text as a URI.
pub uninterp spec fn uri_accepted(uri: Seq<char>) -> bool;

/// `str::parse::<http::Uri>`, asked whether it takes the text. What `http` takes as a URI
/// is named `uri_accepted`.
#[verifier::external_body]
pub(crate) fn uri_is_accepted(uri: &str) -> (r: bool)
    ensures
        r == uri_accepted(uri@),
{
    uri.parse::<http::Uri>().is_ok()
}

/// The part of a query string that the request's own parameters make up: each one as
/// `&key=value`, key and value percent-encoded, in the parameters' order.
pub open spec fn params_query(params: Seq<(Seq<char>, Seq<char>)>) -> Seq<char>
    decreases params.len(),
{
    if params.len() == 0 {
        Seq::empty()
    } else {
        params_query(params.drop_last()) + "&"@ + escaped(params.last().0) + "="@ + escaped(
            params.last().1,
        )
    }
}

/// The query string of a request: the access token, then the user to act for where the
/// client is an application service, then the request's own parameters.
pub open spec fn query_of(
    token: Seq<char>,
    acting_for: Option<Seq<char>>,
    params: Seq<(Seq<char>, Seq<char>)>,
) -> Seq<char> {
    "access_token="@ + token + (match acting_for {
        Some(user) => "&user_id="@ + escaped(user),
        None => Seq::empty(),
    }) + params_query(params)
}

/// The user that a client's requests name in `user_id`: its own, where it is an
/// application service.
pub open spec fn acting_for<C: MatrixRequestable>(client: &C) -> Option<Seq<char>> {
    if client.acts_as_service() {
        Some(client.user_id())
    } else {
        None
    }
}

/// The address of a request: the client's URL, the API's base path, the endpoint, `?` and
/// the query string.
pub open spec fn address_of<C: MatrixRequestable>(
    client: &C,
    path: Seq<char>,
    endpoint: Seq<char>,
    params: Seq<(Seq<char>, Seq<char>)>,
) -> Seq<char> {
    client.url() + path + endpoint + "?"@ + query_of(
        client.access_token(),
        acting_for(client),
        params,
    )
}

/// The bytes sent as the body of a request: none for a request without a body (`null`),
/// and else the framed text of the body; `None` where the body cannot be written as JSON.
pub open spec fn sent_body(body: JsonView) -> Option<Seq<u8>> {
    if body is Null {
        Some(Seq::empty())
    } else {
        match json_text(body) {
            Some(text) => Some(body_bytes(text)),
            None => None,
        }
    }
}

/// The HTTP request that a Matrix request is made into: `Serialization` where the body
/// cannot be written as JSON, `InvalidAddress` where the address is no well-formed URI, and
/// else the method, the address and the bytes of the body.
pub open spec fn request_outcome(method: Method, address: Seq<char>, body: JsonView) -> Result<
    HttpRequestView,
    MatrixErrorView,
> {
    match sent_body(body) {
        None => Err(MatrixErrorView::Serialization),
        Some(bytes) => if uri_accepted(address) {
            Ok(HttpRequestView { method, uri: address, content_type: None, body: bytes })
        } else {
            Err(MatrixErrorView::InvalidAddress)
        },
    }
}

/// The bytes sent as the body of a request whose body is written as `text`: none where the
/// text is the empty object or `null`, and the text's UTF-8 form otherwise.
pub open spec fn body_bytes(text: Seq<char>) -> Seq<u8> {
    if text == "{}"@ || text == "null"@ {
        Seq::empty()
    } else {
        vstd::utf8::encode_utf8(text)
    }
}

/// Frames the text of a body: an empty object is not sent at all, and neither is `null`.
pub fn frame_body(text: String) -> (r: Vec<u8>)
    ensures
        r@ == body_bytes(text@),
{
    if str_eq(text.as_str(), "{}") || str_eq(text.as_str(), "null") {
        Vec::new()
    } else {
        text.as_str().as_bytes_vec()
    }
}

/// A arbitrary request to an endpoint in the Matrix API.
///
/// To actually determine what URL is used for the request, two things are
/// consulted: the request type, and the request endpoint. The request type
/// specifies what Matrix API is being used (for example, the client-server API
/// revision 0, under `/_matrix/client/r0`), while the endpoint determines what
/// method is being called on that API.
#[derive(Debug, PartialEq)]
pub struct MatrixRequest<U = ClientApi> {
    /// Request method.
    pub meth: Method,
    /// API endpoint (e.g. `/sync`)
    pub endpoint: String,
    /// Query-string parameters.
    pub params: Dict<String>,
    /// Request body.
    ///
    /// A request without a body has `null` here. If the body is empty (serialises to
    /// `{}`), it will not be sent either.
    pub body: Json,
    /// Request type.
    pub typ: U,
}

impl<U: ApiType> MatrixRequest<U> {
    /// Make a new `MatrixRequest`, specifying all possible options.
    pub fn new(meth: Method, endpoint: &str, body: Json, typ: U) -> (r: Self)
        ensures
            r.meth == meth,
            r.endpoint@ == endpoint@,
            r.params.deep_view() == Seq::<(Seq<char>, Seq<char>)>::empty(),
            r.body@ == body@,
            r.typ == typ,
    {
        MatrixRequest { meth, endpoint: owned(endpoint), params: Dict::new(), body, typ }
    }

    /// The address of the request, for a client.
    pub open spec fn address<C: MatrixRequestable>(&self, client: &C) -> Seq<char> {
        address_of(client, self.typ.path(), self.endpoint@, self.params.deep_view())
    }

    /// What `make_request` gives for a client.
    pub open spec fn outcome<C: MatrixRequestable>(&self, client: &C) -> Result<
        HttpRequestView,
        MatrixErrorView,
    > {
        request_outcome(self.meth, self.address(client), self.body@)
    }

    fn body(&self) -> (r: MatrixResult<Vec<u8>>)
        ensures
            match r {
                Ok(bytes) => sent_body(self.body@) == Some(bytes@),
                Err(e) => sent_body(self.body@) is None && e is Serialization,
            },
    {
        if self.body.is_null() {
            return Ok(Vec::new());
        }
        match print(&self.body) {
            Some(text) => Ok(frame_body(text)),
            None => Err(MatrixError::Serialization),
        }
    }

    fn query<C: MatrixRequestable>(&self, client: &C) -> (r: String)
        ensures
            r@ == query_of(client.access_token(), acting_for(client), self.params.deep_view()),
    {
        let ghost all = self.params.deep_view();
        let mut q = String::from_str("access_token=");
        q.append(client.get_access_token().as_str());
        if client.is_as() {
            q.append("&user_id=");
            q.append(percent_encode(client.get_user_id().as_str()).as_str());
        }
        let ghost head = q@;
        let mut i: usize = 0;
        assert(all.take(0) =~= Seq::empty());
        assert(q@ =~= head + params_query(all.take(0)));
        while i < self.params.len()
            invariant
                i <= all.len(),
                all == self.params.deep_view(),
                q@ == head + params_query(all.take(i as int)),
            decreases all.len() - i,
        {
            let ghost before = q@;
            assert(all.take(i + 1).drop_last() =~= all.take(i as int));
            assert(all.take(i + 1).last() == all[i as int]);
            q.append("&");
            q.append(percent_encode(self.params.key_at(i).as_str()).as_str());
            q.append("=");
            q.append(percent_encode(self.params.value_at(i).as_str()).as_str());
            assert(q@ =~= head + params_query(all.take(i + 1)));
            i += 1;
        }
        assert(all.take(i as int) =~= all);
        assert(q@ =~= query_of(client.access_token(), acting_for(client), all));
        q
    }

    /// Make this `MatrixRequest` into a HTTP request.
    ///
    /// Building a request does no I/O. It fails with `Serialization` where the body cannot
    /// be written as JSON, and with `InvalidAddress` where the address is no URI.
    pub fn make_request<C: MatrixRequestable>(&self, client: &C) -> (r: MatrixResult<HttpRequest>)
        ensures
            result_view(r) == self.outcome(client),
    {
        let body = match self.body() {
            Ok(bytes) => bytes,
            Err(e) => {
                return Err(e);
            },
        };
        let params = self.query(client);
        let mut url = client.get_url();
        url.append(self.typ.get_path().as_str());
        url.append(self.endpoint.as_str());
        url.append("?");
        url.append(params.as_str());
        assert(url@ =~= self.address(client));
        if !uri_is_accepted(url.as_str()) {
            return Err(MatrixError::InvalidAddress);
        }
        Ok(HttpRequest { method: self.meth, uri: url, content_type: None, body })
    }
}

impl MatrixRequest<ClientApi> {
    /// Makes a `MatrixRequest` with the following defaults:
    ///
    /// - `meth` and `endpoint` specified
    /// - `params` set to an empty mapping
    /// - no body (`body` set to `null`)
    /// - `typ` set to `apis::r0::ClientApi`
    pub fn new_basic(meth: Method, endpoint: &str) -> (r: Self)
        ensures
            r.meth == meth,
            r.endpoint@ == endpoint@,
            r.params.deep_view() == Seq::<(Seq<char>, Seq<char>)>::empty(),
            r.body == Json::Null,
            r.typ == ClientApi,
    {
        MatrixRequest {
            meth,
            endpoint: owned(endpoint),
            params: Dict::new(),
            body: Json::Null,
            typ: ClientApi,
        }
    }

    /// Makes a `MatrixRequest` with the following defaults:
    ///
    /// - `meth` and `endpoint` specified
    /// - `body` an object with the given members, each a string
    /// - `params` set to an empty mapping
    /// - `typ` set to `apis::r0::ClientApi`
    pub fn new_with_body(meth: Method, endpoint: &str, body: &Dict<String>) -> (r: Self)
        ensures
            r.meth == meth,
            r.endpoint@ == endpoint@,
            r.params.deep_view() == Seq::<(Seq<char>, Seq<char>)>::empty(),
            r.body@ == Dict::<String>::encoded(body.deep_view()),
            r.typ == ClientApi,
    {
        MatrixRequest {
            meth,
            endpoint: owned(endpoint),
            params: Dict::new(),
            body: body.to_json(),
            typ: ClientApi,
        }
    }

    /// Like `new_with_body`, but takes a serializable object for `body`.
    pub fn new_with_body_ser<T: ToJson>(meth: Method, endpoint: &str, body: &T) -> (r: Self)
        ensures
            r.meth == meth,
            r.endpoint@ == endpoint@,
            r.params.deep_view() == Seq::<(Seq<char>, Seq<char>)>::empty(),
            r.body@ == T::encoded(body.deep_view()),
            r.typ == ClientApi,
    {
        MatrixRequest {
            meth,
            endpoint: owned(endpoint),
            params: Dict::new(),
            body: body.to_json(),
            typ: ClientApi,
        }
    }
}

/// A request that was built without a body, and one whose body is written as the empty
/// object or as `null`, are sent without a body; every other request has as its body the
/// text that its body is written as.
pub proof fn lemma_body_framing(method: Method, address: Seq<char>, body: JsonView)
    requires
        body is Null || json_text(body) is Some,
        uri_accepted(address),
    ensures
        request_outcome(method, address, body) is Ok,
        body is Null || json_text(body) == Some("{}"@) || json_text(body) == Some("null"@)
            ==> request_outcome(method, address, body)->Ok_0.body == Seq::<u8>::empty(),
        !(body is Null) && json_text(body) != Some("{}"@) && json_text(body) != Some("null"@)
            ==> request_outcome(method, address, body)->Ok_0.body == vstd::utf8::encode_utf8(
            json_text(body)->0,
        ),
{
}

/// A request without a body never fails for its body, whatever JSON text `null` has.
pub proof fn lemma_no_body(method: Method, address: Seq<char>)
    ensures
        request_outcome(method, address, JsonView::Null) == if uri_accepted(address) {
            Ok::<HttpRequestView, MatrixErrorView>(
                HttpRequestView { method, uri: address, content_type: None, body: Seq::empty() },
            )
        } else {
            Err::<HttpRequestView, MatrixErrorView>(MatrixErrorView::InvalidAddress)
        },
{
}

/// Whether a status is within 200-299.
pub open spec fn is_success(status: u16) -> bool {
    200 <= status < 300
}

/// Check if status is within 200-299.
pub fn status_is_success(status: u16) -> (r: bool)
    ensures
        r == is_success(status),
{
    200 <= status && status < 300
}

/// The error that a response with a status outside 200-299 stands for, given what its
/// body parsed to: the homeserver's error where the body holds one, and the bare status
/// where it does not.
pub open spec fn rejection_of(status: u16, parsed: Option<JsonView>) -> MatrixErrorView {
    match parsed {
        Some(j) => match BadRequestReply::decoded(j) {
            Some(reply) => MatrixErrorView::ServerError {
                errcode: reply.errcode,
                message: reply.error,
            },
            None => MatrixErrorView::HttpStatus(status),
        },
        None => MatrixErrorView::HttpStatus(status),
    }
}

/// What the body of a successful response gives, given what it parsed to: the typed
/// reply, or `Serialization` where the body is no JSON or does not have the reply's shape.
pub open spec fn reply_of<T: FromJson>(parsed: Option<JsonView>) -> Result<T::V, MatrixErrorView> {
    match parsed {
        Some(j) => match T::decoded(j) {
            Some(reply) => Ok(reply),
            None => Err(MatrixErrorView::Serialization),
        },
        None => Err(MatrixErrorView::Serialization),
    }
}

/// What a complete response gives to a caller that expects a reply of type `T`.
pub open spec fn typed_outcome<T: FromJson>(status: u16, body: Seq<u8>) -> Result<
    T::V,
    MatrixErrorView,
> {
    if is_success(status) {
        reply_of::<T>(json_parse(body))
    } else {
        Err(rejection_of(status, json_parse(body)))
    }
}

/// What a complete response gives to a caller that discards the reply: a successful
/// response is not decoded at all.
pub open spec fn discarding_outcome(status: u16, body: Seq<u8>) -> Result<(), MatrixErrorView> {
    if is_success(status) {
        Ok(())
    } else {
        Err(rejection_of(status, json_parse(body)))
    }
}

/// Classifies a response with a status outside 200-299, given what its body parsed to.
pub fn classify_rejection(status: u16, parsed: &Option<Json>) -> (e: MatrixError)
    ensures
        e.deep_view() == rejection_of(status, parsed.deep_view()),
{
    match parsed {
        Some(j) => match BadRequestReply::from_json(j) {
            Some(reply) => MatrixError::ServerError { errcode: reply.errcode, message: reply.error },
            None => MatrixError::HttpStatus(status),
        },
        None => MatrixError::HttpStatus(status),
    }
}

/// Decodes the reply of a successful response, given what its body parsed to.
pub fn decode_reply<T: FromJson>(parsed: &Option<Json>) -> (r: MatrixResult<T>)
    ensures
        result_view(r) == reply_of::<T>(parsed.deep_view()),
{
    match parsed {
        Some(j) => match T::from_json(j) {
            Some(reply) => Ok(reply),
            None => Err(MatrixError::Serialization),
        },
        None => Err(MatrixError::Serialization),
    }
}

/// Turns a complete response into the reply that the caller expects, or into the error
/// that it stands for.
pub fn typed_response<T: FromJson>(status: u16, body: &[u8]) -> (r: MatrixResult<T>)
    ensures
        result_view(r) == typed_outcome::<T>(status, body@),
{
    let parsed = parse(body);
    if status_is_success(status) {
        decode_reply(&parsed)
    } else {
        Err(classify_rejection(status, &parsed))
    }
}

/// Turns a complete response into nothing, or into the error that it stands for. The body
/// of a successful response is not looked at, so that an empty body is no error.
pub fn discarded_response(status: u16, body: &[u8]) -> (r: MatrixResult<()>)
    ensures
        result_view(r) == discarding_outcome(status, body@),
{
    if status_is_success(status) {
        Ok(())
    } else {
        let parsed = parse(body);
        Err(classify_rejection(status, &parsed))
    }
}

/// On a status outside 200-299, a body that is a JSON object with a string `errcode` and
/// a string `error` gives the homeserver's error with that code and that message, and a
/// body that is no JSON gives the bare status: whatever reply the caller expects, and
/// also where the reply is discarded.
pub proof fn lemma_rejected_response<T: FromJson>(
    status: u16,
    body: Seq<u8>,
    errcode: Seq<char>,
    message: Seq<char>,
)
    requires
        !is_success(status),
    ensures
        (json_parse(body) matches Some(j) && j is Object && j.field("errcode"@) == Some(
            JsonView::Str(errcode),
        ) && j.field("error"@) == Some(JsonView::Str(message))) ==> typed_outcome::<T>(
            status,
            body,
        ) == Err::<T::V, MatrixErrorView>(
            MatrixErrorView::ServerError { errcode, message: Some(message) },
        ) && discarding_outcome(status, body) == Err::<(), MatrixErrorView>(
            MatrixErrorView::ServerError { errcode, message: Some(message) },
        ),
        json_parse(body) is None ==> typed_outcome::<T>(status, body) == Err::<
            T::V,
            MatrixErrorView,
        >(MatrixErrorView::HttpStatus(status)) && discarding_outcome(status, body) == Err::<
            (),
            MatrixErrorView,
        >(MatrixErrorView::HttpStatus(status)),
{
}

/// A value that may not be there yet.
#[derive(Debug, PartialEq)]
pub enum Async<T> {
    /// The value.
    Ready(T),
    /// Not yet: more of the response has to arrive.
    NotReady,
}

/// How far a response has come.
pub ghost enum ResponseState {
    /// Nothing has arrived.
    AwaitingHead,
    /// The status has arrived, and `body` is what has arrived of the body.
    AwaitingBody { status: u16, body: Seq<u8> },
    /// The whole response has arrived.
    Complete { status: u16, body: Seq<u8> },
    /// The response will not arrive.
    Failed(MatrixErrorView),
}

impl ResponseState {
    /// The state after the head of the response arrived with `status`.
    pub open spec fn head(self, status: u16) -> ResponseState {
        match self {
            ResponseState::AwaitingHead => ResponseState::AwaitingBody {
                status,
                body: Seq::empty(),
            },
            other => other,
        }
    }

    /// The state after `bytes` of the body arrived: they are added to what is buffered.
    pub open spec fn chunk(self, bytes: Seq<u8>) -> ResponseState {
        match self {
            ResponseState::AwaitingBody { status, body } => ResponseState::AwaitingBody {
                status,
                body: body + bytes,
            },
            other => other,
        }
    }

    /// The state after the body ended.
    pub open spec fn end(self) -> ResponseState {
        match self {
            ResponseState::AwaitingBody { status, body } => ResponseState::Complete {
                status,
                body,
            },
            other => other,
        }
    }

    /// The state after the connection failed with `error`. A response that is complete
    /// stays so.
    pub open spec fn fail(self, error: MatrixErrorView) -> ResponseState {
        match self {
            ResponseState::AwaitingHead | ResponseState::AwaitingBody { .. } => ResponseState::Failed(
                error,
            ),
            other => other,
        }
    }

    /// What polling gives to a caller that expects a reply of type `T`; `None` where the
    /// response is not there yet.
    pub open spec fn typed<T: FromJson>(self) -> Option<Result<T::V, MatrixErrorView>> {
        match self {
            ResponseState::Complete { status, body } => Some(typed_outcome::<T>(status, body)),
            ResponseState::Failed(error) => Some(Err(error)),
            _ => None,
        }
    }

    /// What polling gives to a caller that discards the reply; `None` where the response
    /// is not there yet.
    pub open spec fn discarding(self) -> Option<Result<(), MatrixErrorView>> {
        match self {
            ResponseState::Complete { status, body } => Some(discarding_outcome(status, body)),
            ResponseState::Failed(error) => Some(Err(error)),
            _ => None,
        }
    }
}

/// Nothing is decoded before the whole body is there, and the body that is decoded is
/// the chunks in the order of their arrival, joined.
pub proof fn lemma_body_is_buffered<T: FromJson>(status: u16, first: Seq<u8>, second: Seq<u8>)
    ensures
        ResponseState::AwaitingHead.typed::<T>() is None,
        ResponseState::AwaitingHead.head(status).typed::<T>() is None,
        ResponseState::AwaitingHead.head(status).chunk(first).typed::<T>() is None,
        ResponseState::AwaitingHead.head(status).chunk(first).chunk(second).typed::<T>() is None,
        ResponseState::AwaitingHead.head(status).chunk(first).chunk(second).end().typed::<T>()
            == Some(typed_outcome::<T>(status, first + second)),
{
    assert(Seq::<u8>::empty() + first + second =~= first + second);
}

#[derive(Debug, Clone, Copy, PartialEq, Eq, Structural)]
enum Stage {
    AwaitingHead,
    AwaitingBody,
    Complete,
    Failed,
}

/// A response to a Matrix API call that may not be there yet.
///
/// The response is fed in as it arrives: the head, then the body chunk by chunk, then its
/// end. The body is buffered whole before anything is decoded.
#[derive(Debug)]
pub struct TypedApiResponse {
    stage: Stage,
    status: u16,
    body: Vec<u8>,
    error: MatrixError,
}

fn append_bytes(buffer: &mut Vec<u8>, bytes: &[u8])
    ensures
        final(buffer)@ == old(buffer)@ + bytes@,
{
    let mut i: usize = 0;
    while i < bytes.len()
        invariant
            i <= bytes.len(),
            buffer@ == old(buffer)@ + bytes@.take(i as int),
        decreases bytes.len() - i,
    {
        buffer.push(bytes[i]);
        assert(bytes@.take(i + 1) =~= bytes@.take(i as int).push(bytes@[i as int]));
        i += 1;
    }
    assert(bytes@.take(i as int) =~= bytes@);
}

impl TypedApiResponse {
    /// How far the response has come.
    pub closed spec fn state(&self) -> ResponseState {
        match self.stage {
            Stage::AwaitingHead => ResponseState::AwaitingHead,
            Stage::AwaitingBody => ResponseState::AwaitingBody {
                status: self.status,
                body: self.body@,
            },
            Stage::Complete => ResponseState::Complete { status: self.status, body: self.body@ },
            Stage::Failed => ResponseState::Failed(self.error.deep_view()),
        }
    }

    /// A response of which nothing has arrived.
    pub fn new() -> (r: TypedApiResponse)
        ensures
            r.state() == ResponseState::AwaitingHead,
    {
        TypedApiResponse {
            stage: Stage::AwaitingHead,
            status: 0,
            body: Vec::new(),
            error: MatrixError::Serialization,
        }
    }

    /// The head of the response arrived.
    pub fn head(&mut self, status: u16)
        ensures
            final(self).state() == old(self).state().head(status),
    {
        if self.stage == Stage::AwaitingHead {
            self.stage = Stage::AwaitingBody;
            self.status = status;
            self.body = Vec::new();
        }
    }

    /// A part of the body arrived.
    pub fn chunk(&mut self, bytes: &[u8])
        ensures
            final(self).state() == old(self).state().chunk(bytes@),
    {
        if self.stage == Stage::AwaitingBody {
            append_bytes(&mut self.body, bytes);
        }
    }

    /// The body ended.
    pub fn end(&mut self)
        ensures
            final(self).state() == old(self).state().end(),
    {
        if self.stage == Stage::AwaitingBody {
            self.stage = Stage::Complete;
        }
    }

    /// The connection failed.
    pub fn fail(&mut self, error: MatrixError)
        ensures
            final(self).state() == old(self).state().fail(error.deep_view()),
    {
        if self.stage == Stage::AwaitingHead || self.stage == Stage::AwaitingBody {
            self.stage = Stage::Failed;
            self.error = error;
        }
    }

    /// The status and the body of a response that is complete; `None` for one that is not.
    pub fn into_parts(self) -> (r: Option<(u16, Vec<u8>)>)
        ensures
            match self.state() {
                ResponseState::Complete { status, body } => r matches Some(parts) && parts.0
                    == status && parts.1@ == body,
                _ => r is None,
            },
    {
        match self.stage {
            Stage::Complete => Some((self.status, self.body)),
            _ => None,
        }
    }

    /// The reply, once the whole response is there, or the error that the response stands
    /// for.
    pub fn poll<T: FromJson>(&self) -> (r: MatrixResult<Async<T>>)
        ensures
            match r {
                Ok(Async::Ready(reply)) => self.state().typed::<T>() == Some(
                    Ok::<T::V, MatrixErrorView>(reply.deep_view()),
                ),
                Ok(Async::NotReady) => self.state().typed::<T>() is None,
                Err(e) => self.state().typed::<T>() == Some(
                    Err::<T::V, MatrixErrorView>(e.deep_view()),
                ),
            },
    {
        match self.stage {
            Stage::Complete => match typed_response::<T>(self.status, self.body.as_slice()) {
                Ok(reply) => Ok(Async::Ready(reply)),
                Err(e) => Err(e),
            },
            Stage::Failed => Err(self.error.copy()),
            _ => Ok(Async::NotReady),
        }
    }

    /// Nothing, once the whole response is there and its status is within 200-299, or the
    /// error that the response stands for. The reply is discarded without being decoded.
    pub fn poll_discarding(&self) -> (r: MatrixResult<Async<()>>)
        ensures
            match r {
                Ok(Async::Ready(_)) => self.state().discarding() == Some(
                    Ok::<(), MatrixErrorView>(()),
                ),
                Ok(Async::NotReady) => self.state().discarding() is None,
                Err(e) => self.state().discarding() == Some(
                    Err::<(), MatrixErrorView>(e.deep_view()),
                ),
            },
    {
        match self.stage {
            Stage::Complete => match discarded_response(self.status, self.body.as_slice()) {
                Ok(_) => Ok(Async::Ready(())),
                Err(e) => Err(e),
            },
            Stage::Failed => Err(self.error.copy()),
            _ => Ok(Async::NotReady),
        }
    }
}

} // verus!
