//! The session: the homeserver's address and the credentials that requests are made with.

use vstd::prelude::*;
use vstd::string::*;
use crate::codec::ObjectWriter;
use crate::errors::{result_view, MatrixError, MatrixErrorView, MatrixResult};
use crate::json::{json_text, print, Json, JsonView};
use crate::request::{
    request_outcome, address_of, typed_outcome, typed_response, uri_accepted, uri_is_accepted,
    HttpRequest, HttpRequestView, MatrixRequest, MatrixRequestable, Method,
};
use crate::text::owned;
use crate::types::replies::{LoginReply, WhoamiReply};

verus! {

/// A connection to a Matrix homeserver: where it is, and who is talking to it.
#[derive(Debug, PartialEq)]
pub struct MatrixClient {
    access_token: String,
    user_id: String,
    url: String,
    is_as: bool,
}

/// The mathematical value of [`MatrixClient`].
pub ghost struct MatrixClientView {
    pub access_token: Seq<char>,
    pub user_id: Seq<char>,
    pub url: Seq<char>,
    pub is_as: bool,
}

impl DeepView for MatrixClient {
    type V = MatrixClientView;

    closed spec fn deep_view(&self) -> MatrixClientView {
        MatrixClientView {
            access_token: self.access_token@,
            user_id: self.user_id@,
            url: self.url@,
            is_as: self.is_as,
        }
    }
}

/// Whether a text has the form of a hyphenated UUID in lower case: 36 characters, `-` at
/// the positions 8, 13, 18 and 23, and a hexadecimal digit at every other.
pub open spec fn is_uuid_text(s: Seq<char>) -> bool {
    &&& s.len() == 36
    &&& forall|i: int| 0 <= i < 36 ==> is_uuid_char(i, #[trigger] s[i])
}

/// Whether the character at position `i` of a hyphenated UUID in lower case may be `c`.
pub open spec fn is_uuid_char(i: int, c: char) -> bool {
    if i == 8 || i == 13 || i == 18 || i == 23 {
        c == '-'
    } else {
        ('0' <= c <= '9') || ('a' <= c <= 'f')
    }
}

/// Whether a text has the form of a hyphenated UUID in lower case.
pub fn looks_like_uuid(s: &str) -> (r: bool)
    ensures
        r == is_uuid_text(s@),
{
    if s.unicode_len() != 36 {
        return false;
    }
    let mut i: usize = 0;
    while i < 36
        invariant
            i <= 36,
            s@.len() == 36,
            forall|k: int| 0 <= k < i ==> is_uuid_char(k, #[trigger] s@[k]),
        decreases 36 - i,
    {
        let c = s.get_char(i);
        let fits = if i == 8 || i == 13 || i == 18 || i == 23 {
            c == '-'
        } else {
            ('0' <= c && c <= '9') || ('a' <= c && c <= 'f')
        };
        if !fits {
            assert(!is_uuid_char(i as int, s@[i as int]));
            return false;
        }
        i += 1;
    }
    true
}

/// `uuid::Uuid::new_v4`, written out with `to_string`: a random UUID in its hyphenated
/// lower-case form. Which UUID it is depends on the system's random number generator, so
/// that nothing is said of it but its form. `new_v4` panics where the system hands out no
/// random bytes.
#[verifier::external_body]
fn random_uuid() -> (r: String)
    ensures
        is_uuid_text(r@),
{
    uuid::Uuid::new_v4().to_string()
}

/// The body of a login with a password.
pub open spec fn login_body(username: Seq<char>, password: Seq<char>) -> JsonView {
    JsonView::Object(
        seq![
            ("type"@, JsonView::Str("m.login.password"@)),
            ("user"@, JsonView::Str(username)),
            ("password"@, JsonView::Str(password)),
        ],
    )
}

/// The body with which an application service registers a user.
pub open spec fn register_body(user_id: Seq<char>) -> JsonView {
    JsonView::Object(
        seq![
            ("type"@, JsonView::Str("m.login.application_service"@)),
            ("user"@, JsonView::Str(user_id)),
        ],
    )
}

/// A request that is made without a session: `Serialization` where the body cannot be
/// written as JSON, `InvalidAddress` where the address is no well-formed URI, and else the
/// method, the address, and the text of the body where there is one.
pub open spec fn bare_request(method: Method, address: Seq<char>, body: Option<JsonView>) -> Result<
    HttpRequestView,
    MatrixErrorView,
> {
    match body {
        Some(j) if json_text(j) is None => Err(MatrixErrorView::Serialization),
        _ => if uri_accepted(address) {
            Ok(
                HttpRequestView {
                    method,
                    uri: address,
                    content_type: None,
                    body: match body {
                        Some(j) => vstd::utf8::encode_utf8(json_text(j)->0),
                        None => Seq::empty(),
                    },
                },
            )
        } else {
            Err(MatrixErrorView::InvalidAddress)
        },
    }
}

fn make_bare_request(method: Method, address: String, body: Option<Json>) -> (r: MatrixResult<
    HttpRequest,
>)
    ensures
        result_view(r) == bare_request(method, address@, body.deep_view()),
{
    let bytes = match body {
        Some(j) => match print(&j) {
            Some(text) => text.as_str().as_bytes_vec(),
            None => {
                return Err(MatrixError::Serialization);
            },
        },
        None => Vec::new(),
    };
    if !uri_is_accepted(address.as_str()) {
        return Err(MatrixError::InvalidAddress);
    }
    Ok(HttpRequest { method, uri: address, content_type: None, body: bytes })
}

impl MatrixClient {
    /// The request that asks who an access token belongs to: the first half of making a
    /// client from an access token.
    pub fn new_from_access_token(token: &str, url: &str) -> (r: MatrixResult<HttpRequest>)
        ensures
            result_view(r) == bare_request(
                Method::Get,
                url@ + "/_matrix/client/r0/account/whoami?access_token="@ + token@,
                None,
            ),
    {
        let mut address = owned(url);
        address.append("/_matrix/client/r0/account/whoami?access_token=");
        address.append(token);
        make_bare_request(Method::Get, address, None)
    }

    /// The client that an access token gives, from the homeserver's response to
    /// `new_from_access_token`: the user is the one that the homeserver names.
    pub fn new_from_access_token_reply(token: &str, url: &str, status: u16, body: &[u8]) -> (r:
        MatrixResult<MatrixClient>)
        ensures
            match typed_outcome::<WhoamiReply>(status, body@) {
                Ok(reply) => result_view(r) == Ok::<MatrixClientView, MatrixErrorView>(
                    MatrixClientView {
                        access_token: token@,
                        user_id: reply.user_id,
                        url: url@,
                        is_as: false,
                    },
                ),
                Err(e) => result_view(r) == Err::<MatrixClientView, MatrixErrorView>(e),
            },
    {
        match typed_response::<WhoamiReply>(status, body) {
            Ok(reply) => Ok(
                MatrixClient {
                    access_token: owned(token),
                    user_id: reply.user_id,
                    url: owned(url),
                    is_as: false,
                },
            ),
            Err(e) => Err(e),
        }
    }

    /// The request that logs in to a Matrix homeserver with a username and password: the
    /// first half of a login.
    ///
    /// ## Parameters
    ///
    /// - `username`: the username of the account to use (NB: not a MXID)
    /// - `password`: the password of the account to use
    /// - `url`: the URL of the homeserver
    pub fn login_password(username: &str, password: &str, url: &str) -> (r: MatrixResult<
        HttpRequest,
    >)
        ensures
            result_view(r) == bare_request(
                Method::Post,
                url@ + "/_matrix/client/r0/login"@,
                Some(login_body(username@, password@)),
            ),
    {
        let mut address = owned(url);
        address.append("/_matrix/client/r0/login");
        let mut w = ObjectWriter::new();
        w.put_json("type", Json::Str(owned("m.login.password")));
        w.put_json("user", Json::Str(owned(username)));
        w.put_json("password", Json::Str(owned(password)));
        let body = w.finish();
        assert(body@ == login_body(username@, password@)) by {
            assert(body@->Object_0 =~= login_body(username@, password@)->Object_0);
        }
        make_bare_request(Method::Post, address, Some(body))
    }

    /// The client that a login gives, from the homeserver's response to `login_password`:
    /// it holds the access token and the user ID that the homeserver handed out.
    pub fn login_password_reply(url: &str, status: u16, body: &[u8]) -> (r: MatrixResult<
        MatrixClient,
    >)
        ensures
            match typed_outcome::<LoginReply>(status, body@) {
                Ok(reply) => result_view(r) == Ok::<MatrixClientView, MatrixErrorView>(
                    MatrixClientView {
                        access_token: reply.access_token,
                        user_id: reply.user_id,
                        url: url@,
                        is_as: false,
                    },
                ),
                Err(e) => result_view(r) == Err::<MatrixClientView, MatrixErrorView>(e),
            },
    {
        match typed_response::<LoginReply>(status, body) {
            Ok(reply) => Ok(
                MatrixClient {
                    access_token: reply.access_token,
                    user_id: reply.user_id,
                    url: owned(url),
                    is_as: false,
                },
            ),
            Err(e) => Err(e),
        }
    }

    /// (for Application Services) The request that registers a user with the given
    /// `user_id`. The reply to it is discarded.
    pub fn as_register_user(&self, user_id: &str) -> (r: MatrixResult<HttpRequest>)
        ensures
            result_view(r) == bare_request(
                Method::Post,
                self.deep_view().url + "/_matrix/client/r0/register?access_token="@
                    + self.deep_view().access_token,
                Some(register_body(user_id@)),
            ),
    {
        let mut address = self.url.clone();
        address.append("/_matrix/client/r0/register?access_token=");
        address.append(self.access_token.as_str());
        let mut w = ObjectWriter::new();
        w.put_json("type", Json::Str(owned("m.login.application_service")));
        w.put_json("user", Json::Str(owned(user_id)));
        let body = w.finish();
        assert(body@ == register_body(user_id@)) by {
            assert(body@->Object_0 =~= register_body(user_id@)->Object_0);
        }
        make_bare_request(Method::Post, address, Some(body))
    }

    /// (for Application Services) Make a new AS client.
    ///
    /// ## Parameters
    ///
    /// - `url`: homeserver URL
    /// - `user_id`: user ID to impersonate (can be changed later, using `as_alter_user_id`)
    /// - `as_token`: application service token
    pub fn as_new(url: String, user_id: String, as_token: String) -> (r: MatrixClient)
        ensures
            r.deep_view() == (MatrixClientView {
                access_token: as_token@,
                user_id: user_id@,
                url: url@,
                is_as: true,
            }),
    {
        MatrixClient { access_token: as_token, user_id, url, is_as: true }
    }

    /// (for Application Services) Alter the user ID which this client is masquerading as.
    pub fn as_alter_user_id(&mut self, user_id: String)
        ensures
            final(self).deep_view() == (MatrixClientView {
                user_id: user_id@,
                ..old(self).deep_view()
            }),
    {
        self.user_id = user_id;
    }

    /// The request that invalidates the access token, so that we don't have millions of
    /// devices. Logging out is advisory: the reply to this request is discarded, and a
    /// client that cannot build or send it is torn down all the same.
    pub fn logout(&self) -> (r: MatrixResult<HttpRequest>)
        ensures
            result_view(r) == request_outcome(
                Method::Post,
                address_of(self, "/_matrix/client/r0"@, "/logout"@, Seq::empty()),
                JsonView::Null,
            ),
    {
        MatrixRequest::new_basic(Method::Post, "/logout").make_request(self)
    }

    /// Get the client's MXID.
    pub fn user_id(&self) -> (r: &str)
        ensures
            r@ == self.deep_view().user_id,
    {
        self.user_id.as_str()
    }
}

impl MatrixRequestable for MatrixClient {
    closed spec fn url(&self) -> Seq<char> {
        self.url@
    }

    closed spec fn access_token(&self) -> Seq<char> {
        self.access_token@
    }

    closed spec fn user_id(&self) -> Seq<char> {
        self.user_id@
    }

    closed spec fn acts_as_service(&self) -> bool {
        self.is_as
    }

    fn get_url(&self) -> (r: String) {
        self.url.clone()
    }

    fn is_as(&self) -> (r: bool) {
        self.is_as
    }

    fn get_access_token(&self) -> (r: String) {
        self.access_token.clone()
    }

    fn get_user_id(&self) -> (r: String) {
        self.user_id.clone()
    }

    /// A random UUID, in its hyphenated lower-case form.
    fn get_txnid(&mut self) -> (r: String)
        ensures
            is_uuid_text(r@),
    {
        random_uuid()
    }
}

impl MatrixClient {
    /// What the client hands to requests is what it holds.
    pub proof fn lemma_requestable(&self)
        ensures
            self.url() == self.deep_view().url,
            self.access_token() == self.deep_view().access_token,
            MatrixRequestable::user_id(self) == self.deep_view().user_id,
            self.acts_as_service() == self.deep_view().is_as,
    {
    }
}

} // verus!
