//! Profile management.

use vstd::prelude::*;
use vstd::string::*;
use crate::codec::ToJson;
use crate::errors::{result_view, MatrixResult};
use crate::json::JsonView;
use crate::request::{HttpRequest, MatrixRequest, MatrixRequestable, Method};
use crate::room::client_request;
use crate::text::owned;
use crate::types::replies::{DisplaynameReply, DisplaynameReplyView};

verus! {

/// Contains methods relating to `/profile/` endpoints.
pub struct Profile;

impl Profile {
    /// Get the displayname of a given user ID. This API may be used to fetch the user's own displayname or
    /// to query the name of other users; either locally or on remote homeservers.
    ///
    /// The reply is a `DisplaynameReply`.
    pub fn get_displayname<R: MatrixRequestable>(rq: &R, user_id: &str) -> (r: MatrixResult<
        HttpRequest,
    >)
        ensures
            result_view(r) == client_request(
                rq,
                Method::Get,
                "/profile/"@ + user_id@ + "/displayname"@,
                Seq::empty(),
                JsonView::Null,
            ),
    {
        let mut endpoint = owned("/profile/");
        endpoint.append(user_id);
        endpoint.append("/displayname");
        MatrixRequest::new_basic(Method::Get, endpoint.as_str()).make_request(rq)
    }

    /// Sets the user's displayname.
    pub fn set_displayname<R: MatrixRequestable>(rq: &R, name: String) -> (r: MatrixResult<
        HttpRequest,
    >)
        ensures
            result_view(r) == client_request(
                rq,
                Method::Put,
                "/profile/"@ + rq.user_id() + "/displayname"@,
                Seq::empty(),
                DisplaynameReply::encoded(DisplaynameReplyView { displayname: name@ }),
            ),
    {
        let mut endpoint = owned("/profile/");
        endpoint.append(rq.get_user_id().as_str());
        endpoint.append("/displayname");
        let body = DisplaynameReply { displayname: name };
        MatrixRequest::new_with_body_ser(Method::Put, endpoint.as_str(), &body).make_request(rq)
    }
}

} // verus!
