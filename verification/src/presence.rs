//! Presence management.

use vstd::prelude::*;
use vstd::string::*;
use crate::codec::{ObjectWriter, ToJson};
use crate::errors::{result_view, MatrixResult};
use crate::json::JsonView;
use crate::request::apis::r0::ClientApi;
use crate::request::{HttpRequest, MatrixRequest, MatrixRequestable, Method};
use crate::room::client_request;
use crate::text::owned;
use crate::types::content::root::types::Presence;

verus! {

/// Contains methods relating to `/presence/` endpoints.
pub struct PresenceManagement;

/// The body of a presence update.
pub open spec fn presence_body(p: Presence) -> JsonView {
    JsonView::Object(Seq::empty().push(("presence"@, Presence::encoded(p))))
}

impl PresenceManagement {
    /// Update our presence status.
    pub fn update_presence<R: MatrixRequestable>(rq: &R, p: Presence) -> (r: MatrixResult<
        HttpRequest,
    >)
        ensures
            result_view(r) == client_request(
                rq,
                Method::Put,
                "/presence/"@ + rq.user_id() + "/status"@,
                Seq::empty(),
                presence_body(p),
            ),
    {
        let mut endpoint = owned("/presence/");
        endpoint.append(rq.get_user_id().as_str());
        endpoint.append("/status");
        let mut w = ObjectWriter::new();
        w.put("presence", &p);
        let body = w.finish();
        MatrixRequest::new(Method::Put, endpoint.as_str(), body, ClientApi).make_request(rq)
    }
}

} // verus!
