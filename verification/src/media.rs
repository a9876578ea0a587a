//! Media repository management.

use vstd::prelude::*;
use vstd::string::*;
use crate::errors::{result_view, MatrixError, MatrixErrorView, MatrixResult};
use crate::json::{Json, JsonView};
use crate::request::apis::r0::MediaApi;
use crate::request::{
    address_of, request_outcome, HttpRequest, HttpRequestView, MatrixRequest, MatrixRequestable,
    Method,
};

verus! {

/// Contains media repository endpoints.
pub struct Media;

/// Whether a byte may stand in the value of a header: a tab, or anything from the space
/// on but DEL.
pub open spec fn is_header_byte(b: u8) -> bool {
    (b >= 32 && b != 127) || b == 9
}

/// Whether a text may be the value of a header: each byte of its UTF-8 form may stand in
/// one.
pub open spec fn is_header_value(s: Seq<char>) -> bool {
    forall|i: int|
        0 <= i < vstd::utf8::encode_utf8(s).len() ==> is_header_byte(
            #[trigger] vstd::utf8::encode_utf8(s)[i],
        )
}

/// `http::header::HeaderValue::from_str`, asked whether it takes the text: it does where
/// every byte is a tab or at least 32 and not 127.
#[verifier::external_body]
fn header_value_is_accepted(s: &str) -> (r: bool)
    ensures
        r == is_header_value(s@),
{
    http::header::HeaderValue::from_str(s).is_ok()
}

/// The upload request: the request to `/upload` of the media API, with the data as its
/// body and the content type as its header. The address is looked at before the content
/// type is.
pub open spec fn upload_request<R: MatrixRequestable>(
    rq: &R,
    data: Seq<u8>,
    content_type: Seq<char>,
) -> Result<HttpRequestView, MatrixErrorView> {
    match request_outcome(
        Method::Post,
        address_of(rq, "/_matrix/media/r0"@, "/upload"@, Seq::empty()),
        JsonView::Null,
    ) {
        Ok(request) => if is_header_value(content_type) {
            Ok(HttpRequestView { content_type: Some(content_type), body: data, ..request })
        } else {
            Err(MatrixErrorView::InvalidHeaderValue)
        },
        Err(e) => Err(e),
    }
}

impl Media {
    /// Upload some data of a given content type, like an image.
    ///
    /// The reply is an `UploadReply`.
    pub fn upload<R: MatrixRequestable>(rq: &R, data: Vec<u8>, content_type: &str) -> (r:
        MatrixResult<HttpRequest>)
        ensures
            result_view(r) == upload_request(rq, data@, content_type@),
    {
        let req = MatrixRequest::new(Method::Post, "/upload", Json::Null, MediaApi).make_request(
            rq,
        );
        let req = match req {
            Ok(r) => r,
            Err(e) => {
                return Err(e);
            },
        };
        if !header_value_is_accepted(content_type) {
            return Err(MatrixError::InvalidHeaderValue);
        }
        Ok(
            HttpRequest {
                method: req.method,
                uri: req.uri,
                content_type: Some(crate::text::owned(content_type)),
                body: data,
            },
        )
    }
}

} // verus!
