//! APIs at version r0.

use vstd::prelude::*;
use vstd::string::*;
use crate::request::ApiType;

verus! {

/// `/_matrix/client/r0`
#[derive(Debug, Clone, Copy, PartialEq, Eq)]
pub struct ClientApi;

impl ApiType for ClientApi {
    open spec fn path(&self) -> Seq<char> {
        "/_matrix/client/r0"@
    }

    fn get_path(&self) -> (r: String) {
        String::from_str("/_matrix/client/r0")
    }
}

/// `/_matrix/media/r0`
#[derive(Debug, Clone, Copy, PartialEq, Eq)]
pub struct MediaApi;

impl ApiType for MediaApi {
    open spec fn path(&self) -> Seq<char> {
        "/_matrix/media/r0"@
    }

    fn get_path(&self) -> (r: String) {
        String::from_str("/_matrix/media/r0")
    }
}

} // verus!
