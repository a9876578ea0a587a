//! What a bot is started with.

use vstd::prelude::*;
use vstd::string::*;
use crate::client::{bare_request, login_body, MatrixClient};
use crate::errors::{result_view, MatrixResult};
use crate::request::{HttpRequest, Method};

verus! {

/// The homeserver and the account that a bot logs in to.
#[derive(Debug, PartialEq)]
pub struct BoilerplateConfig {
    pub server: String,
    pub username: String,
    pub password: String,
}

impl BoilerplateConfig {
    /// The request that logs the bot in.
    pub fn login(&self) -> (r: MatrixResult<HttpRequest>)
        ensures
            result_view(r) == bare_request(
                Method::Post,
                self.server@ + "/_matrix/client/r0/login"@,
                Some(login_body(self.username@, self.password@)),
            ),
    {
        MatrixClient::login_password(
            self.username.as_str(),
            self.password.as_str(),
            self.server.as_str(),
        )
    }
}

} // verus!
