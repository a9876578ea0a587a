//! Error handling.

use vstd::prelude::*;
use vstd::string::*;
use crate::text::{decimal, owned, str_eq, u64_to_string};

verus! {

/// Something Matrixy that can go wrong.
#[derive(Debug, PartialEq)]
pub enum MatrixError {
    /// The homeserver was never reached: the connection, the name lookup or TLS failed.
    Transport(String),
    /// JSON could not be written, or what was read does not have the expected shape.
    Serialization,
    /// The request's address is no well-formed URI.
    InvalidAddress,
    /// A header of the request holds a value that HTTP does not allow.
    InvalidHeaderValue,
    /// A request failed with a non-OK HTTP status, and the body held no error from the
    /// homeserver.
    HttpStatus(u16),
    /// A request failed with an error from the homeserver.
    ServerError { errcode: String, message: Option<String> },
}

/// The mathematical value of an error.
pub ghost enum MatrixErrorView {
    Transport(Seq<char>),
    Serialization,
    InvalidAddress,
    InvalidHeaderValue,
    HttpStatus(u16),
    ServerError { errcode: Seq<char>, message: Option<Seq<char>> },
}

impl DeepView for MatrixError {
    type V = MatrixErrorView;

    open spec fn deep_view(&self) -> MatrixErrorView {
        match self {
            MatrixError::Transport(s) => MatrixErrorView::Transport(s@),
            MatrixError::Serialization => MatrixErrorView::Serialization,
            MatrixError::InvalidAddress => MatrixErrorView::InvalidAddress,
            MatrixError::InvalidHeaderValue => MatrixErrorView::InvalidHeaderValue,
            MatrixError::HttpStatus(code) => MatrixErrorView::HttpStatus(*code),
            MatrixError::ServerError { errcode, message } => MatrixErrorView::ServerError {
                errcode: errcode@,
                message: message.deep_view(),
            },
        }
    }
}

impl MatrixErrorView {
    /// The homeserver says that what was asked for does not exist.
    pub open spec fn is_not_found(self) -> bool {
        self matches MatrixErrorView::ServerError { errcode, .. } && errcode == "M_NOT_FOUND"@
    }
}

/// The words that describe an error.
pub open spec fn description(e: MatrixErrorView) -> Seq<char> {
    match e {
        MatrixErrorView::Transport(cause) => "HTTP error: "@ + cause,
        MatrixErrorView::Serialization => "Serialization error"@,
        MatrixErrorView::InvalidAddress => "Error decoding URI"@,
        MatrixErrorView::InvalidHeaderValue => "Invalid header value"@,
        MatrixErrorView::HttpStatus(code) => "Request failed with HTTP status: "@ + decimal(
            code as nat,
        ),
        MatrixErrorView::ServerError { errcode, message } => match message {
            Some(m) => "Error from homeserver: "@ + errcode + ": "@ + m,
            None => "Error from homeserver: "@ + errcode,
        },
    }
}

impl MatrixError {
    /// Describes the error in words.
    pub fn describe(&self) -> (r: String)
        ensures
            r@ == description(self.deep_view()),
    {
        match self {
            MatrixError::Transport(cause) => {
                let mut s = owned("HTTP error: ");
                s.append(cause.as_str());
                s
            },
            MatrixError::Serialization => owned("Serialization error"),
            MatrixError::InvalidAddress => owned("Error decoding URI"),
            MatrixError::InvalidHeaderValue => owned("Invalid header value"),
            MatrixError::HttpStatus(code) => {
                let mut s = owned("Request failed with HTTP status: ");
                s.append(u64_to_string(*code as u64).as_str());
                s
            },
            MatrixError::ServerError { errcode, message } => {
                let mut s = owned("Error from homeserver: ");
                s.append(errcode.as_str());
                match message {
                    Some(m) => {
                        s.append(": ");
                        s.append(m.as_str());
                    },
                    None => {},
                }
                s
            },
        }
    }

    /// Whether the homeserver says that what was asked for does not exist
    /// (`M_NOT_FOUND`).
    pub fn is_not_found(&self) -> (r: bool)
        ensures
            r == self.deep_view().is_not_found(),
    {
        match self {
            MatrixError::ServerError { errcode, .. } => str_eq(errcode.as_str(), "M_NOT_FOUND"),
            _ => false,
        }
    }

    /// A copy of this error.
    pub fn copy(&self) -> (r: MatrixError)
        ensures
            r.deep_view() == self.deep_view(),
    {
        match self {
            MatrixError::Transport(s) => MatrixError::Transport(s.clone()),
            MatrixError::Serialization => MatrixError::Serialization,
            MatrixError::InvalidAddress => MatrixError::InvalidAddress,
            MatrixError::InvalidHeaderValue => MatrixError::InvalidHeaderValue,
            MatrixError::HttpStatus(code) => MatrixError::HttpStatus(*code),
            MatrixError::ServerError { errcode, message } => MatrixError::ServerError {
                errcode: errcode.clone(),
                message: match message {
                    Some(m) => Some(m.clone()),
                    None => None,
                },
            },
        }
    }
}

/// Bog-standard result newtype. You know the drill.
pub type MatrixResult<T> = Result<T, MatrixError>;

/// The view of a result: that of the value, or that of the error.
pub open spec fn result_view<T: DeepView>(r: MatrixResult<T>) -> Result<T::V, MatrixErrorView> {
    match r {
        Ok(x) => Ok(x.deep_view()),
        Err(e) => Err(e.deep_view()),
    }
}

} // verus!
