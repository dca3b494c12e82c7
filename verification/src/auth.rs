//! Who is asking: the user named by the `X-User-ID` header of a request.

use crate::outside::{
    all_visible_ascii, ascii_text, header_bytes, header_to_str, parse_uuid, uuid_of_text,
};
use crate::schemas::STATUS_BAD_REQUEST;
use axum::http::HeaderValue;
use uuid::Uuid;
use vstd::prelude::*;

verus! {

/// The header that names the user.
pub const X_USER_ID: &'static str = "X-User-ID";

/// What is said of a request without the header.
pub const MISSING_USER_ID: &'static str = "`X-User-ID` header is missing";

/// What is said of a request whose header names no user.
pub const INVALID_USER_ID: &'static str = "invalid user id";

/// The user of a request.
#[derive(Debug)]
pub struct ExtractUser(pub Uuid);

/// Why a request was turned away, and under which status.
#[derive(Debug)]
pub struct Rejection {
    pub status: u16,
    pub message: &'static str,
}

/// The identifier that a header value names: the one that its text reads as,
/// where all of its bytes are visible ASCII.
pub open spec fn user_named_by(value: HeaderValue) -> Option<Uuid> {
    if all_visible_ascii(header_bytes(value)) {
        uuid_of_text(ascii_text(header_bytes(value)))
    } else {
        None
    }
}

impl ExtractUser {
    /// The user of a request, given whether the header was there and the
    /// identifier that it named, if it named one.
    pub fn from_parsed(present: bool, named: Option<Uuid>) -> (user: Result<ExtractUser, Rejection>)
        ensures
            match user {
                Ok(found) => present && named == Some(found.0),
                Err(rejection) => rejection.status == STATUS_BAD_REQUEST && (if present {
                    named is None && rejection.message@ == INVALID_USER_ID@
                } else {
                    rejection.message@ == MISSING_USER_ID@
                }),
            },
    {
        if !present {
            return Err(Rejection { status: STATUS_BAD_REQUEST, message: MISSING_USER_ID });
        }
        match named {
            Some(id) => Ok(ExtractUser(id)),
            None => Err(Rejection { status: STATUS_BAD_REQUEST, message: INVALID_USER_ID }),
        }
    }

    /// The user of a request with the given `X-User-ID` header. A request
    /// without the header is turned away, and so is one whose header is not
    /// the text of an identifier.
    pub fn from_header(header: Option<&HeaderValue>) -> (user: Result<ExtractUser, Rejection>)
        ensures
            match user {
                Ok(found) => header matches Some(value) && user_named_by(*value) == Some(found.0),
                Err(rejection) => rejection.status == STATUS_BAD_REQUEST && (match header {
                    Some(value) => user_named_by(*value) is None && rejection.message@
                        == INVALID_USER_ID@,
                    None => rejection.message@ == MISSING_USER_ID@,
                }),
            },
    {
        match header {
            None => ExtractUser::from_parsed(false, None),
            Some(value) => {
                let named = match header_to_str(value) {
                    Some(text) => parse_uuid(text),
                    None => None,
                };
                ExtractUser::from_parsed(true, named)
            },
        }
    }
}

} // verus!
