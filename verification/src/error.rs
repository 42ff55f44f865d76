//! Error types for the client, and the decoder for the service-error
//! envelope that the API returns in place of a success payload.

use vstd::prelude::*;

use crate::json::{get_num, get_obj, get_str, num_field, obj_field, str_field, JsonValue};
use crate::strutil::{int_token_value, parse_int_in};

verus! {

/// The `details` member of a service-error envelope.
#[derive(Debug, PartialEq)]
pub struct CbRequestErrorDetails {
    pub type_url: String,
    pub value: u8,
}

/// A well-formed error envelope reported by the service:
/// `{ error, code, message, details: { type_url, value } }`.
#[derive(Debug, PartialEq)]
pub struct CbRequestError {
    pub error: String,
    pub code: i32,
    pub message: String,
    pub details: CbRequestErrorDetails,
}

/// The mathematical content of a [`CbRequestError`].
pub struct CbRequestErrorView {
    pub error: Seq<char>,
    pub code: int,
    pub message: Seq<char>,
    pub type_url: Seq<char>,
    pub value: u8,
}

impl View for CbRequestError {
    type V = CbRequestErrorView;

    open spec fn view(&self) -> CbRequestErrorView {
        CbRequestErrorView {
            error: self.error@,
            code: self.code as int,
            message: self.message@,
            type_url: self.details.type_url@,
            value: self.details.value,
        }
    }
}

/// The service-error envelope carried by `j`, where `j` satisfies the
/// error schema; `None` otherwise.
pub open spec fn service_error_of(j: JsonValue) -> Option<CbRequestErrorView> {
    match j {
        JsonValue::Object(fs) => service_error_of_fields(fs@),
        _ => None,
    }
}

/// The service-error content of an object's members.
pub open spec fn service_error_of_fields(fs: Seq<(String, JsonValue)>) -> Option<
    CbRequestErrorView,
> {
    match (str_field(fs, "error"@), num_field(fs, "code"@), str_field(fs, "message"@), obj_field(
        fs,
        "details"@,
    )) {
        (Some(error), Some(code_tok), Some(message), Some(det)) => {
            match (str_field(det, "type_url"@), num_field(det, "value"@)) {
                (Some(type_url), Some(val_tok)) => {
                    match (int_token_value(code_tok), int_token_value(val_tok)) {
                        (Some(code), Some(value)) => {
                            if -2147483648 <= code <= 2147483647 && 0 <= value <= 255 {
                                Some(
                                    CbRequestErrorView {
                                        error,
                                        code,
                                        message,
                                        type_url,
                                        value: value as u8,
                                    },
                                )
                            } else {
                                None
                            }
                        },
                        _ => None,
                    }
                },
                _ => None,
            }
        },
        _ => None,
    }
}

impl CbRequestError {
    /// Checks `j` against the service-error schema and extracts its
    /// content.
    pub fn from_json(j: &JsonValue) -> (r: Option<CbRequestError>)
        ensures
            match r {
                Some(e) => service_error_of(*j) == Some(e@),
                None => service_error_of(*j) is None,
            },
    {
        let fs = match j {
            JsonValue::Object(fs) => fs,
            _ => { return None },
        };
        let error = match get_str(fs, "error") {
            Some(s) => s,
            None => { return None },
        };
        let code_tok = match get_num(fs, "code") {
            Some(s) => s,
            None => { return None },
        };
        let message = match get_str(fs, "message") {
            Some(s) => s,
            None => { return None },
        };
        let det = match get_obj(fs, "details") {
            Some(d) => d,
            None => { return None },
        };
        let type_url = match get_str(det, "type_url") {
            Some(s) => s,
            None => { return None },
        };
        let val_tok = match get_num(det, "value") {
            Some(s) => s,
            None => { return None },
        };
        let code = match parse_int_in(code_tok.as_str(), -2147483648i64, 2147483647i64) {
            Some(v) => v as i32,
            None => { return None },
        };
        let value = match parse_int_in(val_tok.as_str(), 0i64, 255i64) {
            Some(v) => v as u8,
            None => { return None },
        };
        Some(
            CbRequestError {
                error: error.clone(),
                code,
                message: message.clone(),
                details: CbRequestErrorDetails { type_url: type_url.clone(), value },
            },
        )
    }
}

/// The error taxonomy of the client.  Transport failures arrive from the
/// caller that performed the HTTP exchange; the other variants arise from
/// this crate's own checks.
#[derive(Debug, PartialEq)]
pub enum CbError {
    /// A network, DNS or TLS failure, reported by the transport.
    Http { detail: String },
    /// The response body satisfied neither the success schema nor the
    /// error schema; the body is kept for diagnosis.
    Serde { detail: String, body: String },
    /// A well-formed error envelope reported by the service.
    Coinbase(CbRequestError),
    /// Malformed configuration: a redirect URL without host or port.
    Config { detail: String },
    /// A scope that the fixed whitelist does not contain.
    InvalidScope { scope: String },
    /// The callback request carried no usable `code`/`state` parameters.
    CallbackParse { detail: String },
    /// The `state` echoed by the authorization server did not match the
    /// generated anti-forgery token.
    CsrfMismatch,
    /// An order could not be assembled: a side that is neither buy nor
    /// sell, or a size or price that is not a decimal number.
    InvalidOrder { detail: String },
}

/// The mathematical content of a [`CbError`].
pub enum CbErrorView {
    Http { detail: Seq<char> },
    Serde { detail: Seq<char>, body: Seq<char> },
    Coinbase(CbRequestErrorView),
    Config { detail: Seq<char> },
    InvalidScope { scope: Seq<char> },
    CallbackParse { detail: Seq<char> },
    CsrfMismatch,
    InvalidOrder { detail: Seq<char> },
}

impl View for CbError {
    type V = CbErrorView;

    open spec fn view(&self) -> CbErrorView {
        match self {
            CbError::Http { detail } => CbErrorView::Http { detail: detail@ },
            CbError::Serde { detail, body } => CbErrorView::Serde {
                detail: detail@,
                body: body@,
            },
            CbError::Coinbase(e) => CbErrorView::Coinbase(e@),
            CbError::Config { detail } => CbErrorView::Config { detail: detail@ },
            CbError::InvalidScope { scope } => CbErrorView::InvalidScope { scope: scope@ },
            CbError::CallbackParse { detail } => CbErrorView::CallbackParse { detail: detail@ },
            CbError::CsrfMismatch => CbErrorView::CsrfMismatch,
            CbError::InvalidOrder { detail } => CbErrorView::InvalidOrder { detail: detail@ },
        }
    }
}

} // verus!
