use vstd::prelude::*;

use crate::service::result::{ServiceError, ServiceResult};

verus! {

/// The status of a rejection whose own status is no HTTP status.
pub const BAD_REQUEST: u16 = 400;

/// The status of every internal failure.
pub const INTERNAL_SERVER_ERROR: u16 = 500;

/// Whether `code` is a status that HTTP can carry: a number of three digits.
pub open spec fn is_status(code: u16) -> bool {
    100 <= code < 1000
}

/// Calls `http::StatusCode::from_u16` and reads the status it accepts back
/// with `as_u16`. The outside function accepts the numbers from 100 to 999
/// and no others, and keeps the number as it is.
#[verifier::external_body]
fn status_from_u16(code: u16) -> (status: Option<u16>)
    ensures
        status == (if is_status(code) {
            Some(code)
        } else {
            None
        }),
{
    http::StatusCode::from_u16(code).ok().map(|status| status.as_u16())
}

/// `code` where it is a status that HTTP can carry, and else `fallback`.
pub fn status_or(code: u16, fallback: u16) -> (status: u16)
    ensures
        status == (if is_status(code) {
            code
        } else {
            fallback
        }),
{
    match status_from_u16(code) {
        Some(status) => status,
        None => fallback,
    }
}

/// The envelope as it crosses the HTTP boundary.
#[derive(Debug)]
pub struct HttpResult<T> {
    pub code: u16,
    pub message: Option<String>,
    pub data: Option<T>,
}

impl<T> HttpResult<T> {
    pub fn new(code: u16, message: Option<String>, data: Option<T>) -> (r: Self)
        ensures
            r == (HttpResult { code, message, data }),
    {
        Self { code, message, data }
    }

    /// The status under which the envelope is sent: its own code where that
    /// is a status that HTTP can carry, and else the internal-error status.
    pub fn status(&self) -> (status: u16)
        ensures
            status == (if is_status(self.code) {
                self.code
            } else {
                INTERNAL_SERVER_ERROR
            }),
    {
        status_or(self.code, INTERNAL_SERVER_ERROR)
    }

    /// Whether the envelope tells the client nothing but the internal-error
    /// status.
    pub open spec fn is_opaque_failure(&self) -> bool {
        self.code == INTERNAL_SERVER_ERROR && self.message is None && self.data is None
    }
}

impl<T> From<ServiceError> for HttpResult<T> {
    /// A rejection crosses with its status and message; every internal
    /// failure crosses as the bare internal-error status.
    fn from(err: ServiceError) -> (r: Self) {
        match err {
            ServiceError::Generic { code, message } => HttpResult::new(
                status_or(code, BAD_REQUEST),
                Some(message),
                None,
            ),
            ServiceError::JwtCodec(_) => HttpResult::new(INTERNAL_SERVER_ERROR, None, None),
            ServiceError::PasswordHash(_) => HttpResult::new(INTERNAL_SERVER_ERROR, None, None),
            ServiceError::Cache(_) => HttpResult::new(INTERNAL_SERVER_ERROR, None, None),
            ServiceError::Database(_) => HttpResult::new(INTERNAL_SERVER_ERROR, None, None),
        }
    }
}

impl<T> vstd::std_specs::convert::FromSpecImpl<ServiceError> for HttpResult<T> {
    open spec fn obeys_from_spec() -> bool {
        true
    }

    open spec fn from_spec(err: ServiceError) -> Self {
        match err {
            ServiceError::Generic { code, message } => HttpResult {
                code: if is_status(code) {
                    code
                } else {
                    BAD_REQUEST
                },
                message: Some(message),
                data: None,
            },
            _ => HttpResult { code: INTERNAL_SERVER_ERROR, message: None, data: None },
        }
    }
}

/// Of an internal failure the client learns the status and nothing else: no
/// message and no payload cross the boundary, whatever the failure carries.
pub proof fn law_internal_failures_are_opaque<T>(err: ServiceError)
    requires
        err.is_internal(),
    ensures
        <HttpResult<T> as vstd::std_specs::convert::FromSpec<ServiceError>>::from_spec(
            err,
        ).is_opaque_failure(),
        <HttpResult<T> as vstd::std_specs::convert::FromSpec<ServiceResult<T>>>::from_spec(
            Err(err),
        ).is_opaque_failure(),
{
}

/// What crosses the boundary is always sent under a status that HTTP can
/// carry, and a rejection keeps its message.
pub proof fn law_rejections_keep_their_message<T>(code: u16, message: String)
    ensures
        ({
            let sent = <HttpResult<T> as vstd::std_specs::convert::FromSpec<
                ServiceError,
            >>::from_spec(ServiceError::Generic { code, message });
            &&& is_status(sent.code)
            &&& is_status(code) ==> sent.code == code
            &&& sent.message == Some(message)
            &&& sent.data is None
        }),
{
}

impl<T> From<ServiceResult<T>> for HttpResult<T> {
    /// A success crosses as it is; an error as [`From<ServiceError>`] says.
    fn from(service_result: ServiceResult<T>) -> (r: Self) {
        match service_result {
            Ok(value) => HttpResult { code: value.code, message: value.message, data: value.data },
            Err(err) => HttpResult::from(err),
        }
    }
}

impl<T> vstd::std_specs::convert::FromSpecImpl<ServiceResult<T>> for HttpResult<T> {
    open spec fn obeys_from_spec() -> bool {
        true
    }

    open spec fn from_spec(service_result: ServiceResult<T>) -> Self {
        match service_result {
            Ok(value) => HttpResult { code: value.code, message: value.message, data: value.data },
            Err(err) => <HttpResult<T> as vstd::std_specs::convert::FromSpec<ServiceError>>::from_spec(err),
        }
    }
}

} // verus!
