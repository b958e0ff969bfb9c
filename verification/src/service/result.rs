use vstd::prelude::*;

use crate::cache::CacheError;
use crate::jwt_codec::CodecError;
use crate::repo::RepoError;

verus! {

#[verifier::external_type_specification]
#[verifier::external_body]
pub struct ExPasswordHashError(argon2::password_hash::Error);

pub type ServiceResult<T> = Result<ServiceValue<T>, ServiceError>;

pub type InterResult<T> = Result<T, ServiceError>;

/// Why a service did not succeed: a rejection meant for the client, or a
/// failure of one of the parts the service rests on.
#[derive(Debug)]
pub enum ServiceError {
    /// A rejection with a status and a message that the client may see.
    Generic { code: u16, message: String },
    /// The token codec failed.
    JwtCodec(CodecError),
    /// Password hashing failed, or a stored hash is malformed.
    PasswordHash(argon2::password_hash::Error),
    /// The cache failed.
    Cache(CacheError),
    /// The repository failed.
    Database(RepoError),
}

impl ServiceError {
    /// Whether this is the client-facing rejection with this status and message.
    pub open spec fn is_rejection(&self, code: u16, message: Seq<char>) -> bool {
        self matches ServiceError::Generic { code: c, message: m } && c == code && m@ == message
    }

    /// Whether this is a failure of a part the service rests on, of which the
    /// client learns nothing.
    pub open spec fn is_internal(&self) -> bool {
        !(self is Generic)
    }
}

/// The plain success envelope.
pub fn accept<T>() -> (r: ServiceValue<T>)
    ensures
        r.code == 200,
        r.message is None,
        r.data is None,
{
    ServiceValue::<T>::default()
}

/// The client-facing rejection with the given status and message.
pub fn reject(code: u16, message: &str) -> (r: ServiceError)
    ensures
        r.is_rejection(code, message@),
{
    ServiceError::Generic { code, message: message.to_owned() }
}

/// The uniform success envelope: a numeric status, an optional message and an
/// optional payload.
#[derive(Debug)]
pub struct ServiceValue<T> {
    pub code: u16,
    pub message: Option<String>,
    pub data: Option<T>,
}

/// Whether a status code denotes success.
pub open spec fn is_success(code: u16) -> bool {
    200 <= code < 300
}

impl<T> ServiceValue<T> {
    /// A payload is carried only under a success status.
    pub open spec fn wf(&self) -> bool {
        self.data is Some ==> is_success(self.code)
    }

    /// The plain success envelope: status 200, no message, no payload.
    #[inline]
    pub fn default() -> (r: Self)
        ensures
            r.code == 200,
            r.message is None,
            r.data is None,
            r.wf(),
    {
        Self { code: 200, message: None, data: None }
    }

    /// The same envelope under another status.
    #[inline]
    pub fn with_code(self, code: u16) -> (r: Self)
        ensures
            r.code == code,
            r.message == self.message,
            r.data == self.data,
            self.data is None || is_success(code) ==> r.wf(),
    {
        let mut value = self;
        value.code = code;
        value
    }

    /// The same envelope carrying `message`.
    #[inline]
    pub fn with_message(self, message: &str) -> (r: Self)
        ensures
            r.code == self.code,
            r.message matches Some(m) && m@ == message@,
            r.data == self.data,
            self.wf() ==> r.wf(),
    {
        let mut value = self;
        value.message = Some(message.to_owned());
        value
    }

    /// The same envelope carrying `data`.
    #[inline]
    pub fn with_data(self, data: T) -> (r: Self)
        ensures
            r.code == self.code,
            r.message == self.message,
            r.data == Some(data),
            is_success(self.code) ==> r.wf(),
    {
        let mut value = self;
        value.data = Some(data);
        value
    }
}

} // verus!
