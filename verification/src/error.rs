//! The errors and responses that the service hands back to its callers.

use vstd::prelude::*;

verus! {

/// Why a request was not served.
#[derive(Debug, PartialEq, Eq)]
pub enum ServiceError {
    /// Something went wrong inside the service; the cause is not shown to the caller.
    ServerError,
    /// A refusal with an HTTP status and a message for the caller.
    HttpMessage(u16, String),
}

/// What a service operation gives back.
pub type ServiceResult<T> = Result<T, ServiceError>;

/// What a route answers: a value with its HTTP status, or an error.
#[derive(Debug)]
pub enum ServiceResponse<T> {
    Status(T, u16),
    Error(ServiceError),
}

impl<T> ServiceResponse<T> {
    /// The answer for a service result: the value with status 200, or the error.
    pub fn from_result(r: ServiceResult<T>) -> (resp: ServiceResponse<T>)
        ensures
            match r {
                Ok(v) => resp == ServiceResponse::Status(v, 200),
                Err(e) => resp == ServiceResponse::<T>::Error(e),
            },
    {
        match r {
            Ok(v) => ServiceResponse::Status(v, 200),
            Err(e) => ServiceResponse::Error(e),
        }
    }
}

} // verus!
