//! What the upload routes answer.

use vstd::prelude::*;
use crate::dto::upload::GenerateUploadUrlResponse;
use crate::error::{ServiceError, ServiceResponse, ServiceResult};

verus! {

/// The key that the read route signs a URL for.
pub const URL_ROUTE_KEY: &'static str = "public/age.txt";

/// How long the URL that the read route gives stays valid, in seconds.
pub const URL_ROUTE_EXPIRY_SECS: u64 = 300;

/// The answer of the upload route: `201` with the URLs, or a server error whatever
/// went wrong.
pub fn init_upload_response(r: ServiceResult<GenerateUploadUrlResponse>) -> (resp: ServiceResponse<
    GenerateUploadUrlResponse,
>)
    ensures
        match r {
            Ok(v) => resp == ServiceResponse::Status(v, 201),
            Err(_) => resp == ServiceResponse::<GenerateUploadUrlResponse>::Error(
                ServiceError::ServerError,
            ),
        },
{
    match r {
        Ok(v) => ServiceResponse::Status(v, 201),
        Err(_) => ServiceResponse::Error(ServiceError::ServerError),
    }
}

} // verus!
