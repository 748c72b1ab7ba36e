//! Running a service: how its outcome is reported, and the decisions of the
//! platform service managers.
use vstd::prelude::*;

pub mod cli;
pub mod platform;
pub mod socket_activation;

verus! {

/// Why running a service failed. `E` is the service's own error, `B` the
/// errors of the background services that ran beside it.
#[derive(Debug, Clone, PartialEq, Eq)]
pub enum ServiceError<E, B> {
    /// The service failed, perhaps with background service failures too.
    ExecutionFailure(E, Option<B>),
    /// The service succeeded but background services failed.
    BackgroundServiceFailure(B),
    /// The service manager failed to start: what it was doing, and why.
    InitializationFailure(String, String),
}

/// The outcome of a run from the service's own result and the result of
/// stopping its background services.
pub open spec fn service_outcome<E, B>(
    service_result: Result<(), E>,
    background_service_errors: Result<(), B>,
) -> Result<(), ServiceError<E, B>> {
    match (service_result, background_service_errors) {
        (Ok(()), Ok(())) => Ok(()),
        (Ok(()), Err(b)) => Err(ServiceError::BackgroundServiceFailure(b)),
        (Err(e), Ok(())) => Err(ServiceError::ExecutionFailure(e, None)),
        (Err(e), Err(b)) => Err(ServiceError::ExecutionFailure(e, Some(b))),
    }
}

impl<E, B> ServiceError<E, B> {
    /// The outcome of a run from the service's own result and the result of
    /// stopping its background services.
    pub fn from_service_result(
        service_result: Result<(), E>,
        background_service_errors: Result<(), B>,
    ) -> (r: Result<(), Self>)
        ensures
            r == service_outcome(service_result, background_service_errors),
    {
        match (service_result, background_service_errors) {
            (Ok(()), Ok(())) => Ok(()),
            (Ok(()), Err(service_errors)) => Err(
                ServiceError::BackgroundServiceFailure(service_errors),
            ),
            (Err(e), Ok(())) => Err(ServiceError::ExecutionFailure(e, None)),
            (Err(e), Err(service_errors)) => Err(
                ServiceError::ExecutionFailure(e, Some(service_errors)),
            ),
        }
    }
}

/// Law: a run succeeds exactly when the service and all of its background
/// services succeed; when the service itself fails, its error is the one
/// reported, with the background failures beside it.
pub proof fn law_service_outcome<E, B>(
    service_result: Result<(), E>,
    background_service_errors: Result<(), B>,
)
    ensures
        service_outcome(service_result, background_service_errors) is Ok <==> (service_result is Ok
            && background_service_errors is Ok),
        service_result matches Err(e) ==> service_outcome(service_result, background_service_errors)
            == Err::<(), ServiceError<E, B>>(ServiceError::ExecutionFailure(
            e,
            match background_service_errors {
                Ok(()) => None,
                Err(b) => Some(b),
            },
        )),
{
}

} // verus!
