//! One query, on either side of its transfer: where to send the request,
//! and what the answer comes to once the transfer has ended.
//!
//! The transfer itself is the caller's: it fetches the text at
//! [`request_url`] and hands the body, or the transport's failure, to one
//! of the functions below. Each call stands alone; nothing is kept
//! between two of them.

use crate::parser::{extract_status_from_xml, status_in};
use crate::request::{Request, RequestView};
use crate::{
    ApiError, DSLAMStatus, Departement, DepartementStatus, NRAStatus, Response, ResponseView,
    TargetType, BASE_URL, DSLAM, NRA,
};
use vstd::prelude::*;
use vstd::string::StringExecFns;

verus! {

/// The path that asks about `target`: the base resource, a slash, and the
/// name as it stands.
pub open spec fn url_of(target: Seq<char>) -> Seq<char> {
    BASE_URL@ + "/"@ + target
}

/// The path to fetch for `target`.
pub fn request_url(target: &str) -> (url: String)
    ensures
        url@ == url_of(target@),
{
    BASE_URL.to_owned().concat("/").concat(target)
}

/// Whether `outcome` is what a query for the target of kind `target_type`
/// and name `target` comes to when its transfer ended in `transfer`, with
/// the status told in the `words` of one kind: the status that the body
/// carries; the error that names the target, where the body carries none;
/// the transport's failure, unchanged, where there is no body.
pub open spec fn concludes_as<S>(
    transfer: Result<String, reqwest::Error>,
    target_type: TargetType,
    target: Seq<char>,
    words: spec_fn(bool) -> S,
    outcome: Result<S, ApiError>,
) -> bool {
    match transfer {
        Ok(payload) => match status_in(payload@) {
            Some(status) => outcome == Ok::<S, ApiError>(words(status)),
            None => outcome is Err && outcome->Err_0.is_nonexistent(target_type, target),
        },
        Err(failure) => outcome == Err::<S, ApiError>(ApiError::Reqwest(failure)),
    }
}

/// `concludes_as`, with the status as the bare boolean.
pub open spec fn concludes(
    transfer: Result<String, reqwest::Error>,
    target_type: TargetType,
    target: Seq<char>,
    outcome: Result<bool, ApiError>,
) -> bool {
    concludes_as(transfer, target_type, target, |status: bool| status, outcome)
}

/// What a response body says of a target of kind `target_type` and name
/// `target`: its status, or that the service knows none for it.
pub fn read_status(payload: &str, target_type: TargetType, target: &str) -> (outcome: Result<
    bool,
    ApiError,
>)
    ensures
        match status_in(payload@) {
            Some(status) => outcome == Ok::<bool, ApiError>(status),
            None => outcome is Err && outcome->Err_0.is_nonexistent(target_type, target@),
        },
{
    match extract_status_from_xml(payload) {
        Some(status) => Ok(status),
        None => Err(ApiError::NonExistent(target_type, target.to_owned())),
    }
}

/// Concludes a query for `target` from the end of its transfer.
pub fn status_from_transfer(
    transfer: Result<String, reqwest::Error>,
    target_type: TargetType,
    target: &str,
) -> (outcome: Result<bool, ApiError>)
    ensures
        concludes(transfer, target_type, target@, outcome),
{
    match transfer {
        Ok(payload) => read_status(payload.as_str(), target_type, target),
        Err(failure) => Err(ApiError::from(failure)),
    }
}

/// The status of a departement, from the end of the transfer that asked
/// for it.
pub fn get_departement_status(
    request: &Departement,
    transfer: Result<String, reqwest::Error>,
) -> (outcome: Result<DepartementStatus, ApiError>)
    ensures
        concludes_as(
            transfer,
            TargetType::DEPARTEMENT,
            request@,
            |status: bool| DepartementStatus::of(status),
            outcome,
        ),
{
    let target = request.to_string();
    match status_from_transfer(transfer, TargetType::DEPARTEMENT, target.as_str()) {
        Ok(status) => Ok(DepartementStatus::from(status)),
        Err(error) => Err(error),
    }
}

/// The status of a DSLAM, from the end of the transfer that asked for it.
pub fn get_dslam_status(request: &DSLAM, transfer: Result<String, reqwest::Error>) -> (outcome:
    Result<DSLAMStatus, ApiError>)
    ensures
        concludes_as(
            transfer,
            TargetType::DSLAM,
            request@,
            |status: bool| DSLAMStatus::of(status),
            outcome,
        ),
{
    match status_from_transfer(transfer, TargetType::DSLAM, request.0.as_str()) {
        Ok(status) => Ok(DSLAMStatus::from(status)),
        Err(error) => Err(error),
    }
}

/// The status of an NRA, from the end of the transfer that asked for it.
pub fn get_nra_status(request: &NRA, transfer: Result<String, reqwest::Error>) -> (outcome: Result<
    NRAStatus,
    ApiError,
>)
    ensures
        concludes_as(
            transfer,
            TargetType::NRA,
            request@,
            |status: bool| NRAStatus::of(status),
            outcome,
        ),
{
    match status_from_transfer(transfer, TargetType::NRA, request.0.as_str()) {
        Ok(status) => Ok(NRAStatus::from(status)),
        Err(error) => Err(error),
    }
}

/// The bare status of the target of a request, from the end of the
/// transfer that asked for it.
pub fn get_status(request: &Request, transfer: Result<String, reqwest::Error>) -> (outcome: Result<
    bool,
    ApiError,
>)
    ensures
        concludes(transfer, request@.target_type, request@.target, outcome),
{
    status_from_transfer(transfer, request.target_type(), request.target())
}

/// The response that reports `status` for `request`, in the words of the
/// request's kind.
pub open spec fn status_report(request: RequestView, status: bool) -> ResponseView {
    match request.target_type {
        TargetType::NRA => ResponseView::NRA {
            target: request.target,
            target_status: NRAStatus::of(status),
        },
        TargetType::DSLAM => ResponseView::DSLAM {
            target: request.target,
            target_status: DSLAMStatus::of(status),
        },
        TargetType::DEPARTEMENT => ResponseView::DEPARTEMENT {
            target: request.target,
            target_status: DepartementStatus::of(status),
        },
    }
}

/// The response that reports a failure for `request`, with `message` as
/// its words.
pub open spec fn error_report(request: RequestView, message: Seq<char>) -> ResponseView {
    ResponseView::Error {
        target: request.target,
        target_type: request.target_type,
        error_message: message,
    }
}

/// Reports a failure for `request` in the given words.
pub fn error_response(request: &Request, message: String) -> (response: Response)
    ensures
        response@ == error_report(request@, message@),
{
    Response::Error {
        target: request.target().to_owned(),
        target_type: request.target_type(),
        error_message: message,
    }
}

/// Reports `status` for `request`.
pub fn status_response(request: &Request, status: bool) -> (response: Response)
    ensures
        response@ == status_report(request@, status),
{
    let target = request.target().to_owned();
    match request.target_type() {
        TargetType::NRA => Response::NRA { target, target_status: NRAStatus::from(status) },
        TargetType::DSLAM => Response::DSLAM { target, target_status: DSLAMStatus::from(status) },
        TargetType::DEPARTEMENT => Response::DEPARTEMENT {
            target,
            target_status: DepartementStatus::from(status),
        },
    }
}

/// Turns the outcome of a query for `request` into a value to report. An
/// error becomes data: the response names the request and carries the
/// error's message, which for a failed transfer is the transport's own.
pub fn respond(request: &Request, outcome: Result<bool, ApiError>) -> (response: Response)
    ensures
        match outcome {
            Ok(status) => response@ == status_report(request@, status),
            Err(ApiError::NonExistent(target_type, target)) => response@ == error_report(
                request@,
                ApiError::nonexistent_message(target_type, target@),
            ),
            Err(ApiError::Reqwest(_)) => response@ == error_report(
                request@,
                response@->Error_error_message,
            ),
        },
{
    match outcome {
        Ok(status) => status_response(request, status),
        Err(error) => error_response(request, error.to_string()),
    }
}

/// The response to report for `request`, from the end of the transfer that
/// asked for it. It never fails: a body without a status and a failed
/// transfer are both reported as `Response::Error`.
pub fn get(request: &Request, transfer: Result<String, reqwest::Error>) -> (response: Response)
    ensures
        match transfer {
            Ok(payload) => match status_in(payload@) {
                Some(status) => response@ == status_report(request@, status),
                None => response@ == error_report(
                    request@,
                    ApiError::nonexistent_message(request@.target_type, request@.target),
                ),
            },
            Err(_) => response@ == error_report(request@, response@->Error_error_message),
        },
{
    respond(request, get_status(request, transfer))
}

} // verus!
