use vstd::prelude::*;
use vstd::string::*;

use crate::ack::AckStatus;
use crate::store::StoreKind;

verus! {

/// What the state record says of a request that was sent out.
#[derive(PartialEq, Eq, Structural, Clone, Copy, Debug)]
pub enum RequestStatus {
    Pending,
    Error,
    Completed,
}

/// Detail that a state record carries beside its status.
#[derive(Clone, Debug)]
pub enum StateDetail {
    Error(String),
}

/// The processing state of one request, kept under its request id and
/// replaced whole on every change.
#[derive(Clone, Debug)]
pub struct RequestState {
    pub request_id: String,
    pub status: RequestStatus,
    pub state: Option<StateDetail>,
}

/// How an outbound call ended: the peer answered with an acknowledgment
/// (whose status code may be outside the enumeration), or the call failed
/// before any answer (connection, TLS, timeout, transport).
#[derive(Clone, Debug)]
pub enum DispatchResult {
    Replied { status: i32, message: String },
    Unreachable(String),
}

/// One write of a state record into a state key space.
#[derive(Clone, Debug)]
pub struct StateWrite {
    pub store: StoreKind,
    pub key: String,
    pub record: RequestState,
}

/// Detail recorded when a peer answers with a status code outside the enumeration.
pub const INVALID_STATUS_MESSAGE: &'static str = "Status is not supported or is invalid";

pub open spec fn detail_text(d: Option<StateDetail>) -> Option<Seq<char>> {
    match d {
        Some(StateDetail::Error(m)) => Some(m@),
        None => None,
    }
}

/// Status and detail that a finished dispatch leaves in the state record:
/// pending after a success acknowledgment, an error with the peer's message
/// after an error acknowledgment, an error naming the invalid status after
/// any other code, and an error with the failure after a failed call.
pub open spec fn spec_state_for_result(result: DispatchResult) -> (RequestStatus, Option<Seq<char>>) {
    match result {
        DispatchResult::Replied { status, message } => match AckStatus::spec_from_code(status) {
            Some(AckStatus::Success) => (RequestStatus::Pending, None),
            Some(AckStatus::Failure) => (RequestStatus::Error, Some(message@)),
            None => (RequestStatus::Error, Some(INVALID_STATUS_MESSAGE@)),
        },
        DispatchResult::Unreachable(detail) => (RequestStatus::Error, Some(detail@)),
    }
}

/// `w` is the write that closes a dispatch of `request_id` that ended with
/// `result`: a single record, under that request id, in the local state key
/// space.
pub open spec fn is_state_write_for(request_id: Seq<char>, result: DispatchResult, w: StateWrite) -> bool {
    &&& w.store == StoreKind::LocalRequestStates
    &&& w.key@ == request_id
    &&& w.record.request_id@ == request_id
    &&& (w.record.status, detail_text(w.record.state)) == spec_state_for_result(result)
}

/// The write that sets the state of `request_id` in the local state key space.
pub fn update_request_state_in_local_satp_db(
    request_id: String,
    new_status: RequestStatus,
    state: Option<StateDetail>,
) -> (w: StateWrite)
    ensures
        w.store == StoreKind::LocalRequestStates,
        w.key@ == request_id@,
        w.record.request_id@ == request_id@,
        w.record.status == new_status,
        w.record.state == state,
{
    let key = request_id.clone();
    StateWrite {
        store: StoreKind::LocalRequestStates,
        key,
        record: RequestState { request_id, status: new_status, state },
    }
}

/// The one state write that closes a dispatch of `request_id`, given how the
/// call ended.
pub fn log_request_result_in_local_satp_db(request_id: &String, result: &DispatchResult) -> (w: StateWrite)
    ensures
        is_state_write_for(request_id@, *result, w),
{
    match result {
        DispatchResult::Replied { status, message } => match AckStatus::from_code(*status) {
            Some(AckStatus::Success) => update_request_state_in_local_satp_db(
                request_id.clone(),
                RequestStatus::Pending,
                None,
            ),
            Some(AckStatus::Failure) => update_request_state_in_local_satp_db(
                request_id.clone(),
                RequestStatus::Error,
                Some(StateDetail::Error(message.clone())),
            ),
            None => update_request_state_in_local_satp_db(
                request_id.clone(),
                RequestStatus::Error,
                Some(StateDetail::Error(String::from_str(INVALID_STATUS_MESSAGE))),
            ),
        },
        DispatchResult::Unreachable(detail) => update_request_state_in_local_satp_db(
            request_id.clone(),
            RequestStatus::Error,
            Some(StateDetail::Error(detail.clone())),
        ),
    }
}

} // verus!
