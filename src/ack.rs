use vstd::prelude::*;
use vstd::string::*;

use crate::store::StoreError;

verus! {

/// Outcome of one hop, as acknowledgments carry it on the wire.
#[derive(PartialEq, Eq, Structural, Clone, Copy, Debug)]
pub enum AckStatus {
    Success,
    Failure,
}

impl AckStatus {
    pub open spec fn spec_code(self) -> i32 {
        match self {
            AckStatus::Success => 0,
            AckStatus::Failure => 1,
        }
    }

    pub open spec fn spec_from_code(code: i32) -> Option<AckStatus> {
        if code == 0 {
            Some(AckStatus::Success)
        } else if code == 1 {
            Some(AckStatus::Failure)
        } else {
            None
        }
    }

    /// The wire code of the status.
    pub fn code(&self) -> (r: i32)
        ensures
            r == self.spec_code(),
    {
        match self {
            AckStatus::Success => 0,
            AckStatus::Failure => 1,
        }
    }

    /// The status of a wire code; codes outside the enumeration have none.
    pub fn from_code(code: i32) -> (r: Option<AckStatus>)
        ensures
            r == Self::spec_from_code(code),
            r matches Some(s) ==> s.spec_code() == code,
    {
        if code == 0 {
            Some(AckStatus::Success)
        } else if code == 1 {
            Some(AckStatus::Failure)
        } else {
            None
        }
    }
}

/// The per-hop acknowledgment that every step handler returns.
#[derive(Clone, Debug)]
pub struct Ack {
    pub status: AckStatus,
    pub request_id: String,
    pub message: String,
}

/// A success acknowledgment of `request_id`.
pub fn create_ack_ok_message(request_id: String, message: String) -> (r: Ack)
    ensures
        r.status == AckStatus::Success,
        r.request_id@ == request_id@,
        r.message@ == message@,
{
    Ack { status: AckStatus::Success, request_id, message }
}

/// An error acknowledgment of `request_id`, whose message is the context
/// followed by the store failure.
pub fn create_ack_error_message(request_id: String, error_message: String, e: &StoreError) -> (r: Ack)
    ensures
        r.status == AckStatus::Failure,
        r.request_id@ == request_id@,
        r.message@ == error_message@ + " "@ + e.spec_describe(),
{
    let detail = e.describe();
    let message = error_message.concat(" ").concat(detail.as_str());
    Ack { status: AckStatus::Failure, request_id, message }
}

} // verus!
