use vstd::prelude::*;
use vstd::string::*;

use crate::ack::{create_ack_error_message, create_ack_ok_message, Ack, AckStatus};
use crate::driver::DriverEndpoint;
use crate::message::{is_next_message, next_message, same_message, StepMessage};
use crate::relay::{
    create_client_address, get_relay_from_message, get_relay_params, spec_client_address,
    spec_relay_params, RelayEndpoint, DEFAULT_RELAY_HOST, DEFAULT_RELAY_PORT,
};
use crate::state::{detail_text, is_state_write_for, DispatchResult, StateWrite};
use crate::step::{lemma_steps_advance_by_one, Step};
use crate::store::{StoreError, StoreKind};

verus! {

/// Opening of the request id of a transfer proposal, before any session exists.
pub const PROPOSAL_CLAIMS_REQUEST_PREFIX: &'static str = "transfer_proposal_claims:";

/// Opening of the request id of a transfer proposal receipt.
pub const PROPOSAL_RECEIPT_REQUEST_PREFIX: &'static str = "transfer_proposal_receipt:";

/// Closing of the request id under which the lock of a session's asset is
/// tracked, apart from the session's own messages.
pub const LOCK_REQUEST_SUFFIX: &'static str = ":lock";

/// The key under which a message and its state are kept: the session id,
/// or, for the two steps that precede the session, an id derived from the
/// transfer context that the proposal and its receipt share.
pub open spec fn spec_request_id(msg: StepMessage) -> Seq<char> {
    if msg.step == Step::TransferProposalClaims {
        PROPOSAL_CLAIMS_REQUEST_PREFIX@ + msg.transfer_context_id@
    } else if msg.step == Step::TransferProposalReceipt {
        PROPOSAL_RECEIPT_REQUEST_PREFIX@ + msg.transfer_context_id@
    } else {
        msg.session_id@
    }
}

/// The request id under which the asset lock of `msg`'s session is tracked.
pub open spec fn spec_lock_request_id(msg: StepMessage) -> Seq<char> {
    msg.session_id@ + LOCK_REQUEST_SUFFIX@
}

/// The key space an inbound message of step `s` is kept in: the receiving
/// side's (remote) for the requests that open a phase, the local one for
/// the rest.
pub open spec fn spec_store_for_step(s: Step) -> StoreKind {
    match s {
        Step::TransferProposalClaims | Step::TransferCommence | Step::LockAssertion => StoreKind::RemoteRequests,
        _ => StoreKind::LocalRequests,
    }
}

/// Whether an inbound message passes its step's checks. No check is defined
/// yet: every message passes.
pub open spec fn spec_is_valid(msg: StepMessage) -> bool {
    true
}

/// Text of the success acknowledgment of each step. Some steps share a
/// text: the receipt answers with the proposal's, the lock assertion receipt
/// with the lock assertion's, and the steps from commit prepare to the ack
/// of the final receipt with commit prepare's.
pub open spec fn spec_ack_ok_text(s: Step) -> Seq<char> {
    match s {
        Step::TransferProposalClaims => "Ack of the Transfer Proposal Claims request"@,
        Step::TransferProposalReceipt => "Ack of the Transfer Proposal Claims request"@,
        Step::TransferCommence => "Ack of the Commence Response request"@,
        Step::AckCommence => "Ack of the ack commence request"@,
        Step::SendAssetStatus => "Ack of the Send Asset Status request"@,
        Step::LockAssertion => "Ack of the Lock Assertion request"@,
        Step::LockAssertionReceipt => "Ack of the Lock Assertion request"@,
        Step::CommitPrepare => "Ack of the commit prepare request"@,
        Step::CommitReady => "Ack of the commit prepare request"@,
        Step::CommitFinalAssertion => "Ack of the commit prepare request"@,
        Step::AckFinalReceipt => "Ack of the commit prepare request"@,
        Step::TransferCompleted => "Ack of the Transfer Completed request"@,
    }
}

pub fn ack_ok_text(s: Step) -> (r: &'static str)
    ensures
        r@ == spec_ack_ok_text(s),
{
    match s {
        Step::TransferProposalClaims => "Ack of the Transfer Proposal Claims request",
        Step::TransferProposalReceipt => "Ack of the Transfer Proposal Claims request",
        Step::TransferCommence => "Ack of the Commence Response request",
        Step::AckCommence => "Ack of the ack commence request",
        Step::SendAssetStatus => "Ack of the Send Asset Status request",
        Step::LockAssertion => "Ack of the Lock Assertion request",
        Step::LockAssertionReceipt => "Ack of the Lock Assertion request",
        Step::CommitPrepare => "Ack of the commit prepare request",
        Step::CommitReady => "Ack of the commit prepare request",
        Step::CommitFinalAssertion => "Ack of the commit prepare request",
        Step::AckFinalReceipt => "Ack of the commit prepare request",
        Step::TransferCompleted => "Ack of the Transfer Completed request",
    }
}

/// Text of the error acknowledgment of a message that fails its step's checks.
pub open spec fn spec_invalid_text(s: Step) -> Seq<char> {
    match s {
        Step::TransferProposalClaims => "Error: The transfer proposal claims request is invalid"@,
        Step::TransferProposalReceipt => "Error: The transfer proposal receipt request is invalid"@,
        Step::TransferCommence => "Error: The transfer commence request is invalid"@,
        Step::AckCommence => "Error: The ack commence request is invalid"@,
        Step::SendAssetStatus => "Error: The send asset status request is invalid"@,
        Step::LockAssertion => "Error: The lock assertion request is invalid"@,
        Step::LockAssertionReceipt => "Error: The lock assertion receipt request is invalid"@,
        Step::CommitPrepare => "Error: The commit prepare request is invalid"@,
        Step::CommitReady => "Error: The commit ready request is invalid"@,
        Step::CommitFinalAssertion => "Error: The commit final assertion request is invalid"@,
        Step::AckFinalReceipt => "Error: The ack final receipt request is invalid"@,
        Step::TransferCompleted => "Error: The transfer completed request is invalid"@,
    }
}

pub fn invalid_text(s: Step) -> (r: &'static str)
    ensures
        r@ == spec_invalid_text(s),
{
    match s {
        Step::TransferProposalClaims => "Error: The transfer proposal claims request is invalid",
        Step::TransferProposalReceipt => "Error: The transfer proposal receipt request is invalid",
        Step::TransferCommence => "Error: The transfer commence request is invalid",
        Step::AckCommence => "Error: The ack commence request is invalid",
        Step::SendAssetStatus => "Error: The send asset status request is invalid",
        Step::LockAssertion => "Error: The lock assertion request is invalid",
        Step::LockAssertionReceipt => "Error: The lock assertion receipt request is invalid",
        Step::CommitPrepare => "Error: The commit prepare request is invalid",
        Step::CommitReady => "Error: The commit ready request is invalid",
        Step::CommitFinalAssertion => "Error: The commit final assertion request is invalid",
        Step::AckFinalReceipt => "Error: The ack final receipt request is invalid",
        Step::TransferCompleted => "Error: The transfer completed request is invalid",
    }
}

/// Opening of the error acknowledgment when no driver can lock the asset.
pub const DRIVER_NOT_FOUND_TEXT: &'static str = "Error: Ack of the ack commence request failed. Driver not found ";

pub open spec fn store_error_context(s: Step) -> Seq<char> {
    "Error storing "@ + s.spec_tag() + "Request in "@ + spec_store_for_step(s).spec_side()
        + " satp_db for request_id"@
}

pub fn get_request_id_from_transfer_proposal_claims(request: &StepMessage) -> (r: String)
    ensures
        r@ == PROPOSAL_CLAIMS_REQUEST_PREFIX@ + request.transfer_context_id@,
{
    String::from_str(PROPOSAL_CLAIMS_REQUEST_PREFIX).concat(request.transfer_context_id.as_str())
}

pub fn get_request_id_from_transfer_proposal_receipt(request: &StepMessage) -> (r: String)
    ensures
        r@ == PROPOSAL_RECEIPT_REQUEST_PREFIX@ + request.transfer_context_id@,
{
    String::from_str(PROPOSAL_RECEIPT_REQUEST_PREFIX).concat(request.transfer_context_id.as_str())
}

pub fn request_id_for(msg: &StepMessage) -> (r: String)
    ensures
        r@ == spec_request_id(*msg),
{
    match msg.step {
        Step::TransferProposalClaims => get_request_id_from_transfer_proposal_claims(msg),
        Step::TransferProposalReceipt => get_request_id_from_transfer_proposal_receipt(msg),
        _ => msg.session_id.clone(),
    }
}

pub fn store_for_step(s: Step) -> (r: StoreKind)
    ensures
        r == spec_store_for_step(s),
{
    match s {
        Step::TransferProposalClaims | Step::TransferCommence | Step::LockAssertion => StoreKind::RemoteRequests,
        _ => StoreKind::LocalRequests,
    }
}

pub fn is_valid_request(msg: &StepMessage) -> (r: bool)
    ensures
        r == spec_is_valid(*msg),
{
    true
}

/// Where an inbound message is to be persisted before anything is decided.
#[derive(Clone, Debug)]
pub struct RequestWrite {
    pub store: StoreKind,
    pub key: String,
}

/// First half of a step: the key space and key of the inbound message.
pub fn inbound_request_write(msg: &StepMessage) -> (w: RequestWrite)
    ensures
        w.store == spec_store_for_step(msg.step),
        w.key@ == spec_request_id(*msg),
{
    RequestWrite { store: store_for_step(msg.step), key: request_id_for(msg) }
}

/// An outbound message ready to be sent: to which relay, how, and the
/// request id whose state the outcome updates.
#[derive(Clone, Debug)]
pub struct Dispatch {
    pub message: StepMessage,
    pub request_id: String,
    pub relay_host: String,
    pub relay_port: String,
    pub use_tls: bool,
    pub tlsca_cert_path: String,
    pub address: String,
}

/// A request to a ledger driver to lock the session's asset, and the
/// request id whose state its answer updates.
#[derive(Clone, Debug)]
pub struct LockOrder {
    pub driver: DriverEndpoint,
    pub request_id: String,
}

/// What a step handler answers: the acknowledgment for its caller, the
/// next message to send, if any, and the lock to order, if any.
#[derive(Clone, Debug)]
pub struct StepReply {
    pub ack: Ack,
    pub dispatch: Option<Dispatch>,
    pub perform_lock: Option<LockOrder>,
}

/// `d` goes to the default relay, with the TLS settings that the relay table
/// gives for it, under the request id of the message it carries.
pub open spec fn is_routed(relays: Seq<RelayEndpoint>, d: Dispatch) -> bool {
    &&& d.request_id@ == spec_request_id(d.message)
    &&& d.relay_host@ == DEFAULT_RELAY_HOST@
    &&& d.relay_port@ == DEFAULT_RELAY_PORT@
    &&& (d.use_tls, d.tlsca_cert_path@) == spec_relay_params(relays, d.relay_host@, d.relay_port@)
    &&& d.address@ == spec_client_address(d.relay_host@, d.relay_port@)
}

/// `d` sends the message that follows `msg`, routed as `is_routed` says.
pub open spec fn is_dispatch_after(
    msg: StepMessage,
    fresh_session_id: Seq<char>,
    relays: Seq<RelayEndpoint>,
    d: Dispatch,
) -> bool {
    &&& is_next_message(msg, fresh_session_id, d.message)
    &&& is_routed(relays, d)
}

fn route(message: StepMessage, relays: &Vec<RelayEndpoint>) -> (r: Dispatch)
    ensures
        r.message == message,
        is_routed(relays@, r),
{
    let request_id = request_id_for(&message);
    let (relay_host, relay_port) = get_relay_from_message(&message);
    let (use_tls, tlsca_cert_path) = get_relay_params(&relay_host, &relay_port, relays);
    let address = create_client_address(relay_host.clone(), relay_port.clone());
    Dispatch { message, request_id, relay_host, relay_port, use_tls, tlsca_cert_path, address }
}

/// Builds the dispatch of the message that follows the non-terminal `msg`.
pub fn plan_dispatch(msg: &StepMessage, fresh_session_id: &String, relays: &Vec<RelayEndpoint>) -> (r: Dispatch)
    requires
        msg.step.spec_next() is Some,
    ensures
        is_dispatch_after(*msg, fresh_session_id@, relays@, r),
{
    let message = match next_message(msg, fresh_session_id) {
        Some(m) => m,
        None => {
            proof {
                assert(false);
            }
            msg.clone()
        },
    };
    route(message, relays)
}

/// Starts a transfer: the dispatch that sends the proposal itself to the
/// counterpart gateway.
pub fn plan_transfer_proposal_dispatch(proposal: &StepMessage, relays: &Vec<RelayEndpoint>) -> (r: Dispatch)
    requires
        proposal.step == Step::TransferProposalClaims,
    ensures
        same_message(r.message, *proposal),
        r.request_id@ == spec_request_id(*proposal),
        is_routed(relays@, r),
{
    route(proposal.duplicate(), relays)
}

/// Opening of the error acknowledgment when the relay table cannot be read.
pub const RELAY_TABLE_ERROR_TEXT: &'static str = "Error: the relay table cannot be read. ";

/// `r` forwards the valid, non-terminal `msg` with the relay table `relays`:
/// it acknowledges the step and dispatches its successor, or, when the table
/// cannot be read, answers with an error and sends nothing.
pub open spec fn forwards(
    msg: StepMessage,
    fresh_session_id: Seq<char>,
    relays: Result<Vec<RelayEndpoint>, String>,
    r: StepReply,
) -> bool {
    match relays {
        Err(e) => {
            &&& r.ack.status == AckStatus::Failure
            &&& r.ack.message@ == RELAY_TABLE_ERROR_TEXT@ + e@
            &&& r.dispatch is None
        },
        Ok(table) => {
            &&& r.ack.status == AckStatus::Success
            &&& r.ack.message@ == spec_ack_ok_text(msg.step)
            &&& r.dispatch matches Some(d) && is_dispatch_after(msg, fresh_session_id, table@, d)
        },
    }
}

/// `r` is the outcome of processing the persisted message `msg` of any step
/// but the ack of commence, given whether it passed its step's checks
/// (`valid`): the terminal step is acknowledged and goes no further; any
/// other step is forwarded when valid, and answered with an error and not
/// forwarded when not. No lock is ordered.
pub open spec fn processes(
    msg: StepMessage,
    valid: bool,
    fresh_session_id: Seq<char>,
    relays: Result<Vec<RelayEndpoint>, String>,
    r: StepReply,
) -> bool {
    &&& r.ack.request_id@ == spec_request_id(msg)
    &&& r.perform_lock is None
    &&& if msg.step.spec_next() is None {
        &&& r.ack.status == AckStatus::Success
        &&& r.ack.message@ == spec_ack_ok_text(msg.step)
        &&& r.dispatch is None
    } else if valid {
        forwards(msg, fresh_session_id, relays, r)
    } else {
        &&& r.ack.status == AckStatus::Failure
        &&& r.ack.message@ == spec_invalid_text(msg.step)
        &&& r.dispatch is None
    }
}

fn rejected(msg: &StepMessage) -> (r: StepReply)
    ensures
        r.ack.status == AckStatus::Failure,
        r.ack.request_id@ == spec_request_id(*msg),
        r.ack.message@ == spec_invalid_text(msg.step),
        r.dispatch is None,
        r.perform_lock is None,
{
    StepReply {
        ack: Ack {
            status: AckStatus::Failure,
            request_id: request_id_for(msg),
            message: String::from_str(invalid_text(msg.step)),
        },
        dispatch: None,
        perform_lock: None,
    }
}

fn forward(
    msg: &StepMessage,
    fresh_session_id: &String,
    relays: &Result<Vec<RelayEndpoint>, String>,
) -> (r: StepReply)
    requires
        msg.step.spec_next() is Some,
    ensures
        forwards(*msg, fresh_session_id@, *relays, r),
        r.ack.request_id@ == spec_request_id(*msg),
        r.perform_lock is None,
{
    let request_id = request_id_for(msg);
    match relays {
        Err(e) => StepReply {
            ack: Ack {
                status: AckStatus::Failure,
                request_id,
                message: String::from_str(RELAY_TABLE_ERROR_TEXT).concat(e.as_str()),
            },
            dispatch: None,
            perform_lock: None,
        },
        Ok(table) => StepReply {
            ack: create_ack_ok_message(request_id, String::from_str(ack_ok_text(msg.step))),
            dispatch: Some(plan_dispatch(msg, fresh_session_id, table)),
            perform_lock: None,
        },
    }
}

/// Second half of a step, once its message is persisted and checked: if
/// valid, acknowledge it and plan the next hop.
pub fn process_step(
    msg: &StepMessage,
    valid: bool,
    fresh_session_id: &String,
    relays: &Result<Vec<RelayEndpoint>, String>,
) -> (r: StepReply)
    requires
        msg.step != Step::AckCommence,
    ensures
        processes(*msg, valid, fresh_session_id@, *relays, r),
{
    if msg.step.is_terminal() {
        let request_id = request_id_for(msg);
        let text = String::from_str(ack_ok_text(msg.step));
        StepReply { ack: create_ack_ok_message(request_id, text), dispatch: None, perform_lock: None }
    } else if valid {
        forward(msg, fresh_session_id, relays)
    } else {
        rejected(msg)
    }
}

/// `r` is the outcome of processing a persisted ack of commence, given
/// whether it passed its checks and how the lookup of the driver that locks
/// the asset ended: an invalid message, or a driver that cannot be found,
/// is answered with an error and goes no further; otherwise the message is
/// forwarded and, if that succeeds, the driver is asked to lock the asset,
/// under a request id of its own.
pub open spec fn processes_ack_commence(
    msg: StepMessage,
    valid: bool,
    driver: Result<DriverEndpoint, String>,
    relays: Result<Vec<RelayEndpoint>, String>,
    r: StepReply,
) -> bool {
    &&& r.ack.request_id@ == spec_request_id(msg)
    &&& if !valid {
        &&& r.ack.status == AckStatus::Failure
        &&& r.ack.message@ == spec_invalid_text(msg.step)
        &&& r.dispatch is None
        &&& r.perform_lock is None
    } else {
        match driver {
            Err(e) => {
                &&& r.ack.status == AckStatus::Failure
                &&& r.ack.message@ == DRIVER_NOT_FOUND_TEXT@ + e@
                &&& r.dispatch is None
                &&& r.perform_lock is None
            },
            Ok(d) => {
                &&& forwards(msg, Seq::<char>::empty(), relays, r)
                &&& if relays is Ok {
                    r.perform_lock matches Some(l) && l.driver == d && l.request_id@
                        == spec_lock_request_id(msg)
                } else {
                    r.perform_lock is None
                }
            },
        }
    }
}

/// Processes a persisted ack of commence, consulting the driver lookup.
pub fn process_ack_commence_request(
    msg: &StepMessage,
    valid: bool,
    driver: &Result<DriverEndpoint, String>,
    relays: &Result<Vec<RelayEndpoint>, String>,
) -> (r: StepReply)
    requires
        msg.step == Step::AckCommence,
    ensures
        processes_ack_commence(*msg, valid, *driver, *relays, r),
{
    if !valid {
        return rejected(msg);
    }
    match driver {
        Err(e) => {
            let text = String::from_str(DRIVER_NOT_FOUND_TEXT).concat(e.as_str());
            StepReply {
                ack: Ack { status: AckStatus::Failure, request_id: request_id_for(msg), message: text },
                dispatch: None,
                perform_lock: None,
            }
        },
        Ok(d) => {
            let reply = forward(msg, &String::new(), relays);
            if relays.is_ok() {
                let lock = LockOrder {
                    driver: d.duplicate(),
                    request_id: msg.session_id.clone().concat(LOCK_REQUEST_SUFFIX),
                };
                StepReply { ack: reply.ack, dispatch: reply.dispatch, perform_lock: Some(lock) }
            } else {
                reply
            }
        },
    }
}

fn store_failed(msg: &StepMessage, e: &StoreError) -> (r: StepReply)
    ensures
        store_failure_reply(*msg, *e, r),
{
    let context = String::from_str("Error storing ")
        .concat(msg.step.tag())
        .concat("Request in ")
        .concat(store_for_step(msg.step).side())
        .concat(" satp_db for request_id");
    StepReply {
        ack: create_ack_error_message(request_id_for(msg), context, e),
        dispatch: None,
        perform_lock: None,
    }
}

/// A failed write of the inbound message is answered with an error, and
/// nothing is forwarded or locked.
pub open spec fn store_failure_reply(msg: StepMessage, e: StoreError, r: StepReply) -> bool {
    &&& r.ack.status == AckStatus::Failure
    &&& r.ack.request_id@ == spec_request_id(msg)
    &&& r.ack.message@ == store_error_context(msg.step) + " "@ + e.spec_describe()
    &&& r.dispatch is None
    &&& r.perform_lock is None
}

/// `r` is the answer to the inbound `msg` (any step but the ack of
/// commence) once persisting it ended with `stored`.
pub open spec fn handles(
    msg: StepMessage,
    stored: Result<(), StoreError>,
    valid: bool,
    fresh_session_id: Seq<char>,
    relays: Result<Vec<RelayEndpoint>, String>,
    r: StepReply,
) -> bool {
    match stored {
        Err(e) => store_failure_reply(msg, e, r),
        Ok(_) => processes(msg, valid, fresh_session_id, relays, r),
    }
}

/// The answer of the step handler to the inbound `msg`, after the write that
/// `inbound_request_write` named ended with `stored`, the step's checks gave
/// `valid`, and reading the relay table gave `relays`.
pub fn handle_inbound(
    msg: &StepMessage,
    stored: &Result<(), StoreError>,
    valid: bool,
    fresh_session_id: &String,
    relays: &Result<Vec<RelayEndpoint>, String>,
) -> (r: StepReply)
    requires
        msg.step != Step::AckCommence,
    ensures
        handles(*msg, *stored, valid, fresh_session_id@, *relays, r),
{
    match stored {
        Err(e) => store_failed(msg, e),
        Ok(_) => process_step(msg, valid, fresh_session_id, relays),
    }
}

/// The answer of the step handler to an inbound ack of commence, after its
/// write ended with `stored`, its checks gave `valid`, the driver lookup
/// gave `driver` and reading the relay table gave `relays`.
pub fn handle_ack_commence(
    msg: &StepMessage,
    stored: &Result<(), StoreError>,
    valid: bool,
    driver: &Result<DriverEndpoint, String>,
    relays: &Result<Vec<RelayEndpoint>, String>,
) -> (r: StepReply)
    requires
        msg.step == Step::AckCommence,
    ensures
        match *stored {
            Err(e) => store_failure_reply(*msg, e, r),
            Ok(_) => processes_ack_commence(*msg, valid, *driver, *relays, r),
        },
{
    match stored {
        Err(e) => store_failed(msg, e),
        Ok(_) => process_ack_commence_request(msg, valid, driver, relays),
    }
}

/// A handled step that is forwarded sends the message of the very next step,
/// in the same transfer context and, once the session exists, in the same
/// session.
pub proof fn lemma_dispatch_keeps_session(
    msg: StepMessage,
    stored: Result<(), StoreError>,
    valid: bool,
    fresh_session_id: Seq<char>,
    relays: Result<Vec<RelayEndpoint>, String>,
    r: StepReply,
)
    requires
        handles(msg, stored, valid, fresh_session_id, relays, r),
        r.dispatch is Some,
    ensures
        r.dispatch->Some_0.message.step.spec_index() == msg.step.spec_index() + 1,
        r.dispatch->Some_0.message.transfer_context_id@ == msg.transfer_context_id@,
        msg.step != Step::TransferProposalClaims ==> r.dispatch->Some_0.message.session_id@
            == msg.session_id@,
{
    lemma_steps_advance_by_one(msg.step);
}

/// Whatever a forwarded step's outbound call ends with, closing it takes one
/// state write: under the request id of the message sent, into the local
/// state key space, and two such writes for the same outcome are the same
/// write.
pub proof fn lemma_one_state_write_per_dispatch(
    msg: StepMessage,
    stored: Result<(), StoreError>,
    valid: bool,
    fresh_session_id: Seq<char>,
    relays: Result<Vec<RelayEndpoint>, String>,
    r: StepReply,
    result: DispatchResult,
    w1: StateWrite,
    w2: StateWrite,
)
    requires
        handles(msg, stored, valid, fresh_session_id, relays, r),
        r.dispatch is Some,
        is_state_write_for(r.dispatch->Some_0.request_id@, result, w1),
        is_state_write_for(r.dispatch->Some_0.request_id@, result, w2),
    ensures
        w1.store == StoreKind::LocalRequestStates,
        w1.key@ == spec_request_id(r.dispatch->Some_0.message),
        w1.store == w2.store,
        w1.key@ == w2.key@,
        w1.record.request_id@ == w2.record.request_id@,
        w1.record.status == w2.record.status,
        detail_text(w1.record.state) == detail_text(w2.record.state),
{
}

/// At the ack of commence the forwarded message and the lock are tracked
/// under different request ids, so their two state writes never share a
/// record.
pub proof fn lemma_lock_and_dispatch_keep_apart(
    msg: StepMessage,
    valid: bool,
    driver: Result<DriverEndpoint, String>,
    relays: Result<Vec<RelayEndpoint>, String>,
    r: StepReply,
)
    requires
        msg.step == Step::AckCommence,
        processes_ack_commence(msg, valid, driver, relays, r),
        r.dispatch is Some,
        r.perform_lock is Some,
    ensures
        r.dispatch->Some_0.request_id@ != r.perform_lock->Some_0.request_id@,
{
    let d = r.dispatch->Some_0;
    let l = r.perform_lock->Some_0;
    reveal_strlit(":lock");
    assert(d.request_id@ == msg.session_id@);
    assert(l.request_id@.len() == msg.session_id@.len() + 5);
}

/// Processes a persisted transfer proposal; the receipt opens the session
/// under `fresh_session_id`.
pub fn process_transfer_proposal_claims_request(
    msg: &StepMessage,
    fresh_session_id: &String,
    relays: &Result<Vec<RelayEndpoint>, String>,
) -> (r: StepReply)
    requires
        msg.step == Step::TransferProposalClaims,
    ensures
        processes(*msg, spec_is_valid(*msg), fresh_session_id@, *relays, r),
{
    process_step(msg, is_valid_request(msg), fresh_session_id, relays)
}

pub fn process_transfer_proposal_receipt_request(msg: &StepMessage, relays: &Result<Vec<RelayEndpoint>, String>) -> (r: StepReply)
    requires
        msg.step == Step::TransferProposalReceipt,
    ensures
        processes(*msg, spec_is_valid(*msg), Seq::<char>::empty(), *relays, r),
{
    process_step(msg, is_valid_request(msg), &String::new(), relays)
}

pub fn process_transfer_commence_request(msg: &StepMessage, relays: &Result<Vec<RelayEndpoint>, String>) -> (r: StepReply)
    requires
        msg.step == Step::TransferCommence,
    ensures
        processes(*msg, spec_is_valid(*msg), Seq::<char>::empty(), *relays, r),
{
    process_step(msg, is_valid_request(msg), &String::new(), relays)
}

pub fn process_send_asset_status_request(msg: &StepMessage, relays: &Result<Vec<RelayEndpoint>, String>) -> (r: StepReply)
    requires
        msg.step == Step::SendAssetStatus,
    ensures
        processes(*msg, spec_is_valid(*msg), Seq::<char>::empty(), *relays, r),
{
    process_step(msg, is_valid_request(msg), &String::new(), relays)
}

pub fn process_lock_assertion_request(msg: &StepMessage, relays: &Result<Vec<RelayEndpoint>, String>) -> (r: StepReply)
    requires
        msg.step == Step::LockAssertion,
    ensures
        processes(*msg, spec_is_valid(*msg), Seq::<char>::empty(), *relays, r),
{
    process_step(msg, is_valid_request(msg), &String::new(), relays)
}

pub fn process_lock_assertion_receipt_request(msg: &StepMessage, relays: &Result<Vec<RelayEndpoint>, String>) -> (r: StepReply)
    requires
        msg.step == Step::LockAssertionReceipt,
    ensures
        processes(*msg, spec_is_valid(*msg), Seq::<char>::empty(), *relays, r),
{
    process_step(msg, is_valid_request(msg), &String::new(), relays)
}

pub fn process_commit_prepare_request(msg: &StepMessage, relays: &Result<Vec<RelayEndpoint>, String>) -> (r: StepReply)
    requires
        msg.step == Step::CommitPrepare,
    ensures
        processes(*msg, spec_is_valid(*msg), Seq::<char>::empty(), *relays, r),
{
    process_step(msg, is_valid_request(msg), &String::new(), relays)
}

pub fn process_commit_ready_request(msg: &StepMessage, relays: &Result<Vec<RelayEndpoint>, String>) -> (r: StepReply)
    requires
        msg.step == Step::CommitReady,
    ensures
        processes(*msg, spec_is_valid(*msg), Seq::<char>::empty(), *relays, r),
{
    process_step(msg, is_valid_request(msg), &String::new(), relays)
}

pub fn process_commit_final_assertion_request(msg: &StepMessage, relays: &Result<Vec<RelayEndpoint>, String>) -> (r: StepReply)
    requires
        msg.step == Step::CommitFinalAssertion,
    ensures
        processes(*msg, spec_is_valid(*msg), Seq::<char>::empty(), *relays, r),
{
    process_step(msg, is_valid_request(msg), &String::new(), relays)
}

pub fn process_ack_final_receipt_request(msg: &StepMessage, relays: &Result<Vec<RelayEndpoint>, String>) -> (r: StepReply)
    requires
        msg.step == Step::AckFinalReceipt,
    ensures
        processes(*msg, spec_is_valid(*msg), Seq::<char>::empty(), *relays, r),
{
    process_step(msg, is_valid_request(msg), &String::new(), relays)
}

} // verus!
