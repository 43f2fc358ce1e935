//! Protocol engine of the SATP asset-transfer handshake between two gateways:
//! the ordered steps, the message factory, the acknowledgment rules, relay
//! resolution, the request-state bookkeeping and the per-step decisions that
//! the RPC service drives.

mod ack;
mod driver;
mod message;
mod orchestrator;
mod relay;
mod state;
mod step;
mod store;

pub use ack::{create_ack_error_message, create_ack_ok_message, Ack, AckStatus};
pub use driver::{get_driver, DriverEndpoint};
pub use message::{
    copy_claims, create_ack_commence_request, create_lock_assertion_receipt_request,
    create_lock_assertion_request, create_transfer_commence_request,
    create_transfer_proposal_claims_request, create_transfer_proposal_receipt_request,
    lemma_handshake_keeps_session, next_message, Claim, StepMessage,
};
pub use orchestrator::{
    ack_ok_text, get_request_id_from_transfer_proposal_claims,
    get_request_id_from_transfer_proposal_receipt, handle_ack_commence, handle_inbound,
    inbound_request_write, invalid_text, is_valid_request, lemma_dispatch_keeps_session,
    lemma_lock_and_dispatch_keep_apart, lemma_one_state_write_per_dispatch, plan_dispatch,
    plan_transfer_proposal_dispatch,
    process_ack_commence_request, process_ack_final_receipt_request,
    process_commit_final_assertion_request, process_commit_prepare_request,
    process_commit_ready_request, process_lock_assertion_receipt_request,
    process_lock_assertion_request, process_send_asset_status_request, process_step,
    process_transfer_commence_request, process_transfer_proposal_claims_request,
    process_transfer_proposal_receipt_request, request_id_for, store_for_step, Dispatch,
    LockOrder, RequestWrite, StepReply, DRIVER_NOT_FOUND_TEXT, LOCK_REQUEST_SUFFIX,
    PROPOSAL_CLAIMS_REQUEST_PREFIX, PROPOSAL_RECEIPT_REQUEST_PREFIX, RELAY_TABLE_ERROR_TEXT,
};
pub use relay::{
    create_client_address, get_relay_from_ack_commence, get_relay_from_lock_assertion,
    get_relay_from_lock_assertion_receipt, get_relay_from_message, get_relay_from_transfer_commence,
    get_relay_from_transfer_proposal_claims, get_relay_from_transfer_proposal_receipt,
    get_relay_params, RelayEndpoint, DEFAULT_RELAY_HOST, DEFAULT_RELAY_PORT,
};
pub use state::{
    log_request_result_in_local_satp_db, update_request_state_in_local_satp_db, DispatchResult,
    RequestState, RequestStatus, StateDetail, StateWrite, INVALID_STATUS_MESSAGE,
};
pub use step::{lemma_steps_advance_by_one, Step};
pub use store::{
    database_for, database_from_config, get_satp_requests_local_db, get_satp_requests_remote_db,
    get_satp_requests_states_local_db, get_satp_requests_states_remote_db, ConfigError, Database,
    OpenDecision, StoreError, StoreKind, DEFAULT_DB_OPEN_MAX_RETRIES,
    DEFAULT_DB_OPEN_RETRY_BACKOFF_MSEC, SATP_DB_PATH,
};
