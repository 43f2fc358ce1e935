use satp_gateway::{
    create_ack_commence_request, create_lock_assertion_receipt_request,
    create_lock_assertion_request, create_transfer_commence_request,
    create_transfer_proposal_claims_request, create_transfer_proposal_receipt_request, get_driver,
    handle_ack_commence, handle_inbound, inbound_request_write, next_message,
    plan_transfer_proposal_dispatch, process_ack_commence_request, process_step,
    process_transfer_commence_request, process_transfer_proposal_receipt_request, request_id_for,
    AckStatus, Claim, DriverEndpoint, RelayEndpoint, Step, StepMessage, StoreError, StoreKind,
};

fn message(step: Step, session_id: &str) -> StepMessage {
    StepMessage {
        step,
        message_type: step.tag().to_string(),
        session_id: session_id.to_string(),
        transfer_context_id: "ctx-7".to_string(),
        client_identity_pubkey: "client-key".to_string(),
        server_identity_pubkey: "server-key".to_string(),
        hash_prev_message: "h0".to_string(),
        claims: vec![Claim { name: "asset_asset_id".to_string(), value: "a-1".to_string() }],
    }
}

fn proposal() -> StepMessage {
    create_transfer_proposal_claims_request(
        "ctx-7".to_string(),
        "client-key".to_string(),
        "server-key".to_string(),
        vec![
            Claim { name: "asset_asset_id".to_string(), value: "a-1".to_string() },
            Claim { name: "originator_pubkey".to_string(), value: "orig".to_string() },
        ],
    )
}

fn no_relays() -> Result<Vec<RelayEndpoint>, String> {
    Ok(Vec::new())
}

const CLAIMS_ID: &str = "transfer_proposal_claims:ctx-7";
const RECEIPT_ID: &str = "transfer_proposal_receipt:ctx-7";

const ALL_STEPS: [Step; 12] = [
    Step::TransferProposalClaims,
    Step::TransferProposalReceipt,
    Step::TransferCommence,
    Step::AckCommence,
    Step::SendAssetStatus,
    Step::LockAssertion,
    Step::LockAssertionReceipt,
    Step::CommitPrepare,
    Step::CommitReady,
    Step::CommitFinalAssertion,
    Step::AckFinalReceipt,
    Step::TransferCompleted,
];

#[test]
fn proposal_claims_is_stored_remotely_acked_and_forwarded_to_default_relay() {
    let msg = proposal();
    let write = inbound_request_write(&msg);
    assert_eq!(write.store, StoreKind::RemoteRequests);
    assert_eq!(write.key, CLAIMS_ID);

    let reply = handle_inbound(&msg, &Ok(()), true, &"session-1".to_string(), &no_relays());
    assert_eq!(reply.ack.status, AckStatus::Success);
    assert_eq!(reply.ack.status.code(), 0);
    assert_eq!(reply.ack.request_id, CLAIMS_ID);
    assert_eq!(reply.ack.message, "Ack of the Transfer Proposal Claims request");
    let d = reply.dispatch.expect("a receipt is dispatched");
    assert_eq!(d.message.step, Step::TransferProposalReceipt);
    assert_eq!(d.relay_host, "localhost");
    assert_eq!(d.relay_port, "9085");
    assert_eq!(d.address, "http://localhost:9085");
    assert!(!d.use_tls);
    assert_eq!(d.tlsca_cert_path, "");
    assert_eq!(d.request_id, RECEIPT_ID);
    assert_eq!(d.message.session_id, "session-1");
    assert_eq!(d.message.transfer_context_id, "ctx-7");
}

#[test]
fn store_failure_returns_error_ack_and_no_dispatch() {
    let msg = message(Step::TransferCommence, "s-9");
    let failed: Result<(), StoreError> = Err(StoreError::Insert("disk full".to_string()));
    let reply = handle_inbound(&msg, &failed, true, &String::new(), &no_relays());
    assert_eq!(reply.ack.status, AckStatus::Failure);
    assert_eq!(reply.ack.status.code(), 1);
    assert_eq!(reply.ack.request_id, "s-9");
    assert!(reply.ack.message.contains("Error storing"));
    assert_eq!(
        reply.ack.message,
        "Error storing TransferCommenceRequest in remote satp_db for request_id could not insert: disk full"
    );
    assert!(reply.dispatch.is_none());
}

#[test]
fn store_failure_on_local_step_names_local_store() {
    let msg = message(Step::AckCommence, "s-3");
    let failed: Result<(), StoreError> = Err(StoreError::Open("locked".to_string()));
    let reply = handle_ack_commence(&msg, &failed, true, &Ok(driver()), &no_relays());
    assert_eq!(
        reply.ack.message,
        "Error storing AckCommenceRequest in local satp_db for request_id could not open store: locked"
    );
    assert!(reply.dispatch.is_none());
    assert!(reply.perform_lock.is_none());
}

#[test]
fn transfer_completed_is_stored_and_acked_without_dispatch() {
    let msg = message(Step::TransferCompleted, "s-end");
    let write = inbound_request_write(&msg);
    assert_eq!(write.store, StoreKind::LocalRequests);
    assert_eq!(write.key, "s-end");
    let reply = handle_inbound(&msg, &Ok(()), true, &String::new(), &no_relays());
    assert_eq!(reply.ack.status, AckStatus::Success);
    assert_eq!(reply.ack.request_id, "s-end");
    assert_eq!(reply.ack.message, "Ack of the Transfer Completed request");
    assert!(reply.dispatch.is_none());
}

#[test]
fn every_transition_keeps_session_and_context() {
    let mut msg = message(Step::TransferProposalReceipt, "sess-42");
    let mut count = 0;
    while let Some(next) = next_message(&msg, &"unused".to_string()) {
        assert_eq!(next.step.index(), msg.step.index() + 1);
        assert_eq!(next.session_id, "sess-42");
        assert_eq!(next.transfer_context_id, "ctx-7");
        assert_eq!(next.client_identity_pubkey, "client-key");
        assert_eq!(next.server_identity_pubkey, "server-key");
        assert_eq!(next.hash_prev_message, msg.step.tag());
        assert_eq!(next.message_type, next.step.tag());
        assert!(next.claims.is_empty());
        msg = next;
        count += 1;
    }
    assert_eq!(count, 10);
    assert_eq!(msg.step, Step::TransferCompleted);
}

#[test]
fn first_transition_opens_session_with_fresh_id_and_echoes_claims() {
    let msg = proposal();
    assert_eq!(msg.session_id, "");
    let receipt = create_transfer_proposal_receipt_request(&msg, &"fresh-1".to_string());
    assert_eq!(receipt.step, Step::TransferProposalReceipt);
    assert_eq!(receipt.session_id, "fresh-1");
    assert_eq!(receipt.transfer_context_id, "ctx-7");
    assert_eq!(receipt.hash_prev_message, "TransferProposalClaims");
    assert_eq!(receipt.claims.len(), 2);
    assert_eq!(receipt.claims[1].name, "originator_pubkey");
    assert_eq!(receipt.claims[1].value, "orig");
}

#[test]
fn named_builders_follow_the_step_order() {
    let receipt = message(Step::TransferProposalReceipt, "s-1");
    let commence = create_transfer_commence_request(&receipt);
    assert_eq!(commence.step, Step::TransferCommence);
    let ack = create_ack_commence_request(&commence);
    assert_eq!(ack.step, Step::AckCommence);
    let status = message(Step::SendAssetStatus, "s-1");
    let lock = create_lock_assertion_request(&status);
    assert_eq!(lock.step, Step::LockAssertion);
    let lock_receipt = create_lock_assertion_receipt_request(&lock);
    assert_eq!(lock_receipt.step, Step::LockAssertionReceipt);
    assert_eq!(lock_receipt.session_id, "s-1");
    assert_eq!(lock_receipt.hash_prev_message, "LockAssertion");
}

#[test]
fn terminal_step_has_no_successor() {
    let msg = message(Step::TransferCompleted, "s");
    assert!(next_message(&msg, &"x".to_string()).is_none());
    assert!(Step::TransferCompleted.is_terminal());
    assert!(Step::TransferCompleted.next().is_none());
    assert_eq!(Step::TransferCompleted.index(), 11);
}

#[test]
fn steps_are_strictly_ordered() {
    for (i, s) in ALL_STEPS.iter().enumerate() {
        assert_eq!(s.index() as usize, i);
        if i + 1 < ALL_STEPS.len() {
            assert_eq!(s.next(), Some(ALL_STEPS[i + 1]));
            assert!(!s.is_terminal());
        }
    }
}

#[test]
fn request_ids_use_session_or_pre_session_ids() {
    assert_eq!(request_id_for(&message(Step::TransferProposalClaims, "x")), CLAIMS_ID);
    assert_eq!(request_id_for(&message(Step::TransferProposalReceipt, "x")), RECEIPT_ID);
    assert_eq!(request_id_for(&message(Step::CommitReady, "sess-5")), "sess-5");
}

#[test]
fn stores_follow_the_acting_role() {
    let remote = [Step::TransferProposalClaims, Step::TransferCommence, Step::LockAssertion];
    for s in ALL_STEPS.iter() {
        let w = inbound_request_write(&message(*s, "k"));
        if remote.contains(s) {
            assert_eq!(w.store, StoreKind::RemoteRequests);
        } else {
            assert_eq!(w.store, StoreKind::LocalRequests);
        }
    }
}

#[test]
fn dispatch_uses_tls_settings_of_matching_relay() {
    let relays = vec![
        RelayEndpoint {
            hostname: "localhost".to_string(),
            port: "9085".to_string(),
            tls: true,
            tlsca_cert_path: "/certs/ca.pem".to_string(),
        },
        RelayEndpoint {
            hostname: "other".to_string(),
            port: "9080".to_string(),
            tls: false,
            tlsca_cert_path: String::new(),
        },
    ];
    let msg = message(Step::TransferCommence, "s-2");
    let reply = process_transfer_commence_request(&msg, &Ok(relays));
    assert_eq!(reply.ack.status, AckStatus::Success);
    assert_eq!(reply.ack.message, "Ack of the Commence Response request");
    let d = reply.dispatch.unwrap();
    assert!(d.use_tls);
    assert_eq!(d.tlsca_cert_path, "/certs/ca.pem");
    assert_eq!(d.message.step, Step::AckCommence);
    assert_eq!(d.request_id, "s-2");
}

#[test]
fn every_step_is_acked_with_its_text_and_forwarded() {
    let texts = [
        "Ack of the Transfer Proposal Claims request",
        "Ack of the Transfer Proposal Claims request",
        "Ack of the Commence Response request",
        "Ack of the ack commence request",
        "Ack of the Send Asset Status request",
        "Ack of the Lock Assertion request",
        "Ack of the Lock Assertion request",
        "Ack of the commit prepare request",
        "Ack of the commit prepare request",
        "Ack of the commit prepare request",
        "Ack of the commit prepare request",
        "Ack of the Transfer Completed request",
    ];
    for (i, s) in ALL_STEPS.iter().enumerate() {
        let msg = message(*s, "sess");
        let reply = if *s == Step::AckCommence {
            process_ack_commence_request(&msg, true, &Ok(driver()), &no_relays())
        } else {
            process_step(&msg, true, &"fresh".to_string(), &no_relays())
        };
        assert_eq!(reply.ack.status, AckStatus::Success);
        assert_eq!(reply.ack.message, texts[i]);
        match s.next() {
            Some(n) => assert_eq!(reply.dispatch.unwrap().message.step, n),
            None => assert!(reply.dispatch.is_none()),
        }
    }
}

#[test]
fn invalid_message_is_rejected_without_dispatch() {
    let msg = message(Step::LockAssertion, "s-4");
    let reply = handle_inbound(&msg, &Ok(()), false, &String::new(), &no_relays());
    assert_eq!(reply.ack.status, AckStatus::Failure);
    assert_eq!(reply.ack.request_id, "s-4");
    assert_eq!(reply.ack.message, "Error: The lock assertion request is invalid");
    assert!(reply.dispatch.is_none());
    let msg = message(Step::TransferCompleted, "s-5");
    let reply = process_step(&msg, false, &String::new(), &no_relays());
    assert_eq!(reply.ack.status, AckStatus::Success);
    assert_eq!(reply.ack.message, "Ack of the Transfer Completed request");
}

#[test]
fn receipt_step_reuses_proposal_text() {
    let msg = message(Step::TransferProposalReceipt, "");
    let reply = process_transfer_proposal_receipt_request(&msg, &no_relays());
    assert_eq!(reply.ack.message, "Ack of the Transfer Proposal Claims request");
    assert_eq!(reply.ack.request_id, RECEIPT_ID);
    assert_eq!(reply.dispatch.unwrap().message.step, Step::TransferCommence);
}

fn driver() -> DriverEndpoint {
    DriverEndpoint {
        network_id: "net-a".to_string(),
        hostname: "driver-host".to_string(),
        port: "9095".to_string(),
        tls: false,
        tlsca_cert_path: String::new(),
    }
}

#[test]
fn ack_commence_without_driver_is_rejected() {
    let msg = message(Step::AckCommence, "s-6");
    let lookup = get_driver(&"net-b".to_string(), &vec![driver()]);
    let reply = handle_ack_commence(&msg, &Ok(()), true, &lookup, &no_relays());
    assert_eq!(reply.ack.status, AckStatus::Failure);
    assert_eq!(reply.ack.request_id, "s-6");
    assert_eq!(
        reply.ack.message,
        "Error: Ack of the ack commence request failed. Driver not found no driver for network net-b"
    );
    assert!(reply.dispatch.is_none());
    assert!(reply.perform_lock.is_none());
}

#[test]
fn ack_commence_with_driver_asks_it_to_lock_and_forwards() {
    let msg = message(Step::AckCommence, "s-7");
    let drivers = vec![
        DriverEndpoint { network_id: "net-x".to_string(), ..driver() },
        driver(),
        DriverEndpoint { hostname: "second".to_string(), ..driver() },
    ];
    let lookup = get_driver(&"net-a".to_string(), &drivers);
    let reply = handle_ack_commence(&msg, &Ok(()), true, &lookup, &no_relays());
    assert_eq!(reply.ack.status, AckStatus::Success);
    assert_eq!(reply.ack.message, "Ack of the ack commence request");
    let lock = reply.perform_lock.unwrap();
    assert_eq!(lock.driver.hostname, "driver-host");
    assert_eq!(lock.driver.port, "9095");
    assert_eq!(lock.request_id, "s-7:lock");
    let d = reply.dispatch.unwrap();
    assert_eq!(d.message.step, Step::SendAssetStatus);
    assert_eq!(d.request_id, "s-7");
}

#[test]
fn invalid_ack_commence_is_rejected_before_driver_lookup() {
    let msg = message(Step::AckCommence, "s-8");
    let reply = process_ack_commence_request(&msg, false, &Ok(driver()), &no_relays());
    assert_eq!(reply.ack.message, "Error: The ack commence request is invalid");
    assert!(reply.perform_lock.is_none());
}

#[test]
fn transfer_proposal_is_dispatched_to_default_relay() {
    let relays = vec![RelayEndpoint {
        hostname: "localhost".to_string(),
        port: "9085".to_string(),
        tls: true,
        tlsca_cert_path: "ca.pem".to_string(),
    }];
    let d = plan_transfer_proposal_dispatch(&proposal(), &relays);
    assert_eq!(d.message.step, Step::TransferProposalClaims);
    assert_eq!(d.message.claims.len(), 2);
    assert_eq!(d.message.transfer_context_id, "ctx-7");
    assert_eq!(d.request_id, CLAIMS_ID);
    assert_eq!(d.address, "http://localhost:9085");
    assert!(d.use_tls);
    assert_eq!(d.tlsca_cert_path, "ca.pem");
}

#[test]
fn pre_session_ids_follow_the_transfer_context() {
    let mut other = proposal();
    other.transfer_context_id = "ctx-8".to_string();
    assert_eq!(request_id_for(&other), "transfer_proposal_claims:ctx-8");
    assert_ne!(request_id_for(&other), request_id_for(&proposal()));
}

#[test]
fn unreadable_relay_table_stops_forwarding() {
    let msg = message(Step::CommitReady, "s-9");
    let relays: Result<Vec<RelayEndpoint>, String> = Err("no relays table".to_string());
    let reply = handle_inbound(&msg, &Ok(()), true, &String::new(), &relays);
    assert_eq!(reply.ack.status, AckStatus::Failure);
    assert_eq!(reply.ack.request_id, "s-9");
    assert_eq!(reply.ack.message, "Error: the relay table cannot be read. no relays table");
    assert!(reply.dispatch.is_none());
    let done = handle_inbound(&message(Step::TransferCompleted, "s-9"), &Ok(()), true, &String::new(), &relays);
    assert_eq!(done.ack.status, AckStatus::Success);
}

#[test]
fn unreadable_relay_table_at_ack_commence_orders_no_lock() {
    let msg = message(Step::AckCommence, "s-10");
    let relays: Result<Vec<RelayEndpoint>, String> = Err("bad".to_string());
    let reply = handle_ack_commence(&msg, &Ok(()), true, &Ok(driver()), &relays);
    assert_eq!(reply.ack.status, AckStatus::Failure);
    assert!(reply.dispatch.is_none());
    assert!(reply.perform_lock.is_none());
}
