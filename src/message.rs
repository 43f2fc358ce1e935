use vstd::prelude::*;
use vstd::string::*;

use crate::step::{lemma_steps_advance_by_one, Step};

verus! {

/// One step-specific field (an asset identifier, a claim, a signature),
/// carried from message to message without interpretation.
#[derive(Clone, Debug)]
pub struct Claim {
    pub name: String,
    pub value: String,
}

/// A protocol message of one step: the session identifiers that every step
/// carries, the participants' keys, the hash chain field and the step's own
/// fields.
#[derive(Clone, Debug)]
pub struct StepMessage {
    pub step: Step,
    pub message_type: String,
    pub session_id: String,
    pub transfer_context_id: String,
    pub client_identity_pubkey: String,
    pub server_identity_pubkey: String,
    pub hash_prev_message: String,
    pub claims: Vec<Claim>,
}

impl Claim {
    pub fn duplicate(&self) -> (r: Claim)
        ensures
            r == *self,
    {
        Claim { name: self.name.clone(), value: self.value.clone() }
    }
}

/// `a` and `b` hold the same message.
pub open spec fn same_message(a: StepMessage, b: StepMessage) -> bool {
    &&& a.step == b.step
    &&& a.message_type@ == b.message_type@
    &&& a.session_id@ == b.session_id@
    &&& a.transfer_context_id@ == b.transfer_context_id@
    &&& a.client_identity_pubkey@ == b.client_identity_pubkey@
    &&& a.server_identity_pubkey@ == b.server_identity_pubkey@
    &&& a.hash_prev_message@ == b.hash_prev_message@
    &&& a.claims@ == b.claims@
}

impl StepMessage {
    pub fn duplicate(&self) -> (r: StepMessage)
        ensures
            same_message(r, *self),
    {
        StepMessage {
            step: self.step,
            message_type: self.message_type.clone(),
            session_id: self.session_id.clone(),
            transfer_context_id: self.transfer_context_id.clone(),
            client_identity_pubkey: self.client_identity_pubkey.clone(),
            server_identity_pubkey: self.server_identity_pubkey.clone(),
            hash_prev_message: self.hash_prev_message.clone(),
            claims: copy_claims(&self.claims),
        }
    }
}

pub fn copy_claims(v: &Vec<Claim>) -> (r: Vec<Claim>)
    ensures
        r@ == v@,
{
    let mut out: Vec<Claim> = Vec::new();
    let mut i: usize = 0;
    while i < v.len()
        invariant
            i <= v.len(),
            out@ == v@.subrange(0, i as int),
        decreases v.len() - i,
    {
        out.push(v[i].duplicate());
        i = i + 1;
    }
    assert(out@ == v@.subrange(0, v@.len() as int));
    assert(v@.subrange(0, v@.len() as int) =~= v@);
    out
}

/// The session id that the message built after `prev` carries: the first
/// transition opens the session with a freshly generated id, every later one
/// keeps the id of the message it answers.
pub open spec fn next_session_id(prev: StepMessage, fresh_session_id: Seq<char>) -> Seq<char> {
    if prev.step == Step::TransferProposalClaims {
        fresh_session_id
    } else {
        prev.session_id@
    }
}

/// `m` is the well-formed message of the step after `prev`: it is tagged with
/// its step, keeps the session, the transfer context and both participants'
/// keys, and chains to the previous step: its hash field names the previous
/// step, standing in for a digest of the previous message. A proposal
/// receipt echoes the proposal's fields; the other steps start with none of
/// their own.
pub open spec fn is_next_message(prev: StepMessage, fresh_session_id: Seq<char>, m: StepMessage) -> bool {
    &&& prev.step.spec_next() == Some(m.step)
    &&& m.message_type@ == m.step.spec_tag()
    &&& m.session_id@ == next_session_id(prev, fresh_session_id)
    &&& m.transfer_context_id@ == prev.transfer_context_id@
    &&& m.client_identity_pubkey@ == prev.client_identity_pubkey@
    &&& m.server_identity_pubkey@ == prev.server_identity_pubkey@
    &&& m.hash_prev_message@ == prev.step.spec_tag()
    &&& m.claims@ == (if prev.step == Step::TransferProposalClaims {
        prev.claims@
    } else {
        Seq::<Claim>::empty()
    })
}

/// Builds the message of the step that follows `prev`, or nothing after the
/// terminal step. `fresh_session_id` is used only when `prev` is the proposal
/// that opens the session.
pub fn next_message(prev: &StepMessage, fresh_session_id: &String) -> (r: Option<StepMessage>)
    ensures
        prev.step.spec_next() is None <==> r is None,
        r matches Some(m) ==> is_next_message(*prev, fresh_session_id@, m),
{
    match prev.step.next() {
        None => None,
        Some(n) => {
            let session_id = if prev.step == Step::TransferProposalClaims {
                fresh_session_id.clone()
            } else {
                prev.session_id.clone()
            };
            let claims = if prev.step == Step::TransferProposalClaims {
                copy_claims(&prev.claims)
            } else {
                Vec::new()
            };
            Some(
                StepMessage {
                    step: n,
                    message_type: String::from_str(n.tag()),
                    session_id,
                    transfer_context_id: prev.transfer_context_id.clone(),
                    client_identity_pubkey: prev.client_identity_pubkey.clone(),
                    server_identity_pubkey: prev.server_identity_pubkey.clone(),
                    hash_prev_message: String::from_str(prev.step.tag()),
                    claims,
                },
            )
        },
    }
}

/// Opens a handshake: the transfer proposal for the given transfer context
/// and participants, carrying the asset and party claims. It precedes the
/// session, so its session id and previous-message hash are empty.
pub fn create_transfer_proposal_claims_request(
    transfer_context_id: String,
    client_identity_pubkey: String,
    server_identity_pubkey: String,
    claims: Vec<Claim>,
) -> (r: StepMessage)
    ensures
        r.step == Step::TransferProposalClaims,
        r.message_type@ == Step::TransferProposalClaims.spec_tag(),
        r.session_id@ == Seq::<char>::empty(),
        r.transfer_context_id@ == transfer_context_id@,
        r.client_identity_pubkey@ == client_identity_pubkey@,
        r.server_identity_pubkey@ == server_identity_pubkey@,
        r.hash_prev_message@ == Seq::<char>::empty(),
        r.claims@ == claims@,
{
    StepMessage {
        step: Step::TransferProposalClaims,
        message_type: String::from_str(Step::TransferProposalClaims.tag()),
        session_id: String::new(),
        transfer_context_id,
        client_identity_pubkey,
        server_identity_pubkey,
        hash_prev_message: String::new(),
        claims,
    }
}

/// The message after `prev`, which is known not to be the terminal one.
fn successor_of(prev: &StepMessage, fresh_session_id: &String) -> (r: StepMessage)
    requires
        prev.step.spec_next() is Some,
    ensures
        is_next_message(*prev, fresh_session_id@, r),
{
    match next_message(prev, fresh_session_id) {
        Some(m) => m,
        None => {
            proof {
                assert(false);
            }
            prev.clone()
        },
    }
}

/// The receipt that answers a transfer proposal, opening the session under
/// `fresh_session_id`.
pub fn create_transfer_proposal_receipt_request(claims: &StepMessage, fresh_session_id: &String) -> (r: StepMessage)
    requires
        claims.step == Step::TransferProposalClaims,
    ensures
        is_next_message(*claims, fresh_session_id@, r),
{
    successor_of(claims, fresh_session_id)
}

pub fn create_transfer_commence_request(receipt: &StepMessage) -> (r: StepMessage)
    requires
        receipt.step == Step::TransferProposalReceipt,
    ensures
        is_next_message(*receipt, Seq::<char>::empty(), r),
{
    successor_of(receipt, &String::new())
}

pub fn create_ack_commence_request(commence: &StepMessage) -> (r: StepMessage)
    requires
        commence.step == Step::TransferCommence,
    ensures
        is_next_message(*commence, Seq::<char>::empty(), r),
{
    successor_of(commence, &String::new())
}

pub fn create_lock_assertion_request(status: &StepMessage) -> (r: StepMessage)
    requires
        status.step == Step::SendAssetStatus,
    ensures
        is_next_message(*status, Seq::<char>::empty(), r),
{
    successor_of(status, &String::new())
}

pub fn create_lock_assertion_receipt_request(assertion: &StepMessage) -> (r: StepMessage)
    requires
        assertion.step == Step::LockAssertion,
    ensures
        is_next_message(*assertion, Seq::<char>::empty(), r),
{
    successor_of(assertion, &String::new())
}


/// Message `i + 1` of `msgs` is the one built after message `i`.
pub open spec fn links(msgs: Seq<StepMessage>, fresh_session_id: Seq<char>, i: int) -> bool {
    is_next_message(msgs[i], fresh_session_id, msgs[i + 1])
}

/// `msgs` is a run of the handshake: every message is the one built after
/// the message before it.
pub open spec fn is_handshake_run(msgs: Seq<StepMessage>, fresh_session_id: Seq<char>) -> bool {
    forall|i: int| 0 <= i < msgs.len() - 1 ==> #[trigger] links(msgs, fresh_session_id, i)
}

/// Along a run of the handshake the steps follow one another without gap,
/// so a run holds at most the twelve steps; every message keeps the
/// transfer context of the first, and every message from the one that
/// opened the session on carries that session's id.
pub proof fn lemma_handshake_keeps_session(msgs: Seq<StepMessage>, fresh_session_id: Seq<char>)
    requires
        msgs.len() > 0,
        is_handshake_run(msgs, fresh_session_id),
    ensures
        msgs.len() <= 12,
        forall|i: int| 0 <= i < msgs.len() ==> (#[trigger] msgs[i]).step.spec_index() == msgs[0].step.spec_index() + i,
        forall|i: int| 0 <= i < msgs.len() ==> (#[trigger] msgs[i]).transfer_context_id@ == msgs[0].transfer_context_id@,
        forall|i: int| 1 <= i < msgs.len() ==> (#[trigger] msgs[i]).session_id@ == msgs[1].session_id@,
        msgs[0].step != Step::TransferProposalClaims ==> forall|i: int|
            0 <= i < msgs.len() ==> (#[trigger] msgs[i]).session_id@ == msgs[0].session_id@,
    decreases msgs.len(),
{
    let n = msgs.len() as int;
    if n > 1 {
        let p = msgs.drop_last();
        assert forall|i: int| 0 <= i < p.len() - 1 implies #[trigger] links(p, fresh_session_id, i) by {
            assert(links(msgs, fresh_session_id, i));
        }
        lemma_handshake_keeps_session(p, fresh_session_id);
        assert(links(msgs, fresh_session_id, n - 2));
        lemma_steps_advance_by_one(msgs[n - 2].step);
        assert forall|i: int| 0 <= i < n implies (#[trigger] msgs[i]).step.spec_index() == msgs[0].step.spec_index() + i by {
            if i < n - 1 {
                assert(msgs[i] == p[i]);
            }
        }
        assert forall|i: int| 0 <= i < n implies (#[trigger] msgs[i]).transfer_context_id@ == msgs[0].transfer_context_id@ by {
            if i < n - 1 {
                assert(msgs[i] == p[i]);
            }
        }
        assert forall|i: int| 1 <= i < n implies (#[trigger] msgs[i]).session_id@ == msgs[1].session_id@ by {
            if i < n - 1 {
                assert(msgs[i] == p[i]);
            } else if i >= 2 {
                assert(msgs[n - 2] == p[n - 2]);
                assert(p[n - 2].step.spec_index() >= 1);
            }
        }
        if msgs[0].step != Step::TransferProposalClaims {
            assert forall|i: int| 0 <= i < n implies (#[trigger] msgs[i]).session_id@ == msgs[0].session_id@ by {
                if i < n - 1 {
                    assert(msgs[i] == p[i]);
                } else {
                    assert(msgs[n - 2] == p[n - 2]);
                }
            }
        }
        assert(msgs[n - 1].step.spec_index() <= 11);
    } else {
        assert(msgs[0].step.spec_index() <= 11);
    }
}

} // verus!
