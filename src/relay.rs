use vstd::prelude::*;
use vstd::string::*;

use crate::message::StepMessage;
use crate::step::Step;

verus! {

/// Host of the peer gateway that every step is forwarded to while no
/// per-session routing exists.
pub const DEFAULT_RELAY_HOST: &'static str = "localhost";

/// Port of that peer gateway.
pub const DEFAULT_RELAY_PORT: &'static str = "9085";

/// A known relay of the configuration: where it listens and how to reach it.
#[derive(Clone, Debug)]
pub struct RelayEndpoint {
    pub hostname: String,
    pub port: String,
    pub tls: bool,
    pub tlsca_cert_path: String,
}

pub open spec fn relay_matches(r: RelayEndpoint, host: Seq<char>, port: Seq<char>) -> bool {
    r.hostname@ == host && r.port@ == port
}

/// Index of the last of the first `n` relays that listens on `host`:`port`.
pub open spec fn last_match(relays: Seq<RelayEndpoint>, host: Seq<char>, port: Seq<char>, n: int) -> Option<int>
    decreases n,
{
    if n <= 0 {
        None
    } else if relay_matches(relays[n - 1], host, port) {
        Some(n - 1)
    } else {
        last_match(relays, host, port, n - 1)
    }
}

/// TLS flag and CA certificate path of the relay at `host`:`port`: those of
/// the last matching entry of the table, or no TLS and an empty path where
/// none matches.
pub open spec fn spec_relay_params(relays: Seq<RelayEndpoint>, host: Seq<char>, port: Seq<char>) -> (bool, Seq<char>) {
    match last_match(relays, host, port, relays.len() as int) {
        Some(i) => (relays[i].tls, relays[i].tlsca_cert_path@),
        None => (false, Seq::<char>::empty()),
    }
}

pub fn get_relay_params(relay_host: &String, relay_port: &String, relays: &Vec<RelayEndpoint>) -> (r: (bool, String))
    ensures
        (r.0, r.1@) == spec_relay_params(relays@, relay_host@, relay_port@),
{
    let mut relay_tls = false;
    let mut relay_tlsca_cert_path = String::new();
    let mut i: usize = 0;
    while i < relays.len()
        invariant
            i <= relays.len(),
            (relay_tls, relay_tlsca_cert_path@) == match last_match(relays@, relay_host@, relay_port@, i as int) {
                Some(j) => (relays@[j].tls, relays@[j].tlsca_cert_path@),
                None => (false, Seq::<char>::empty()),
            },
        decreases relays.len() - i,
    {
        if relays[i].hostname == *relay_host && relays[i].port == *relay_port {
            relay_tls = relays[i].tls;
            relay_tlsca_cert_path = relays[i].tlsca_cert_path.clone();
        }
        i = i + 1;
    }
    (relay_tls, relay_tlsca_cert_path)
}

/// The peer gateway that the message following `msg` goes to: the fixed
/// default relay.
pub fn get_relay_from_message(msg: &StepMessage) -> (r: (String, String))
    ensures
        r.0@ == DEFAULT_RELAY_HOST@,
        r.1@ == DEFAULT_RELAY_PORT@,
{
    (String::from_str(DEFAULT_RELAY_HOST), String::from_str(DEFAULT_RELAY_PORT))
}

pub fn get_relay_from_transfer_proposal_claims(msg: &StepMessage) -> (r: (String, String))
    requires
        msg.step == Step::TransferProposalClaims,
    ensures
        r.0@ == DEFAULT_RELAY_HOST@,
        r.1@ == DEFAULT_RELAY_PORT@,
{
    get_relay_from_message(msg)
}

pub fn get_relay_from_transfer_proposal_receipt(msg: &StepMessage) -> (r: (String, String))
    requires
        msg.step == Step::TransferProposalReceipt,
    ensures
        r.0@ == DEFAULT_RELAY_HOST@,
        r.1@ == DEFAULT_RELAY_PORT@,
{
    get_relay_from_message(msg)
}

pub fn get_relay_from_transfer_commence(msg: &StepMessage) -> (r: (String, String))
    requires
        msg.step == Step::TransferCommence,
    ensures
        r.0@ == DEFAULT_RELAY_HOST@,
        r.1@ == DEFAULT_RELAY_PORT@,
{
    get_relay_from_message(msg)
}

pub fn get_relay_from_ack_commence(msg: &StepMessage) -> (r: (String, String))
    requires
        msg.step == Step::AckCommence,
    ensures
        r.0@ == DEFAULT_RELAY_HOST@,
        r.1@ == DEFAULT_RELAY_PORT@,
{
    get_relay_from_message(msg)
}

pub fn get_relay_from_lock_assertion(msg: &StepMessage) -> (r: (String, String))
    requires
        msg.step == Step::LockAssertion,
    ensures
        r.0@ == DEFAULT_RELAY_HOST@,
        r.1@ == DEFAULT_RELAY_PORT@,
{
    get_relay_from_message(msg)
}

pub fn get_relay_from_lock_assertion_receipt(msg: &StepMessage) -> (r: (String, String))
    requires
        msg.step == Step::LockAssertionReceipt,
    ensures
        r.0@ == DEFAULT_RELAY_HOST@,
        r.1@ == DEFAULT_RELAY_PORT@,
{
    get_relay_from_message(msg)
}

pub open spec fn spec_client_address(relay_host: Seq<char>, relay_port: Seq<char>) -> Seq<char> {
    "http://"@ + relay_host + ":"@ + relay_port
}

/// The URI an RPC client dials for a relay.
pub fn create_client_address(relay_host: String, relay_port: String) -> (r: String)
    ensures
        r@ == spec_client_address(relay_host@, relay_port@),
{
    String::from_str("http://").concat(relay_host.as_str()).concat(":").concat(relay_port.as_str())
}

} // verus!
