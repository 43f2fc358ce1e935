use vstd::prelude::*;
use vstd::string::*;

verus! {

/// A ledger driver known to the gateway: the network it serves and how to
/// reach it.
#[derive(Clone, Debug)]
pub struct DriverEndpoint {
    pub network_id: String,
    pub hostname: String,
    pub port: String,
    pub tls: bool,
    pub tlsca_cert_path: String,
}

impl DriverEndpoint {
    pub fn duplicate(&self) -> (r: DriverEndpoint)
        ensures
            r == *self,
    {
        DriverEndpoint {
            network_id: self.network_id.clone(),
            hostname: self.hostname.clone(),
            port: self.port.clone(),
            tls: self.tls,
            tlsca_cert_path: self.tlsca_cert_path.clone(),
        }
    }
}

pub open spec fn driver_not_found_detail(network_id: Seq<char>) -> Seq<char> {
    "no driver for network "@ + network_id
}

/// The first driver of the table that serves `network_id`, or an error
/// naming the network when none does.
pub fn get_driver(network_id: &String, drivers: &Vec<DriverEndpoint>) -> (r: Result<DriverEndpoint, String>)
    ensures
        r is Err <==> forall|i: int| 0 <= i < drivers@.len() ==> drivers@[i].network_id@ != network_id@,
        r matches Err(e) ==> e@ == driver_not_found_detail(network_id@),
        r matches Ok(d) ==> exists|i: int|
            0 <= i < drivers@.len() && d == drivers@[i] && d.network_id@ == network_id@ && forall|j: int|
                0 <= j < i ==> drivers@[j].network_id@ != network_id@,
{
    let mut i: usize = 0;
    while i < drivers.len()
        invariant
            i <= drivers.len(),
            forall|j: int| 0 <= j < i ==> drivers@[j].network_id@ != network_id@,
        decreases drivers.len() - i,
    {
        if drivers[i].network_id == *network_id {
            return Ok(drivers[i].duplicate());
        }
        i = i + 1;
    }
    Err(String::from_str("no driver for network ").concat(network_id.as_str()))
}

} // verus!
