//! Response shapes the HTTP surface serves from a snapshot.

use vstd::prelude::*;

use crate::fetchers::{Alert, FeaturePack};

verus! {

/// The alerts endpoint's payload: the alert list and how many it holds.
#[derive(Clone, Debug)]
pub struct AlertsResponse {
    pub alerts: Vec<Alert>,
    pub count: usize,
}

/// Shape a snapshot's alerts for the alerts endpoint. The count always
/// equals the number of alerts carried.
pub fn alerts_response(pack: FeaturePack) -> (r: AlertsResponse)
    ensures
        r.alerts == pack.alerts,
        r.count == pack.alerts@.len(),
{
    let count = pack.alerts.len();
    AlertsResponse { alerts: pack.alerts, count }
}

/// The version the health endpoint reports.
pub fn api_version() -> (r: &'static str)
    ensures
        r@ == "0.2.0"@,
{
    "0.2.0"
}

} // verus!
