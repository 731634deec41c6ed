use vstd::prelude::*;
use crate::rpc::RpcError;

verus! {

/// How the local node stands against the reference node in one cycle.
#[derive(Debug, Clone)]
pub enum HealthVerdict {
    /// Behind the reference by less than the threshold.
    Synced { lag: u64 },
    /// Behind the reference by the threshold or more.
    Lagging { lag: u64 },
    /// Ahead of the reference, as during a reorganisation.
    LocalAhead { lead: u64 },
    /// The reference node could not be read, so nothing can be judged.
    RemoteUnreachable { cause: RpcError },
    /// The reference node answered and the local node did not.
    LocalUnreachable { cause: RpcError },
}

/// The verdict for one pair of readings; the remote reading is looked at first.
pub open spec fn verdict_spec(
    local: Result<u64, RpcError>,
    remote: Result<u64, RpcError>,
    threshold: u64,
) -> HealthVerdict {
    match remote {
        Err(cause) => HealthVerdict::RemoteUnreachable { cause },
        Ok(r) => match local {
            Err(cause) => HealthVerdict::LocalUnreachable { cause },
            Ok(l) => if l > r {
                HealthVerdict::LocalAhead { lead: (l - r) as u64 }
            } else if r - l < threshold {
                HealthVerdict::Synced { lag: (r - l) as u64 }
            } else {
                HealthVerdict::Lagging { lag: (r - l) as u64 }
            },
        },
    }
}

impl HealthVerdict {
    /// A verdict that calls for an alert: the monitored node is behind or down.
    pub open spec fn alertable(self) -> bool {
        self is Lagging || self is LocalUnreachable
    }

    pub fn is_alertable(&self) -> (r: bool)
        ensures
            r == self.alertable(),
    {
        match self {
            HealthVerdict::Lagging { .. } | HealthVerdict::LocalUnreachable { .. } => true,
            _ => false,
        }
    }

    pub fn is_synced(&self) -> (r: bool)
        ensures
            r == self is Synced,
    {
        match self {
            HealthVerdict::Synced { .. } => true,
            _ => false,
        }
    }
}

/// Classifies one pair of readings against the lag threshold.
pub fn evaluate(
    local: Result<u64, RpcError>,
    remote: Result<u64, RpcError>,
    threshold: u64,
) -> (v: HealthVerdict)
    ensures
        v == verdict_spec(local, remote, threshold),
{
    match remote {
        Err(cause) => HealthVerdict::RemoteUnreachable { cause },
        Ok(r) => match local {
            Err(cause) => HealthVerdict::LocalUnreachable { cause },
            Ok(l) => {
                if l > r {
                    HealthVerdict::LocalAhead { lead: l - r }
                } else if r - l < threshold {
                    HealthVerdict::Synced { lag: r - l }
                } else {
                    HealthVerdict::Lagging { lag: r - l }
                }
            },
        },
    }
}

/// For two readings that both came back: the local node is ahead exactly when
/// its height exceeds the remote one; otherwise it is synced while the lag
/// stays under the threshold and lagging from the threshold on, so a lag equal
/// to the threshold is lagging. The lag or lead is the difference of heights.
pub proof fn lemma_evaluate_classification(local: u64, remote: u64, threshold: u64)
    ensures
        ({
            let v = verdict_spec(Ok(local), Ok(remote), threshold);
            &&& (v is LocalAhead <==> local > remote)
            &&& (v is Synced <==> local <= remote && remote - local < threshold)
            &&& (v is Lagging <==> local <= remote && remote - local >= threshold)
            &&& (local <= remote && remote - local == threshold ==> v is Lagging)
            &&& (v is LocalAhead ==> v->lead == local - remote)
            &&& (v is Synced ==> v->Synced_lag == remote - local)
            &&& (v is Lagging ==> v->Lagging_lag == remote - local)
        }),
{
}

/// Whatever the local reading, a failed remote reading gives an unreachable
/// reference and nothing that calls for an alert.
pub proof fn lemma_remote_failure_decides(
    local: Result<u64, RpcError>,
    cause: RpcError,
    threshold: u64,
)
    ensures
        verdict_spec(local, Err(cause), threshold) == (HealthVerdict::RemoteUnreachable { cause }),
        !verdict_spec(local, Err(cause), threshold).alertable(),
{
}

} // verus!
