//! The health monitor: re-probes a known endpoint on demand and updates its
//! registry metadata in place. The caller runs the probe (the same prober
//! and classifier pair the scan uses) and measures the elapsed time; this
//! module applies the result.

use vstd::prelude::*;
use vstd::string::StringExecFns;

use crate::state::{state_wf, GrpcToolState, StateV};
use crate::strfmt::{dec_str, u64_to_string};
use crate::types::{
    clone_service_vec, records_view, GrpcResponse, HealthStatus, LocalhostService, MetadataV,
    RecordV, ResponseData, ServiceMetadata,
};

verus! {

/// The outcome of the health probe the caller ran against the endpoint.
pub enum HealthOutcome {
    /// The probe ran; `true` when the endpoint accepted the TCP connect and
    /// answered the reflection handshake.
    Completed(bool),
    /// The probe itself failed; the payload is its error text.
    Failed(String),
}

/// Whether a registry record belongs to the probed endpoint.
pub open spec fn key_matches(r: RecordV, host: Seq<char>, port: u16) -> bool {
    r.host == host && r.port == port
}

/// One record after a health check of the endpoint it belongs to: the
/// health-check timestamp, status and latency are overwritten, everything
/// else is kept.
pub open spec fn health_updated_record(r: RecordV, healthy: bool, rt: u64, now: u64) -> RecordV {
    RecordV {
        metadata: MetadataV {
            last_health_check: now,
            health_status: if healthy {
                HealthStatus::Healthy
            } else {
                HealthStatus::Unhealthy
            },
            response_time_ms: Some(rt),
            ..r.metadata
        },
        ..r
    }
}

/// One record after a health check: updated in place when it belongs to the
/// probed endpoint, untouched otherwise.
pub open spec fn health_update_one(
    r: RecordV,
    host: Seq<char>,
    port: u16,
    healthy: bool,
    rt: u64,
    now: u64,
) -> RecordV {
    if key_matches(r, host, port) {
        health_updated_record(r, healthy, rt, now)
    } else {
        r
    }
}

/// The registry after a health check of `host:port`.
pub open spec fn health_update(
    reg: Seq<RecordV>,
    host: Seq<char>,
    port: u16,
    healthy: bool,
    rt: u64,
    now: u64,
) -> Seq<RecordV> {
    reg.map_values(|r: RecordV| health_update_one(r, host, port, healthy, rt, now))
}

/// The message of a health envelope for a healthy endpoint.
pub open spec fn healthy_message(host: Seq<char>, port: u16, rt: u64) -> Seq<char> {
    "Service at "@ + host + ":"@ + dec_str(port as nat) + " is healthy ("@ + dec_str(rt as nat)
        + "ms)"@
}

/// The message of a health envelope for an unhealthy endpoint.
pub open spec fn unhealthy_message(host: Seq<char>, port: u16) -> Seq<char> {
    "Service at "@ + host + ":"@ + dec_str(port as nat) + " is unhealthy"@
}

/// Applies a health check of `host:port`. The matching registry record, if
/// any, is updated in place; when the endpoint is absent from the registry
/// the result is still reported but no record is created. The envelope's
/// `success` mirrors the probe's verdict.
pub fn health_check_service(
    state: &mut GrpcToolState,
    host: String,
    port: u16,
    outcome: HealthOutcome,
    response_time_ms: u64,
    now: u64,
) -> (r: GrpcResponse)
    ensures
        outcome matches HealthOutcome::Completed(healthy) ==> {
            &&& final(state)@ == (StateV {
                registry: health_update(
                    old(state)@.registry,
                    host@,
                    port,
                    healthy,
                    response_time_ms,
                    now,
                ),
                ..old(state)@
            })
            &&& r.success == healthy
            &&& (healthy ==> r.message@ == healthy_message(host@, port, response_time_ms))
            &&& (!healthy ==> r.message@ == unhealthy_message(host@, port))
            &&& (r.data matches Some(ResponseData::Health { host: h, port: p, healthy: hl, response_time_ms: rt })
                && h@ == host@ && p == port && hl == healthy && rt == response_time_ms)
        },
        outcome matches HealthOutcome::Failed(e) ==> {
            &&& final(state)@ == old(state)@
            &&& !r.success
            &&& r.message@ == "Health check failed: "@ + e@
            &&& r.message@.len() > 0
            &&& r.data is None
        },
{
    match outcome {
        HealthOutcome::Completed(healthy) => {
            let mut updated: Vec<LocalhostService> = Vec::new();
            let mut i: usize = 0;
            while i < state.localhost_services.len()
                invariant
                    i <= state.localhost_services.len(),
                    state == old(state),
                    updated@.len() == i,
                    forall|j: int|
                        0 <= j < i ==> #[trigger] updated@[j]@ == health_update_one(
                            records_view(state.localhost_services@)[j],
                            host@,
                            port,
                            healthy,
                            response_time_ms,
                            now,
                        ),
                decreases state.localhost_services.len() - i,
            {
                let rec = &state.localhost_services[i];
                if rec.host.eq(&host) && rec.port == port {
                    let new_rec = LocalhostService {
                        host: rec.host.clone(),
                        port: rec.port,
                        is_grpc: rec.is_grpc,
                        services: clone_service_vec(&rec.services),
                        metadata: ServiceMetadata {
                            host: rec.metadata.host.clone(),
                            port: rec.metadata.port,
                            discovered_at: rec.metadata.discovered_at,
                            last_health_check: now,
                            health_status: if healthy {
                                HealthStatus::Healthy
                            } else {
                                HealthStatus::Unhealthy
                            },
                            response_time_ms: Some(response_time_ms),
                        },
                    };
                    updated.push(new_rec);
                } else {
                    updated.push(rec.clone());
                }
                i = i + 1;
            }
            assert(records_view(updated@) =~= health_update(
                records_view(state.localhost_services@),
                host@,
                port,
                healthy,
                response_time_ms,
                now,
            ));
            state.localhost_services = updated;
            let key = crate::strfmt::endpoint_key_string(host.as_str(), port);
            let message = if healthy {
                let rt_str = u64_to_string(response_time_ms);
                let m = String::from_str("Service at ").concat(key.as_str()).concat(
                    " is healthy (",
                ).concat(rt_str.as_str()).concat("ms)");
                assert(m@ =~= healthy_message(host@, port, response_time_ms));
                m
            } else {
                let m = String::from_str("Service at ").concat(key.as_str()).concat(
                    " is unhealthy",
                );
                assert(m@ =~= unhealthy_message(host@, port));
                m
            };
            GrpcResponse {
                success: healthy,
                message,
                data: Some(
                    ResponseData::Health { host, port, healthy, response_time_ms },
                ),
            }
        },
        HealthOutcome::Failed(e) => {
            let message = String::from_str("Health check failed: ").concat(e.as_str());
            assert(message@.len() > 0) by {
                reveal_strlit("Health check failed: ");
            }
            GrpcResponse { success: false, message, data: None }
        },
    }
}

/// Law: a health check of an endpoint absent from the registry leaves the
/// registry exactly as it was — no record is created or dropped.
pub proof fn lemma_health_check_unknown_endpoint(
    reg: Seq<RecordV>,
    host: Seq<char>,
    port: u16,
    healthy: bool,
    rt: u64,
    now: u64,
)
    requires
        forall|k: int| 0 <= k < reg.len() ==> !key_matches(#[trigger] reg[k], host, port),
    ensures
        health_update(reg, host, port, healthy, rt, now) == reg,
{
    assert(health_update(reg, host, port, healthy, rt, now) =~= reg);
}

/// Law: a health check never moves a record's health-check timestamp
/// backwards, as long as the clock read is no older than the last check.
pub proof fn lemma_health_update_monotonic(
    reg: Seq<RecordV>,
    host: Seq<char>,
    port: u16,
    healthy: bool,
    rt: u64,
    now: u64,
)
    requires
        forall|k: int|
            0 <= k < reg.len() ==> now >= (#[trigger] reg[k]).metadata.last_health_check,
    ensures
        forall|k: int|
            0 <= k < reg.len() ==> (#[trigger] health_update(reg, host, port, healthy, rt, now)[k])
                .metadata.last_health_check >= reg[k].metadata.last_health_check,
{
}

/// Law: a health check changes no record's endpoint key, so it preserves
/// well-formedness of the state.
pub proof fn lemma_health_check_preserves_wf(
    s: StateV,
    host: Seq<char>,
    port: u16,
    healthy: bool,
    rt: u64,
    now: u64,
)
    requires
        state_wf(s),
    ensures
        state_wf(
            StateV { registry: health_update(s.registry, host, port, healthy, rt, now), ..s },
        ),
{
    let updated = health_update(s.registry, host, port, healthy, rt, now);
    assert forall|i: int, j: int| 0 <= i < j < updated.len() implies !(updated[i].host
        == updated[j].host && updated[i].port == updated[j].port) by {
        assert(updated[i].host == s.registry[i].host && updated[i].port == s.registry[i].port);
        assert(updated[j].host == s.registry[j].host && updated[j].port == s.registry[j].port);
    }
}

} // verus!
