//! Service enumeration on the active connection: the caller runs the
//! reflection exchange (one list-services request, then the drained
//! response stream) and hands its outcome in; this module turns the listed
//! names into service records and replaces the active connection's service
//! list.

use vstd::prelude::*;
use vstd::string::StringExecFns;

use crate::state::{state_wf, GrpcToolState, StateV};
use crate::strfmt::{dec_str, u64_to_string};
use crate::types::{
    clone_service_vec, services_view, ConnectionV, GrpcResponse, GrpcService, HealthStatus,
    MetadataV, ResponseData, ServiceMetadata, ServiceV,
};

verus! {

/// The outcome of the reflection exchange the caller ran (or declined to
/// run) on the active connection.
pub enum ReflectionOutcome {
    /// No reflection client is present: nothing was attempted.
    NotConnected,
    /// The single list-services request could not be sent.
    SendFailed,
    /// The reflection call failed; the payload is its error text.
    CallFailed(String),
    /// The response stream listed these service names, in stream order.
    ServiceNames(Vec<String>),
}

/// The views of a sequence of names.
pub open spec fn names_view(names: Seq<String>) -> Seq<Seq<char>> {
    names.map_values(|s: String| s@)
}

/// The service record discovery writes for one listed name: an empty method
/// list — method-level reflection is a declared but unimplemented extension
/// point, never filled with invented data — and metadata taken from the
/// active connection.
pub open spec fn discovered_service(name: Seq<char>, conn: ConnectionV, now: u64) -> ServiceV {
    ServiceV {
        name,
        methods: Seq::empty(),
        metadata: MetadataV {
            host: conn.host,
            port: conn.port,
            discovered_at: now,
            last_health_check: now,
            health_status: HealthStatus::Healthy,
            response_time_ms: None,
        },
    }
}

/// The service records for all listed names, in stream order.
pub open spec fn discovered_services(names: Seq<Seq<char>>, conn: ConnectionV, now: u64) -> Seq<
    ServiceV,
> {
    names.map_values(|n: Seq<char>| discovered_service(n, conn, now))
}

/// The message of a successful discovery envelope.
pub open spec fn discovery_message(n: nat) -> Seq<char> {
    "Discovered "@ + dec_str(n) + " services"@
}

/// Law: replacing the active connection's service list preserves
/// well-formedness of the state — discovery touches neither the registry
/// nor the connection flags.
pub proof fn lemma_discovery_preserves_wf(s: StateV, names: Seq<Seq<char>>, now: u64)
    requires
        state_wf(s),
    ensures
        state_wf((StateV { services: discovered_services(names, s.connection, now), ..s })),
{
}

/// Applies the outcome of a discovery request. On listed names the active
/// connection's service list is replaced wholesale; on any failure the
/// state is left untouched and the failure is reported in the envelope.
pub fn discover_services(state: &mut GrpcToolState, outcome: ReflectionOutcome, now: u64) -> (r:
    GrpcResponse)
    requires
        outcome is NotConnected <==> !old(state)@.client_connected,
    ensures
        outcome is NotConnected ==> {
            &&& final(state)@ == old(state)@
            &&& !r.success
            &&& r.message@ == "Not connected to gRPC server"@
            &&& r.data is None
        },
        outcome is SendFailed ==> {
            &&& final(state)@ == old(state)@
            &&& !r.success
            &&& r.message@ == "Failed to send reflection request"@
            &&& r.data is None
        },
        outcome matches ReflectionOutcome::CallFailed(e) ==> {
            &&& final(state)@ == old(state)@
            &&& !r.success
            &&& r.message@ == "Failed to discover services: "@ + e@
            &&& r.data is None
        },
        outcome matches ReflectionOutcome::ServiceNames(names) ==> {
            &&& final(state)@ == (StateV {
                services: discovered_services(
                    names_view(names@),
                    old(state)@.connection,
                    now,
                ),
                ..old(state)@
            })
            &&& r.success
            &&& r.message@ == discovery_message(names@.len())
            &&& (r.data matches Some(ResponseData::Services(list)) && services_view(list@)
                == discovered_services(names_view(names@), old(state)@.connection, now))
        },
{
    match outcome {
        ReflectionOutcome::NotConnected => {
            GrpcResponse {
                success: false,
                message: String::from_str("Not connected to gRPC server"),
                data: None,
            }
        },
        ReflectionOutcome::SendFailed => {
            GrpcResponse {
                success: false,
                message: String::from_str("Failed to send reflection request"),
                data: None,
            }
        },
        ReflectionOutcome::CallFailed(e) => {
            let message = String::from_str("Failed to discover services: ").concat(e.as_str());
            GrpcResponse { success: false, message, data: None }
        },
        ReflectionOutcome::ServiceNames(names) => {
            let mut built: Vec<GrpcService> = Vec::new();
            let mut i: usize = 0;
            while i < names.len()
                invariant
                    i <= names.len(),
                    built@.len() == i,
                    state == old(state),
                    forall|j: int|
                        0 <= j < i ==> #[trigger] built@[j]@ == discovered_service(
                            names_view(names@)[j],
                            state@.connection,
                            now,
                        ),
                decreases names.len() - i,
            {
                let service = GrpcService {
                    name: names[i].clone(),
                    methods: Vec::new(),
                    metadata: ServiceMetadata {
                        host: state.connection.host.clone(),
                        port: state.connection.port,
                        discovered_at: now,
                        last_health_check: now,
                        health_status: HealthStatus::Healthy,
                        response_time_ms: None,
                    },
                };
                assert(service@ == discovered_service(
                    names_view(names@)[i as int],
                    state@.connection,
                    now,
                )) by {
                    assert(crate::types::methods_view(Seq::<crate::types::GrpcMethod>::empty())
                        =~= Seq::<crate::types::MethodV>::empty());
                }
                built.push(service);
                i = i + 1;
            }
            assert(services_view(built@) =~= discovered_services(
                names_view(names@),
                state@.connection,
                now,
            ));
            state.services = clone_service_vec(&built);
            let count_str = u64_to_string(built.len() as u64);
            let message = String::from_str("Discovered ").concat(count_str.as_str()).concat(
                " services",
            );
            assert(message@ =~= discovery_message(names@.len()));
            GrpcResponse {
                success: true,
                message,
                data: Some(ResponseData::Services(built)),
            }
        },
    }
}

} // verus!
