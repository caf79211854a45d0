//! The engine's state and its connection-manager transitions: the active
//! connection, the discovered-service list of that connection, the presence
//! of the reflection client, the scan registry, and the connection pool.

use vstd::prelude::*;
use vstd::string::StringExecFns;

use crate::strfmt::{endpoint_uri, endpoint_uri_string};
use crate::types::{
    clone_record_vec, clone_service_vec, default_connection, records_view, services_view,
    ConnectionV, GrpcConnection, GrpcResponse, GrpcService, LocalhostService, RecordV,
    ResponseData, ServiceV,
};

verus! {

/// One entry of the connection pool: the endpoint whose channel is held
/// open. The channel handles themselves live outside the verified core;
/// this records which keys the pool holds.
pub struct PoolEntry {
    pub host: String,
    pub port: u16,
}

/// Ghost model of an endpoint key.
pub ghost struct EndpointV {
    pub host: Seq<char>,
    pub port: u16,
}

impl View for PoolEntry {
    type V = EndpointV;

    open spec fn view(&self) -> EndpointV {
        EndpointV { host: self.host@, port: self.port }
    }
}

/// The models of a sequence of pool entries.
pub open spec fn pool_view(s: Seq<PoolEntry>) -> Seq<EndpointV> {
    s.map_values(|e: PoolEntry| e@)
}

/// Ghost model of the whole engine state.
pub ghost struct StateV {
    pub connection: ConnectionV,
    pub services: Seq<ServiceV>,
    pub client_connected: bool,
    pub registry: Seq<RecordV>,
    pub pool: Seq<EndpointV>,
}

/// The engine state. One instance exists per process; the host wraps each
/// field access in its own mutual-exclusion guard.
pub struct GrpcToolState {
    pub connection: GrpcConnection,
    pub services: Vec<GrpcService>,
    pub client_connected: bool,
    pub localhost_services: Vec<LocalhostService>,
    pub connection_pool: Vec<PoolEntry>,
}

impl View for GrpcToolState {
    type V = StateV;

    open spec fn view(&self) -> StateV {
        StateV {
            connection: self.connection@,
            services: services_view(self.services@),
            client_connected: self.client_connected,
            registry: records_view(self.localhost_services@),
            pool: pool_view(self.connection_pool@),
        }
    }
}

/// Well-formedness of the engine state: the registry never holds two
/// records with the same endpoint key, and a connected active connection
/// implies the reflection client is present.
pub open spec fn state_wf(s: StateV) -> bool {
    &&& forall|i: int, j: int|
        0 <= i < j < s.registry.len() ==> !(s.registry[i].host == s.registry[j].host
            && s.registry[i].port == s.registry[j].port)
    &&& s.connection.connected ==> s.client_connected
}

/// The model of the state at startup: default connection, no services, no
/// client, empty registry, empty pool.
pub open spec fn initial_state() -> StateV {
    StateV {
        connection: default_connection(),
        services: Seq::empty(),
        client_connected: false,
        registry: Seq::empty(),
        pool: Seq::empty(),
    }
}

impl GrpcToolState {
    pub fn new() -> (r: GrpcToolState)
        ensures
            r@ == initial_state(),
            state_wf(r@),
    {
        let r = GrpcToolState {
            connection: GrpcConnection::default(),
            services: Vec::new(),
            client_connected: false,
            localhost_services: Vec::new(),
            connection_pool: Vec::new(),
        };
        assert(services_view(r.services@) =~= Seq::<ServiceV>::empty());
        assert(records_view(r.localhost_services@) =~= Seq::<RecordV>::empty());
        assert(pool_view(r.connection_pool@) =~= Seq::<EndpointV>::empty());
        r
    }
}

/// Whether the pool already holds `e`.
pub open spec fn pool_contains(pool: Seq<EndpointV>, e: EndpointV) -> bool {
    exists|i: int| 0 <= i < pool.len() && pool[i] == e
}

/// The pool after an upsert of `e`: unchanged if the key is present
/// (a fresh channel replaces the old one under the same key), extended
/// otherwise.
pub open spec fn pool_insert(pool: Seq<EndpointV>, e: EndpointV) -> Seq<EndpointV> {
    if pool_contains(pool, e) {
        pool
    } else {
        pool.push(e)
    }
}

/// How a successful connect changes the state: the active connection is
/// overwritten with the new endpoint and marked connected, the reflection
/// client slot is filled, the pool gains the endpoint's key; the service
/// list and the registry stay as they were. A second connect supersedes
/// the first without an explicit disconnect.
pub open spec fn connect_success_transition(
    s: StateV,
    host: Seq<char>,
    port: u16,
    use_tls: bool,
) -> StateV {
    StateV {
        connection: ConnectionV { host, port, use_tls, connected: true },
        client_connected: true,
        pool: pool_insert(s.pool, EndpointV { host, port }),
        ..s
    }
}

/// How a disconnect changes the state: the reflection client is dropped,
/// `connected` is cleared while host, port and TLS flag stay as last set,
/// the active connection's service list empties, and the whole pool is
/// cleared; the scan registry persists.
pub open spec fn disconnect_transition(s: StateV) -> StateV {
    StateV {
        connection: ConnectionV { connected: false, ..s.connection },
        services: Seq::empty(),
        client_connected: false,
        registry: s.registry,
        pool: Seq::empty(),
    }
}

/// The outcome of the transport-channel establishment the caller attempted
/// for an explicit connect request, as a plain value.
pub enum ChannelOutcome {
    /// The channel reached the endpoint.
    Connected,
    /// The transport failed to connect; the payload is its error text.
    ConnectFailed(String),
    /// The endpoint string was rejected before any connect attempt.
    InvalidEndpoint(String),
}

/// Applies an explicit connect request. On success the state moves by
/// `connect_success_transition`; on either failure the state is left
/// untouched and the failure is reported in the envelope, never escalated.
pub fn connect_grpc(
    state: &mut GrpcToolState,
    host: String,
    port: u16,
    use_tls: bool,
    outcome: ChannelOutcome,
) -> (r: GrpcResponse)
    ensures
        outcome is Connected ==> {
            &&& final(state)@ == connect_success_transition(old(state)@, host@, port, use_tls)
            &&& r.success
            &&& r.message@ == "Connected to gRPC server at "@ + endpoint_uri(host@, port, use_tls)
            &&& (r.data matches Some(ResponseData::Connect { endpoint, tls }) && endpoint@
                == endpoint_uri(host@, port, use_tls) && tls == use_tls)
        },
        outcome matches ChannelOutcome::ConnectFailed(e) ==> {
            &&& final(state)@ == old(state)@
            &&& !r.success
            &&& r.message@ == "Failed to connect to gRPC server: "@ + e@
            &&& r.message@.len() > 0
            &&& r.data is None
        },
        outcome matches ChannelOutcome::InvalidEndpoint(e) ==> {
            &&& final(state)@ == old(state)@
            &&& !r.success
            &&& r.message@ == "Invalid endpoint: "@ + e@
            &&& r.message@.len() > 0
            &&& r.data is None
        },
{
    match outcome {
        ChannelOutcome::Connected => {
            let uri = endpoint_uri_string(host.as_str(), port, use_tls);
            let ghost key = EndpointV { host: host@, port };
            let mut present = false;
            let mut i: usize = 0;
            while i < state.connection_pool.len()
                invariant
                    i <= state.connection_pool.len(),
                    key == (EndpointV { host: host@, port }),
                    present <==> (exists|j: int|
                        0 <= j < i && pool_view(state.connection_pool@)[j] == key),
                decreases state.connection_pool.len() - i,
            {
                let entry = &state.connection_pool[i];
                proof {
                    assert(pool_view(state.connection_pool@)[i as int]
                        == state.connection_pool@[i as int]@);
                }
                if entry.host.eq(&host) && entry.port == port {
                    present = true;
                    assert(state.connection_pool@[i as int]@ == key);
                }
                i = i + 1;
            }
            assert(present == pool_contains(pool_view(state.connection_pool@), key));
            if !present {
                state.connection_pool.push(PoolEntry { host: host.clone(), port });
                assert(pool_view(state.connection_pool@) =~= pool_insert(
                    pool_view(old(state).connection_pool@),
                    key,
                ));
            }
            state.client_connected = true;
            state.connection = GrpcConnection { host, port, use_tls, connected: true };
            let message = String::from_str("Connected to gRPC server at ").concat(uri.as_str());
            GrpcResponse {
                success: true,
                message,
                data: Some(ResponseData::Connect { endpoint: uri, tls: use_tls }),
            }
        },
        ChannelOutcome::ConnectFailed(e) => {
            let message = String::from_str("Failed to connect to gRPC server: ").concat(
                e.as_str(),
            );
            assert(message@.len() > 0) by {
                reveal_strlit("Failed to connect to gRPC server: ");
            }
            GrpcResponse { success: false, message, data: None }
        },
        ChannelOutcome::InvalidEndpoint(e) => {
            let message = String::from_str("Invalid endpoint: ").concat(e.as_str());
            assert(message@.len() > 0) by {
                reveal_strlit("Invalid endpoint: ");
            }
            GrpcResponse { success: false, message, data: None }
        },
    }
}

/// Tears the active connection down: clears the reflection client, marks
/// the connection as not connected (host and port stay as last set), empties
/// the discovered-service list, and clears the entire connection pool.
pub fn disconnect_grpc(state: &mut GrpcToolState) -> (r: GrpcResponse)
    ensures
        final(state)@ == disconnect_transition(old(state)@),
        r.success,
        r.message@ == "Disconnected from gRPC server"@,
        r.data is None,
{
    state.client_connected = false;
    state.connection.connected = false;
    state.services = Vec::new();
    state.connection_pool = Vec::new();
    assert(services_view(state.services@) =~= Seq::<ServiceV>::empty());
    assert(pool_view(state.connection_pool@) =~= Seq::<EndpointV>::empty());
    GrpcResponse {
        success: true,
        message: String::from_str("Disconnected from gRPC server"),
        data: None,
    }
}

/// A read-only snapshot of the active connection.
pub fn get_connection_status(state: &GrpcToolState) -> (r: GrpcConnection)
    ensures
        r@ == state@.connection,
{
    state.connection.clone()
}

/// A read-only snapshot of the active connection's discovered services.
pub fn get_services(state: &GrpcToolState) -> (r: Vec<GrpcService>)
    ensures
        services_view(r@) == state@.services,
{
    clone_service_vec(&state.services)
}

/// A read-only snapshot of the scan registry.
pub fn get_localhost_services(state: &GrpcToolState) -> (r: Vec<LocalhostService>)
    ensures
        records_view(r@) == state@.registry,
{
    clone_record_vec(&state.localhost_services)
}

/// Law: a connect immediately followed by a disconnect leaves the active
/// connection holding the connect call's host, port and TLS flag with
/// `connected` cleared — the host and port fields keep whatever was last
/// set — and the scan registry is untouched by the pair.
pub proof fn lemma_connect_then_disconnect(s: StateV, host: Seq<char>, port: u16, use_tls: bool)
    ensures
        disconnect_transition(connect_success_transition(s, host, port, use_tls)).connection == (
        ConnectionV { host, port, use_tls, connected: false }),
        disconnect_transition(connect_success_transition(s, host, port, use_tls)).registry
            == s.registry,
{
}

/// Law: a successful connect preserves well-formedness of the state.
pub proof fn lemma_connect_preserves_wf(s: StateV, host: Seq<char>, port: u16, use_tls: bool)
    requires
        state_wf(s),
    ensures
        state_wf(connect_success_transition(s, host, port, use_tls)),
{
}

/// Law: a disconnect preserves well-formedness of the state.
pub proof fn lemma_disconnect_preserves_wf(s: StateV)
    requires
        state_wf(s),
    ensures
        state_wf(disconnect_transition(s)),
{
}

} // verus!
