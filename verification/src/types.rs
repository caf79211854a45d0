//! Data model of the discovery engine: endpoints, service metadata,
//! discovered services, the active connection, and the response envelope.
//!
//! Each executable type has a ghost model (`...V`) reached through `View`;
//! all contracts in this crate are stated over those models.

use vstd::prelude::*;
use vstd::string::StringExecFns;

verus! {

/// Health state of a discovered endpoint, as recorded in the registry.
#[derive(Clone, Copy, Debug, PartialEq, Eq, Structural)]
pub enum HealthStatus {
    Healthy,
    Unhealthy,
    Unknown,
}

/// Errors the engine distinguishes: transport-level failure, reflection
/// session failure after a transport connection succeeded, and a malformed
/// or unexpected reflection response.
#[derive(Debug, PartialEq, Eq)]
pub enum GrpcToolError {
    ConnectionError(String),
    DiscoveryError(String),
    ReflectionError(String),
}

impl GrpcToolError {
    /// The human-readable text of the error.
    pub open spec fn spec_message(&self) -> Seq<char> {
        match self {
            GrpcToolError::ConnectionError(s) => "Connection failed: "@ + s@,
            GrpcToolError::DiscoveryError(s) => "Discovery failed: "@ + s@,
            GrpcToolError::ReflectionError(s) => "Reflection failed: "@ + s@,
        }
    }

    pub fn message(&self) -> (r: String)
        ensures
            r@ == self.spec_message(),
    {
        match self {
            GrpcToolError::ConnectionError(s) => {
                String::from_str("Connection failed: ").concat(s.as_str())
            },
            GrpcToolError::DiscoveryError(s) => {
                String::from_str("Discovery failed: ").concat(s.as_str())
            },
            GrpcToolError::ReflectionError(s) => {
                String::from_str("Reflection failed: ").concat(s.as_str())
            },
        }
    }
}

/// One method of a discovered service.
pub struct GrpcMethod {
    pub name: String,
    pub input_type: String,
    pub output_type: String,
    pub client_streaming: bool,
    pub server_streaming: bool,
}

/// Ghost model of `GrpcMethod`.
pub ghost struct MethodV {
    pub name: Seq<char>,
    pub input_type: Seq<char>,
    pub output_type: Seq<char>,
    pub client_streaming: bool,
    pub server_streaming: bool,
}

impl View for GrpcMethod {
    type V = MethodV;

    open spec fn view(&self) -> MethodV {
        MethodV {
            name: self.name@,
            input_type: self.input_type@,
            output_type: self.output_type@,
            client_streaming: self.client_streaming,
            server_streaming: self.server_streaming,
        }
    }
}

impl Clone for GrpcMethod {
    fn clone(&self) -> (r: Self)
        ensures
            r@ == self@,
    {
        GrpcMethod {
            name: self.name.clone(),
            input_type: self.input_type.clone(),
            output_type: self.output_type.clone(),
            client_streaming: self.client_streaming,
            server_streaming: self.server_streaming,
        }
    }
}

/// Discovery and health bookkeeping for one endpoint.
pub struct ServiceMetadata {
    pub host: String,
    pub port: u16,
    pub discovered_at: u64,
    pub last_health_check: u64,
    pub health_status: HealthStatus,
    pub response_time_ms: Option<u64>,
}

/// Ghost model of `ServiceMetadata`.
pub ghost struct MetadataV {
    pub host: Seq<char>,
    pub port: u16,
    pub discovered_at: u64,
    pub last_health_check: u64,
    pub health_status: HealthStatus,
    pub response_time_ms: Option<u64>,
}

impl View for ServiceMetadata {
    type V = MetadataV;

    open spec fn view(&self) -> MetadataV {
        MetadataV {
            host: self.host@,
            port: self.port,
            discovered_at: self.discovered_at,
            last_health_check: self.last_health_check,
            health_status: self.health_status,
            response_time_ms: self.response_time_ms,
        }
    }
}

impl Clone for ServiceMetadata {
    fn clone(&self) -> (r: Self)
        ensures
            r@ == self@,
    {
        ServiceMetadata {
            host: self.host.clone(),
            port: self.port,
            discovered_at: self.discovered_at,
            last_health_check: self.last_health_check,
            health_status: self.health_status,
            response_time_ms: self.response_time_ms,
        }
    }
}

/// A named gRPC service exposed by an endpoint, with its method list
/// (left empty until method-level reflection is implemented).
pub struct GrpcService {
    pub name: String,
    pub methods: Vec<GrpcMethod>,
    pub metadata: ServiceMetadata,
}

/// Ghost model of `GrpcService`.
pub ghost struct ServiceV {
    pub name: Seq<char>,
    pub methods: Seq<MethodV>,
    pub metadata: MetadataV,
}

/// The models of a sequence of methods.
pub open spec fn methods_view(s: Seq<GrpcMethod>) -> Seq<MethodV> {
    s.map_values(|m: GrpcMethod| m@)
}

impl View for GrpcService {
    type V = ServiceV;

    open spec fn view(&self) -> ServiceV {
        ServiceV {
            name: self.name@,
            methods: methods_view(self.methods@),
            metadata: self.metadata@,
        }
    }
}

/// The models of a sequence of services.
pub open spec fn services_view(s: Seq<GrpcService>) -> Seq<ServiceV> {
    s.map_values(|x: GrpcService| x@)
}

pub fn clone_method_vec(v: &Vec<GrpcMethod>) -> (r: Vec<GrpcMethod>)
    ensures
        methods_view(r@) == methods_view(v@),
{
    let mut r: Vec<GrpcMethod> = Vec::new();
    let mut i: usize = 0;
    while i < v.len()
        invariant
            i <= v.len(),
            r@.len() == i,
            forall|j: int| 0 <= j < i ==> #[trigger] r@[j]@ == v@[j]@,
        decreases v.len() - i,
    {
        r.push(v[i].clone());
        i = i + 1;
    }
    assert(methods_view(r@) =~= methods_view(v@));
    r
}

impl Clone for GrpcService {
    fn clone(&self) -> (r: Self)
        ensures
            r@ == self@,
    {
        GrpcService {
            name: self.name.clone(),
            methods: clone_method_vec(&self.methods),
            metadata: self.metadata.clone(),
        }
    }
}

pub fn clone_service_vec(v: &Vec<GrpcService>) -> (r: Vec<GrpcService>)
    ensures
        services_view(r@) == services_view(v@),
{
    let mut r: Vec<GrpcService> = Vec::new();
    let mut i: usize = 0;
    while i < v.len()
        invariant
            i <= v.len(),
            r@.len() == i,
            forall|j: int| 0 <= j < i ==> #[trigger] r@[j]@ == v@[j]@,
        decreases v.len() - i,
    {
        r.push(v[i].clone());
        i = i + 1;
    }
    assert(services_view(r@) =~= services_view(v@));
    r
}

/// One registry record: an endpoint found during a scan, whether it speaks
/// gRPC, the services it hosts, and its metadata.
pub struct LocalhostService {
    pub host: String,
    pub port: u16,
    pub is_grpc: bool,
    pub services: Vec<GrpcService>,
    pub metadata: ServiceMetadata,
}

/// Ghost model of `LocalhostService`.
pub ghost struct RecordV {
    pub host: Seq<char>,
    pub port: u16,
    pub is_grpc: bool,
    pub services: Seq<ServiceV>,
    pub metadata: MetadataV,
}

impl View for LocalhostService {
    type V = RecordV;

    open spec fn view(&self) -> RecordV {
        RecordV {
            host: self.host@,
            port: self.port,
            is_grpc: self.is_grpc,
            services: services_view(self.services@),
            metadata: self.metadata@,
        }
    }
}

/// The models of a sequence of registry records.
pub open spec fn records_view(s: Seq<LocalhostService>) -> Seq<RecordV> {
    s.map_values(|x: LocalhostService| x@)
}

impl Clone for LocalhostService {
    fn clone(&self) -> (r: Self)
        ensures
            r@ == self@,
    {
        LocalhostService {
            host: self.host.clone(),
            port: self.port,
            is_grpc: self.is_grpc,
            services: clone_service_vec(&self.services),
            metadata: self.metadata.clone(),
        }
    }
}

pub fn clone_record_vec(v: &Vec<LocalhostService>) -> (r: Vec<LocalhostService>)
    ensures
        records_view(r@) == records_view(v@),
{
    let mut r: Vec<LocalhostService> = Vec::new();
    let mut i: usize = 0;
    while i < v.len()
        invariant
            i <= v.len(),
            r@.len() == i,
            forall|j: int| 0 <= j < i ==> #[trigger] r@[j]@ == v@[j]@,
        decreases v.len() - i,
    {
        r.push(v[i].clone());
        i = i + 1;
    }
    assert(records_view(r@) =~= records_view(v@));
    r
}

/// The active connection: the single endpoint the tool is currently
/// interacting with for discovery commands.
pub struct GrpcConnection {
    pub host: String,
    pub port: u16,
    pub use_tls: bool,
    pub connected: bool,
}

/// Ghost model of `GrpcConnection`.
pub ghost struct ConnectionV {
    pub host: Seq<char>,
    pub port: u16,
    pub use_tls: bool,
    pub connected: bool,
}

impl View for GrpcConnection {
    type V = ConnectionV;

    open spec fn view(&self) -> ConnectionV {
        ConnectionV {
            host: self.host@,
            port: self.port,
            use_tls: self.use_tls,
            connected: self.connected,
        }
    }
}

impl Clone for GrpcConnection {
    fn clone(&self) -> (r: Self)
        ensures
            r@ == self@,
    {
        GrpcConnection {
            host: self.host.clone(),
            port: self.port,
            use_tls: self.use_tls,
            connected: self.connected,
        }
    }
}

/// One line of the scan report: an endpoint where the handshake confirmed
/// gRPC, with the port and a fixed status tag.
pub struct ScanResult {
    pub endpoint: String,
    pub status: String,
    pub port: u16,
}

/// Ghost model of `ScanResult`.
pub ghost struct ScanResultV {
    pub endpoint: Seq<char>,
    pub status: Seq<char>,
    pub port: u16,
}

impl View for ScanResult {
    type V = ScanResultV;

    open spec fn view(&self) -> ScanResultV {
        ScanResultV { endpoint: self.endpoint@, status: self.status@, port: self.port }
    }
}

/// The models of a sequence of scan report lines.
pub open spec fn scan_results_view(s: Seq<ScanResult>) -> Seq<ScanResultV> {
    s.map_values(|x: ScanResult| x@)
}

/// The structured payload of a response envelope.
pub enum ResponseData {
    Scan {
        services: Vec<LocalhostService>,
        scan_results: Vec<ScanResult>,
        ports_scanned: usize,
        grpc_services_found: usize,
    },
    Connect { endpoint: String, tls: bool },
    Services(Vec<GrpcService>),
    Health { host: String, port: u16, healthy: bool, response_time_ms: u64 },
}

/// The uniform envelope every command returns: expected failures (port
/// closed, not gRPC, handshake timeout) come back as `success == false`
/// with a message, never as a hard error.
pub struct GrpcResponse {
    pub success: bool,
    pub message: String,
    pub data: Option<ResponseData>,
}

/// The model of the default active connection: `localhost:9090`, no TLS,
/// not connected.
pub open spec fn default_connection() -> ConnectionV {
    ConnectionV { host: "localhost"@, port: 9090u16, use_tls: false, connected: false }
}

impl Default for GrpcConnection {
    fn default() -> (r: Self)
        ensures
            r@ == default_connection(),
    {
        GrpcConnection {
            host: String::from_str("localhost"),
            port: 9090,
            use_tls: false,
            connected: false,
        }
    }
}

} // verus!
