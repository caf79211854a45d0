//! The scan: a one-shot sweep of a fixed candidate port list against
//! `localhost`. The caller probes each candidate port (TCP connect, then a
//! scan-time reflection handshake) and hands the outcomes in; this module
//! classifies them and replaces the registry with the fresh snapshot.

use vstd::prelude::*;
use vstd::string::StringExecFns;

use crate::state::{GrpcToolState, StateV};
use crate::strfmt::{dec_str, endpoint_key, endpoint_key_string, u64_to_string};
use crate::types::{
    clone_record_vec, records_view, scan_results_view, GrpcResponse, GrpcService, HealthStatus,
    LocalhostService, MetadataV, RecordV, ResponseData, ScanResult, ScanResultV, ServiceMetadata,
    ServiceV,
};

verus! {

/// The fixed list of commonly used gRPC ports a scan sweeps.
pub open spec fn candidate_ports_spec() -> Seq<u16> {
    seq![
        9090u16, 8080, 50051, 50052, 50053, 8081, 8082, 8083, 8084, 8085,
        9091, 9092, 9093, 9094, 9095, 3000, 3001, 3002, 4000, 4001,
        5000, 5001, 5002, 6000, 6001, 7000, 7001, 8000, 8001, 8002,
    ]
}

/// The candidate ports, in scan order.
pub fn candidate_ports() -> (r: Vec<u16>)
    ensures
        r@ == candidate_ports_spec(),
{
    let r: Vec<u16> = vec![
        9090u16, 8080, 50051, 50052, 50053, 8081, 8082, 8083, 8084, 8085,
        9091, 9092, 9093, 9094, 9095, 3000, 3001, 3002, 4000, 4001,
        5000, 5001, 5002, 6000, 6001, 7000, 7001, 8000, 8001, 8002,
    ];
    assert(r@ =~= candidate_ports_spec());
    r
}

/// The outcome of the port prober's bounded-time TCP connect.
#[derive(Clone, Copy, Debug, PartialEq, Eq, Structural)]
pub enum TcpProbe {
    Open,
    Closed,
    TimedOut,
}

/// The outcome of the scan-time gRPC reflection handshake against an open
/// port.
#[derive(Clone, Copy, Debug, PartialEq, Eq, Structural)]
pub enum ReflectionProbe {
    /// The reflection call produced a response: the port speaks gRPC.
    Responded,
    /// The endpoint string was rejected before any connect attempt.
    InvalidEndpoint,
    /// The transport channel failed to connect within the deadline.
    ChannelFailed,
    /// The single list-services request could not be sent.
    SendFailed,
    /// The reflection call failed or timed out.
    CallFailed,
}

/// Scan-time classification of the handshake: only an answered reflection
/// call counts as gRPC. Every failure and every timeout collapses silently
/// into "not gRPC" — never into an error.
pub fn is_grpc_service(probe: ReflectionProbe) -> (r: bool)
    ensures
        r == (probe is Responded),
{
    match probe {
        ReflectionProbe::Responded => true,
        _ => false,
    }
}

/// Whether a probed port is reported by the scan: the port must accept the
/// TCP connect within its deadline and then answer the reflection handshake.
/// A closed or timed-out port, and an open port that does not answer
/// reflection, are skipped silently.
pub fn scan_port(tcp: TcpProbe, reflection: ReflectionProbe) -> (r: bool)
    ensures
        r == (tcp is Open && reflection is Responded),
{
    match tcp {
        TcpProbe::Open => is_grpc_service(reflection),
        _ => false,
    }
}

/// The registry record a scan writes for a detected gRPC endpoint.
pub open spec fn scan_record(port: u16, now: u64) -> RecordV {
    RecordV {
        host: "localhost"@,
        port,
        is_grpc: true,
        services: Seq::empty(),
        metadata: MetadataV {
            host: "localhost"@,
            port,
            discovered_at: now,
            last_health_check: now,
            health_status: HealthStatus::Healthy,
            response_time_ms: None,
        },
    }
}

/// The report line a scan writes for a detected gRPC endpoint.
pub open spec fn scan_entry(port: u16) -> ScanResultV {
    ScanResultV { endpoint: endpoint_key("localhost"@, port), status: "grpc_detected"@, port }
}

/// Whether some record of `s` already carries the port `p`.
pub open spec fn has_port(s: Seq<RecordV>, p: u16) -> bool {
    exists|k: int| 0 <= k < s.len() && s[k].port == p
}

/// The registry records for the first `n` candidate ports, in scan order:
/// one record per detected port, keyed by endpoint — a port that is already
/// present is not inserted twice.
pub open spec fn scan_records_prefix(
    ports: Seq<u16>,
    results: Seq<bool>,
    now: u64,
    n: int,
) -> Seq<RecordV>
    decreases n,
{
    if n <= 0 {
        Seq::empty()
    } else {
        let pre = scan_records_prefix(ports, results, now, n - 1);
        pre + (if results[n - 1] && !has_port(pre, ports[n - 1]) {
            seq![scan_record(ports[n - 1], now)]
        } else {
            Seq::empty()
        })
    }
}

/// The report lines for the first `n` candidate ports: one line per
/// detection, in scan order.
pub open spec fn scan_entries_prefix(
    ports: Seq<u16>,
    results: Seq<bool>,
    now: u64,
    n: int,
) -> Seq<ScanResultV>
    decreases n,
{
    if n <= 0 {
        Seq::empty()
    } else {
        scan_entries_prefix(ports, results, now, n - 1) + (if results[n - 1] {
            seq![scan_entry(ports[n - 1])]
        } else {
            Seq::empty()
        })
    }
}

/// The full registry snapshot of one scan over the candidate ports.
pub open spec fn scan_snapshot(results: Seq<bool>, now: u64) -> Seq<RecordV> {
    scan_records_prefix(candidate_ports_spec(), results, now, candidate_ports_spec().len() as int)
}

/// The full scan report of one scan over the candidate ports.
pub open spec fn scan_entries(results: Seq<bool>, now: u64) -> Seq<ScanResultV> {
    scan_entries_prefix(candidate_ports_spec(), results, now, candidate_ports_spec().len() as int)
}

/// The message of a successful scan envelope.
pub open spec fn scan_message(n: nat) -> Seq<char> {
    "Discovered "@ + dec_str(n) + " gRPC services on localhost"@
}

proof fn lemma_scan_prefix_shape(ports: Seq<u16>, results: Seq<bool>, now: u64, n: int)
    requires
        0 <= n <= ports.len(),
    ensures
        forall|k: int|
            0 <= k < scan_records_prefix(ports, results, now, n).len() ==> ports.take(n).contains(
                (#[trigger] scan_records_prefix(ports, results, now, n)[k]).port,
            ),
        forall|k: int|
            0 <= k < scan_records_prefix(ports, results, now, n).len() ==> (
            #[trigger] scan_records_prefix(ports, results, now, n)[k]).host == "localhost"@,
    decreases n,
{
    if n > 0 {
        lemma_scan_prefix_shape(ports, results, now, n - 1);
        let pre = scan_records_prefix(ports, results, now, n - 1);
        let cur = scan_records_prefix(ports, results, now, n);
        assert forall|k: int| 0 <= k < cur.len() implies ports.take(n).contains(
            (#[trigger] cur[k]).port,
        ) && cur[k].host == "localhost"@ by {
            if k < pre.len() {
                assert(cur[k] == pre[k]);
                let pt = ports.take(n - 1);
                assert(pt.contains(pre[k].port));
                let i = choose|i: int| 0 <= i < pt.len() && #[trigger] pt[i] == pre[k].port;
                assert(ports.take(n)[i] == pre[k].port);
            } else {
                assert(cur[k] == scan_record(ports[n - 1], now));
                assert(ports.take(n)[n - 1] == ports[n - 1]);
            }
        }
    }
}

/// Law: a scan reports only candidate ports. Whatever is listening anywhere
/// else, every record of the snapshot carries a port from the candidate
/// list, and the host `localhost`.
pub proof fn lemma_scan_reports_only_candidate_ports(results: Seq<bool>, now: u64)
    ensures
        forall|k: int|
            0 <= k < scan_snapshot(results, now).len() ==> candidate_ports_spec().contains(
                (#[trigger] scan_snapshot(results, now)[k]).port,
            ),
        forall|k: int|
            0 <= k < scan_snapshot(results, now).len() ==> (#[trigger] scan_snapshot(
                results,
                now,
            )[k]).host == "localhost"@,
{
    let c = candidate_ports_spec();
    lemma_scan_prefix_shape(c, results, now, c.len() as int);
    assert(c.take(c.len() as int) =~= c);
}

/// Law: the snapshot of a scan never holds two records with the same
/// endpoint key.
pub proof fn lemma_scan_snapshot_unique_keys(results: Seq<bool>, now: u64)
    ensures
        forall|a: int, b: int|
            0 <= a < b < scan_snapshot(results, now).len() ==> (#[trigger] scan_snapshot(
                results,
                now,
            )[a]).port != (#[trigger] scan_snapshot(results, now)[b]).port,
{
    let c = candidate_ports_spec();
    lemma_scan_prefix_unique(c, results, now, c.len() as int);
}

proof fn lemma_scan_prefix_unique(ports: Seq<u16>, results: Seq<bool>, now: u64, n: int)
    requires
        0 <= n <= ports.len(),
    ensures
        forall|a: int, b: int|
            0 <= a < b < scan_records_prefix(ports, results, now, n).len() ==> (
            #[trigger] scan_records_prefix(ports, results, now, n)[a]).port != (
            #[trigger] scan_records_prefix(ports, results, now, n)[b]).port,
    decreases n,
{
    if n > 0 {
        lemma_scan_prefix_unique(ports, results, now, n - 1);
        let pre = scan_records_prefix(ports, results, now, n - 1);
        let cur = scan_records_prefix(ports, results, now, n);
        assert forall|a: int, b: int| 0 <= a < b < cur.len() implies (#[trigger] cur[a]).port != (
        #[trigger] cur[b]).port by {
            if b < pre.len() {
                assert(cur[a] == pre[a] && cur[b] == pre[b]);
            } else {
                assert(cur[b] == scan_record(ports[n - 1], now));
                assert(!has_port(pre, ports[n - 1]));
                assert(cur[a] == pre[a]);
                if pre[a].port == ports[n - 1] {
                    assert(has_port(pre, ports[n - 1]));
                }
            }
        }
    }
}

/// Law: replacing the registry with a scan snapshot preserves
/// well-formedness of the state.
pub proof fn lemma_scan_preserves_wf(s: StateV, results: Seq<bool>, now: u64)
    requires
        crate::state::state_wf(s),
    ensures
        crate::state::state_wf((StateV { registry: scan_snapshot(results, now), ..s })),
{
    lemma_scan_snapshot_unique_keys(results, now);
}

/// Fields of two registry records that must agree for the records to count
/// as identical up to the discovery and health-check timestamps.
pub open spec fn record_eq_mod_timestamps(a: RecordV, b: RecordV) -> bool {
    &&& a.host == b.host
    &&& a.port == b.port
    &&& a.is_grpc == b.is_grpc
    &&& a.services == b.services
    &&& a.metadata.host == b.metadata.host
    &&& a.metadata.port == b.metadata.port
    &&& a.metadata.health_status == b.metadata.health_status
    &&& a.metadata.response_time_ms == b.metadata.response_time_ms
}

proof fn lemma_has_port_eq_mod_timestamps(a: Seq<RecordV>, b: Seq<RecordV>, p: u16)
    requires
        a.len() == b.len(),
        forall|k: int| 0 <= k < a.len() ==> record_eq_mod_timestamps(#[trigger] a[k], b[k]),
    ensures
        has_port(a, p) == has_port(b, p),
{
    if has_port(a, p) {
        let k = choose|k: int| 0 <= k < a.len() && a[k].port == p;
        assert(b[k].port == p);
    }
    if has_port(b, p) {
        let k = choose|k: int| 0 <= k < b.len() && b[k].port == p;
        assert(a[k].port == p);
    }
}

proof fn lemma_scan_prefix_idempotent(
    ports: Seq<u16>,
    results: Seq<bool>,
    t1: u64,
    t2: u64,
    n: int,
)
    requires
        0 <= n <= ports.len(),
    ensures
        scan_records_prefix(ports, results, t1, n).len() == scan_records_prefix(
            ports,
            results,
            t2,
            n,
        ).len(),
        forall|k: int|
            0 <= k < scan_records_prefix(ports, results, t1, n).len()
                ==> record_eq_mod_timestamps(
                #[trigger] scan_records_prefix(ports, results, t1, n)[k],
                scan_records_prefix(ports, results, t2, n)[k],
            ),
    decreases n,
{
    if n > 0 {
        lemma_scan_prefix_idempotent(ports, results, t1, t2, n - 1);
        lemma_has_port_eq_mod_timestamps(
            scan_records_prefix(ports, results, t1, n - 1),
            scan_records_prefix(ports, results, t2, n - 1),
            ports[n - 1],
        );
    }
}

/// Law: two consecutive scans with unchanged probe outcomes produce
/// identical registry snapshots except for the discovery and health-check
/// timestamps.
pub proof fn lemma_scan_idempotent(results: Seq<bool>, t1: u64, t2: u64)
    ensures
        scan_snapshot(results, t1).len() == scan_snapshot(results, t2).len(),
        forall|k: int|
            0 <= k < scan_snapshot(results, t1).len() ==> record_eq_mod_timestamps(
                #[trigger] scan_snapshot(results, t1)[k],
                scan_snapshot(results, t2)[k],
            ),
{
    let c = candidate_ports_spec();
    lemma_scan_prefix_idempotent(c, results, t1, t2, c.len() as int);
}

/// Whether some record of `v` already carries the port `p`.
fn has_port_vec(v: &Vec<LocalhostService>, p: u16) -> (r: bool)
    ensures
        r == has_port(records_view(v@), p),
{
    let mut r = false;
    let mut i: usize = 0;
    while i < v.len()
        invariant
            i <= v.len(),
            r <==> (exists|k: int| 0 <= k < i && records_view(v@)[k].port == p),
        decreases v.len() - i,
    {
        if v[i].port == p {
            r = true;
            assert(records_view(v@)[i as int].port == p);
        }
        i = i + 1;
    }
    r
}

/// Runs the decision half of a scan: takes one classification outcome per
/// candidate port (in candidate order, as `scan_port` produced them) and
/// replaces the whole registry with the fresh snapshot — records absent
/// from this scan are dropped, never merged. Everything else in the state
/// is untouched.
pub fn scan_localhost_services(state: &mut GrpcToolState, results: Vec<bool>, now: u64) -> (r:
    GrpcResponse)
    requires
        results@.len() == candidate_ports_spec().len(),
    ensures
        final(state)@ == (StateV { registry: scan_snapshot(results@, now), ..old(state)@ }),
        r.success,
        r.message@ == scan_message(scan_snapshot(results@, now).len()),
        r.data matches Some(
            ResponseData::Scan { services, scan_results, ports_scanned, grpc_services_found },
        ) && records_view(services@) == scan_snapshot(results@, now) && scan_results_view(
            scan_results@,
        ) == scan_entries(results@, now) && ports_scanned == candidate_ports_spec().len()
            && grpc_services_found == scan_snapshot(results@, now).len(),
{
    let ports = candidate_ports();
    let mut discovered: Vec<LocalhostService> = Vec::new();
    let mut entries: Vec<ScanResult> = Vec::new();
    let mut i: usize = 0;
    while i < ports.len()
        invariant
            ports@ == candidate_ports_spec(),
            results@.len() == ports@.len(),
            i <= ports.len(),
            records_view(discovered@) == scan_records_prefix(ports@, results@, now, i as int),
            scan_results_view(entries@) == scan_entries_prefix(ports@, results@, now, i as int),
        decreases ports.len() - i,
    {
        let port = ports[i];
        if results[i] {
            if !has_port_vec(&discovered, port) {
                let host = String::from_str("localhost");
                let metadata = ServiceMetadata {
                    host: host.clone(),
                    port,
                    discovered_at: now,
                    last_health_check: now,
                    health_status: HealthStatus::Healthy,
                    response_time_ms: None,
                };
                let record = LocalhostService {
                    host,
                    port,
                    is_grpc: true,
                    services: Vec::new(),
                    metadata,
                };
                assert(record@ == scan_record(port, now)) by {
                    assert(crate::types::services_view(Seq::<GrpcService>::empty())
                        =~= Seq::<ServiceV>::empty());
                }
                discovered.push(record);
            }
            let ep = endpoint_key_string("localhost", port);
            entries.push(
                ScanResult { endpoint: ep, status: String::from_str("grpc_detected"), port },
            );
            assert(scan_results_view(entries@) =~= scan_entries_prefix(
                ports@,
                results@,
                now,
                i as int + 1,
            ));
        } else {
            assert(scan_results_view(entries@) =~= scan_entries_prefix(
                ports@,
                results@,
                now,
                i as int + 1,
            ));
        }
        assert(records_view(discovered@) =~= scan_records_prefix(
            ports@,
            results@,
            now,
            i as int + 1,
        ));
        i = i + 1;
    }
    let count = discovered.len();
    let count_str = u64_to_string(count as u64);
    let message = String::from_str("Discovered ").concat(count_str.as_str()).concat(
        " gRPC services on localhost",
    );
    assert(message@ =~= scan_message(scan_snapshot(results@, now).len()));
    state.localhost_services = clone_record_vec(&discovered);
    let ports_scanned = ports.len();
    let data = ResponseData::Scan {
        services: discovered,
        scan_results: entries,
        ports_scanned,
        grpc_services_found: count,
    };
    GrpcResponse { success: true, message, data: Some(data) }
}

} // verus!
