//! Verified core of a localhost gRPC service-discovery and
//! connection-management engine.
//!
//! The engine scans a fixed list of candidate ports, classifies open ports
//! by a gRPC reflection handshake, keeps a registry of discovered endpoints
//! with health state, and manages the single active connection used for
//! reflection-based service enumeration. All network effects happen outside
//! this crate; the functions here take the outcome of each probe, handshake
//! or reflection call as a plain value and perform every decision and state
//! change under contract.

pub mod clock;
pub mod discovery;
pub mod health;
pub mod scan;
pub mod state;
pub mod strfmt;
pub mod types;
