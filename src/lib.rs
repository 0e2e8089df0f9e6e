//! Logic of a peer-to-peer throughput benchmark: peer identities, address
//! handling, transport composition rules, the measurement exchange of both
//! roles, the drivers' reactions to connection events and the baseline HTTP
//! comparison.
pub mod address;
pub mod transport;
pub mod measure;
pub mod baseline;
pub mod driver;
pub mod identity;
