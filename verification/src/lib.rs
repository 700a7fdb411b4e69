//! Verified core of a UDP relay node: the master-API URLs, the relay
//! registry with its expiry rule, the forwarding decisions of a relay, and
//! the routing of the control HTTP interface.

pub mod text;
pub mod conf;
pub mod registry;
pub mod net;
pub mod report;
pub mod udp_server;
pub mod http_server;
