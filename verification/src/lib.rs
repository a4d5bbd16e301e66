//! The decisions of a DNS resolver that prefers DNS-over-HTTPS.
//!
//! The crate decides which servers a lookup may reach, in which order, for how
//! long, and when plaintext DNS is allowed. Sockets, files, timers and the
//! process-wide state belong to its user, who performs the actions that the
//! functions here name and hands back what came of them.

pub mod addr;
pub mod context;
pub mod doh;
pub mod doh_url;
pub mod endpoint;
pub mod error;
pub mod laws;
pub mod lookup;
pub mod name_servers;
pub mod pem;
pub mod records;
pub mod resolver;
pub mod runtime;
pub mod socket;
pub mod system_dns;
pub mod text;
pub mod tls;

