//! Connection set-up for a memcached client: reading a `memcache://` URL
//! into the transport, its options and the plan for opening a connection.

pub mod error;
pub mod parsed_url;
pub mod options;
pub mod transport;
pub mod connection;
pub mod server_name;
pub mod tls;
