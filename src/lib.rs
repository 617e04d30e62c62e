//! Delivery of error notices to a collection endpoint over HTTPS, with a
//! bounded, fixed-delay retry policy.

mod config;
mod proxy;
mod retry;
mod sender;
mod transport;

pub use config::Config;
pub use proxy::{parse_proxy, MalformedProxy, ProxyTarget, DEFAULT_PROXY_PORT};
pub use retry::{RetryPolicy, Step, DEFAULT_RETRY_TIMEOUT_MS};
pub use sender::{read_response, SendError, SyncSender};
