use vstd::prelude::*;

use hyper::client::Client;
use hyper::Url;
use serde_json::Value;

use crate::config::Config;
use crate::proxy::{parse_proxy, proxy_of, MalformedProxy, ProxyTarget};
use crate::retry::RetryPolicy;
use crate::transport::{direct_client, json_parses, parse_json, parse_url, proxied_client, url_parses};

verus! {

/// Why one delivery attempt failed.
#[derive(Clone, Copy, Debug, PartialEq, Eq, Structural)]
pub enum SendError {
    /// The endpoint is not a valid absolute URL.
    Url,
    /// The request could not be sent: connection, TLS or proxy failure.
    Network,
    /// The response body could not be read.
    Io,
    /// The response body is not JSON.
    Parse,
}

/// Posts notices to one endpoint, through one client built up front.
#[derive(Debug)]
pub struct SyncSender {
    client: Client,
    endpoint: String,
    proxy: Option<ProxyTarget>,
    policy: RetryPolicy,
}

impl SyncSender {
    pub closed spec fn spec_endpoint(&self) -> Seq<char> {
        self.endpoint@
    }

    pub closed spec fn spec_proxy(&self) -> Option<(Seq<char>, u16)> {
        match self.proxy {
            Some(t) => Some(t@),
            None => None,
        }
    }

    pub closed spec fn spec_policy(&self) -> RetryPolicy {
        self.policy
    }

    /// Builds the client once: direct when `config.proxy` is empty, else
    /// through the proxy it names. A malformed proxy port is refused here,
    /// before any connection is made.
    pub fn new(config: &Config) -> (r: Result<SyncSender, MalformedProxy>)
        ensures
            r is Err <==> proxy_of(config.proxy@) is None,
            r is Err ==> r->Err_0.proxy@ == config.proxy@,
            r is Ok ==> {
                let s = r->Ok_0;
                &&& Some(s.spec_proxy()) == proxy_of(config.proxy@)
                &&& s.spec_endpoint() == config.endpoint@
                &&& s.spec_policy() == RetryPolicy::spec_from_options(
                    config.max_retry,
                    config.retry_timeout_ms,
                )
            },
    {
        let proxy = match parse_proxy(config.proxy.as_str()) {
            Ok(p) => p,
            Err(e) => return Err(e),
        };
        let client = match &proxy {
            None => direct_client(),
            Some(t) => proxied_client(t.host.clone(), t.port),
        };
        let policy = RetryPolicy::from_options(config.max_retry, config.retry_timeout_ms);
        Ok(SyncSender { client, endpoint: config.endpoint(), proxy, policy })
    }

    pub fn client(&self) -> &Client {
        &self.client
    }

    pub fn endpoint(&self) -> (r: &str)
        ensures
            r@ == self.spec_endpoint(),
    {
        self.endpoint.as_str()
    }

    pub fn proxy(&self) -> (r: Option<ProxyTarget>)
        ensures
            match r {
                Some(t) => self.spec_proxy() == Some(t@),
                None => self.spec_proxy() is None,
            },
    {
        match &self.proxy {
            Some(t) => Some(ProxyTarget { host: t.host.clone(), port: t.port }),
            None => None,
        }
    }

    pub fn policy(&self) -> (r: RetryPolicy)
        ensures
            r == self.spec_policy(),
    {
        self.policy
    }

    /// The endpoint as a URL, read again for every attempt.
    pub fn target_url(&self) -> (r: Result<Url, SendError>)
        ensures
            r is Ok <==> url_parses(self.spec_endpoint()),
            r is Err ==> r == Err::<Url, SendError>(SendError::Url),
    {
        match parse_url(self.endpoint.as_str()) {
            Some(u) => Ok(u),
            None => Err(SendError::Url),
        }
    }
}

/// The value that a response body carries: the body read as JSON, or a
/// parse failure, whatever the status of the response.
pub fn read_response(body: &str) -> (r: Result<Value, SendError>)
    ensures
        r is Ok <==> json_parses(body@),
        r is Err ==> r == Err::<Value, SendError>(SendError::Parse),
        body@.len() == 0 ==> r is Err,
{
    match parse_json(body) {
        Some(v) => Ok(v),
        None => Err(SendError::Parse),
    }
}

} // verus!
