use vstd::prelude::*;

use hyper::client::{Client, ProxyConfig};
use hyper::net::{HttpConnector, HttpsConnector};
use hyper::Url;
use hyper_sync_rustls::TlsClient;
use serde_json::Value;

verus! {

#[verifier::external_type_specification]
#[verifier::external_body]
pub struct ExClient(Client);

#[verifier::external_type_specification]
#[verifier::external_body]
pub struct ExUrl(Url);

#[verifier::external_type_specification]
#[verifier::external_body]
pub struct ExValue(Value);

/// Whether `Url::parse` accepts the text as an absolute URL.
pub uninterp spec fn url_parses(s: Seq<char>) -> bool;

/// Whether `serde_json::from_str` reads the text as one JSON value.
pub uninterp spec fn json_parses(s: Seq<char>) -> bool;

/// Relies on `hyper_sync_rustls::TlsClient::new`, `HttpsConnector::new` and
/// `Client::with_connector`: a client that connects directly over HTTPS,
/// built without any network activity.
#[verifier::external_body]
pub(crate) fn direct_client() -> (r: Client) {
    Client::with_connector(HttpsConnector::new(TlsClient::new()))
}

/// Relies on `Client::with_proxy_config` and `ProxyConfig::new`: a client
/// whose connections go through the HTTP proxy `host:port`, with a TLS
/// context of its own (`TlsClient::new`) for HTTPS targets. Nothing is
/// connected here.
#[verifier::external_body]
pub(crate) fn proxied_client(host: String, port: u16) -> (r: Client) {
    let tls = TlsClient::new();
    Client::with_proxy_config(ProxyConfig::new("http", host, port, HttpConnector, tls))
}

/// Relies on `Url::parse`: `Some` exactly when the text is a valid absolute URL.
#[verifier::external_body]
pub(crate) fn parse_url(s: &str) -> (r: Option<Url>)
    ensures
        r is Some <==> url_parses(s@),
{
    Url::parse(s).ok()
}

/// Relies on `serde_json::from_str::<Value>`: `Some` exactly when the text is
/// one JSON value; an empty text is not.
#[verifier::external_body]
pub(crate) fn parse_json(s: &str) -> (r: Option<Value>)
    ensures
        r is Some <==> json_parses(s@),
        s@.len() == 0 ==> r is None,
{
    serde_json::from_str::<Value>(s).ok()
}

} // verus!
