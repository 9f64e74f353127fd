//! The connection wrapper: it holds at most one handle to the remote
//! key-value service, checks the address before a handle is made, and
//! prepares each operation only while a handle is present.
//!
//! The wrapper does no network I/O itself. `connect` makes the handle with
//! the constructor that the caller passes in; each operation hands back the
//! handle together with the request to send on it, and the reply is turned
//! into this library's result by `rpc_outcome` and `first_value`.
use vstd::prelude::*;
use vstd::string::StringSliceAdditionalSpecFns;
use tonic::transport::Uri;
use crate::endpoint::{address_valid, rejection_explained, validate};
use crate::error::ClientError;
use crate::prefix::{get_prefix, prefix_end};
use crate::request::{
    AuthenticateRequest,
    KeyValue,
    PutRequest,
    RangeRequest,
    is_plain_put,
    is_plain_range,
    plain_put,
    plain_range,
};

verus! {

#[verifier::external_type_specification]
#[verifier::external_body]
pub struct ExUri(Uri);

/// Whether the transport accepts a text as a URI.
pub uninterp spec fn uri_accepts(s: Seq<char>) -> bool;

/// Relies on `FromStr for Uri` (the `http` crate's URI, as tonic re-exports
/// it): whether a text parses depends on the text alone.
#[verifier::external_body]
fn parse_uri(s: &str) -> (r: Result<Uri, String>)
    ensures
        r is Ok <==> uri_accepts(s@),
{
    s.parse::<Uri>().map_err(|e| e.to_string())
}

/// The key under which the routing configuration is stored.
pub const CONFIG_ROOT: &'static str = "traefik";

/// A client of the remote key-value service over a handle of type `H`.
pub struct EtcdClient<H> {
    handle: Option<H>,
    addr: String,
    auth: Option<AuthenticateRequest>,
}

impl<H> EtcdClient<H> {
    /// The handle to the service, once one is made.
    pub closed spec fn handle(&self) -> Option<H> {
        self.handle
    }

    /// The address that `connect` dials.
    pub closed spec fn address(&self) -> Seq<char> {
        self.addr@
    }

    /// The credentials given at creation, if any.
    pub closed spec fn credentials(&self) -> Option<AuthenticateRequest> {
        self.auth
    }

    pub open spec fn connected(&self) -> bool {
        self.handle() is Some
    }

    /// A client for `addr` that is not connected yet.
    pub fn new(addr: String) -> (r: Self)
        ensures
            !r.connected(),
            r.address() == addr@,
            r.credentials() is None,
    {
        EtcdClient { handle: None, addr, auth: None }
    }

    /// A client for `addr` that keeps credentials for later use.
    pub fn new_with_auth(addr: String, auth: AuthenticateRequest) -> (r: Self)
        ensures
            !r.connected(),
            r.address() == addr@,
            r.credentials() == Some(auth),
    {
        EtcdClient { handle: None, addr, auth: Some(auth) }
    }

    pub fn is_connected(&self) -> (r: bool)
        ensures
            r == self.connected(),
    {
        self.handle.is_some()
    }

    pub fn addr(&self) -> (r: &str)
        ensures
            r@ == self.address(),
    {
        self.addr.as_str()
    }

    /// Makes the handle from the outcome of parsing the address as a URI:
    /// `open` builds it from the URI; a refused address gives
    /// `ConnectionError` with the parser's text and leaves the client as it
    /// was. A new handle replaces the old one.
    pub fn establish<F: FnOnce(Uri) -> H>(&mut self, target: Result<Uri, String>, open: F) -> (r:
        Result<(), ClientError>)
        requires
            forall|u: Uri| open.requires((u,)),
        ensures
            r is Ok <==> target is Ok,
            r is Ok ==> (final(self).handle() matches Some(h) && open.ensures(
                (target->Ok_0,),
                h,
            )),
            r is Ok ==> final(self).address() == old(self).address(),
            r is Ok ==> final(self).credentials() == old(self).credentials(),
            target matches Err(m) ==> r == Err::<(), ClientError>(ClientError::ConnectionError(m)),
            r is Err ==> *final(self) == *old(self),
    {
        match target {
            Ok(uri) => {
                let h = open(uri);
                self.handle = Some(h);
                Ok(())
            },
            Err(m) => Err(ClientError::ConnectionError(m)),
        }
    }

    /// Checks the address, then makes the handle with `open`. The handle may
    /// be lazy: success says nothing of whether the service can be reached.
    pub fn connect<F: FnOnce(Uri) -> H>(&mut self, open: F) -> (r: Result<(), ClientError>)
        requires
            forall|u: Uri| open.requires((u,)),
        ensures
            r is Ok <==> address_valid(old(self).address()) && uri_accepts(old(self).address()),
            r is Ok ==> final(self).connected(),
            r is Ok ==> final(self).address() == old(self).address(),
            r is Ok ==> final(self).credentials() == old(self).credentials(),
            !address_valid(old(self).address()) ==> (r matches Err(
                ClientError::InvalidAddress(m),
            ) && rejection_explained(old(self).address(), m@)),
            address_valid(old(self).address()) && !uri_accepts(old(self).address()) ==> r is Err
                && r->Err_0 is ConnectionError,
            r is Err ==> *final(self) == *old(self),
    {
        match validate(self.addr.as_str()) {
            Ok(()) => {},
            Err(e) => {
                return Err(e);
            },
        }
        let target = parse_uri(self.addr.as_str());
        self.establish(target, open)
    }

    /// The write of `value` under `key`, with the handle to send it on;
    /// `NotConnected` while there is no handle.
    pub fn put(&self, key: Vec<u8>, value: Vec<u8>) -> (r: Result<(&H, PutRequest), ClientError>)
        ensures
            r is Err <==> !self.connected(),
            r matches Err(e) ==> e is NotConnected,
            r matches Ok((h, req)) ==> Some(*h) == self.handle() && is_plain_put(req, key@, value@),
    {
        match &self.handle {
            Some(h) => Ok((h, plain_put(key, value))),
            None => Err(ClientError::NotConnected),
        }
    }

    /// The read of the single key `key`, as the degenerate range
    /// `[key, key)`, with the handle to send it on; `NotConnected` while
    /// there is no handle.
    pub fn get(&self, key: Vec<u8>) -> (r: Result<(&H, RangeRequest), ClientError>)
        ensures
            r is Err <==> !self.connected(),
            r matches Err(e) ==> e is NotConnected,
            r matches Ok((h, req)) ==> Some(*h) == self.handle() && is_plain_range(req, key@, key@),
    {
        match &self.handle {
            Some(h) => {
                let end = key.clone();
                Ok((h, plain_range(key, end)))
            },
            None => Err(ClientError::NotConnected),
        }
    }

    /// The read of every key that starts with `prefix`, as the range
    /// `[prefix, get_prefix(prefix))`, with the handle to send it on;
    /// `NotConnected` while there is no handle.
    pub fn get_all_with_prefix(&self, prefix: Vec<u8>) -> (r: Result<(&H, RangeRequest), ClientError>)
        ensures
            r is Err <==> !self.connected(),
            r matches Err(e) ==> e is NotConnected,
            r matches Ok((h, req)) ==> Some(*h) == self.handle() && is_plain_range(
                req,
                prefix@,
                prefix_end(prefix@),
            ),
    {
        match &self.handle {
            Some(h) => {
                let end = get_prefix(prefix.clone());
                Ok((h, plain_range(prefix, end)))
            },
            None => Err(ClientError::NotConnected),
        }
    }

    /// The read of the whole configuration tree, the keys under
    /// `CONFIG_ROOT`.
    pub fn get_all(&self) -> (r: Result<(&H, RangeRequest), ClientError>)
        ensures
            r is Err <==> !self.connected(),
            r matches Err(e) ==> e is NotConnected,
            r matches Ok((h, req)) ==> Some(*h) == self.handle() && is_plain_range(
                req,
                CONFIG_ROOT.spec_bytes(),
                prefix_end(CONFIG_ROOT.spec_bytes()),
            ),
    {
        self.get_all_with_prefix(CONFIG_ROOT.as_bytes_vec())
    }
}

/// The result of a remote call: a failure of the call becomes `RpcError`
/// with its description.
pub fn rpc_outcome<T>(outcome: Result<T, String>) -> (r: Result<T, ClientError>)
    ensures
        outcome matches Ok(v) ==> r == Ok::<T, ClientError>(v),
        outcome matches Err(m) ==> r == Err::<T, ClientError>(ClientError::RpcError(m)),
{
    match outcome {
        Ok(v) => Ok(v),
        Err(m) => Err(ClientError::RpcError(m)),
    }
}

/// The value of a single-key read: that of the first pair in the reply, or
/// `None` when the reply holds no pair.
pub fn first_value(pairs: Vec<KeyValue>) -> (r: Option<Vec<u8>>)
    ensures
        pairs@.len() == 0 ==> r is None,
        pairs@.len() > 0 ==> (r matches Some(v) && v@ == pairs@[0].value@),
{
    let mut pairs = pairs;
    if pairs.len() == 0 {
        None
    } else {
        let first = pairs.swap_remove(0);
        Some(first.value)
    }
}

} // verus!
