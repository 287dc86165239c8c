use vstd::prelude::*;

use crate::error::{Error, RequestError};
use crate::registry::Registry;

verus! {

/// The address the service listens on, as plain octets or segments.
#[derive(Debug, Clone, Copy, PartialEq, Eq)]
pub enum BindAddr {
    V4([u8; 4]),
    V6([u16; 8]),
}

/// The port a new server listens on.
pub const DEFAULT_PORT: u16 = 8080;

/// The IPv6 loopback address `::1`.
pub open spec fn ipv6_localhost() -> BindAddr {
    BindAddr::V6([0u16, 0u16, 0u16, 0u16, 0u16, 0u16, 0u16, 1u16])
}

/// Configuration of the service before it starts: where it listens and the
/// tenants it serves.
pub struct Server<T> {
    port: u16,
    bind: BindAddr,
    issuers: Registry<T>,
}

impl<T> Server<T> {
    pub closed spec fn spec_port(&self) -> u16 {
        self.port
    }

    pub closed spec fn spec_bind(&self) -> BindAddr {
        self.bind
    }

    pub closed spec fn spec_issuers(&self) -> Registry<T> {
        self.issuers
    }

    pub open spec fn wf(&self) -> bool {
        self.spec_issuers().wf()
    }

    /// A server on `[::1]:8080` with no tenants.
    pub fn new() -> (r: Self)
        ensures
            r.wf(),
            r.spec_port() == DEFAULT_PORT,
            r.spec_bind() == ipv6_localhost(),
            r.spec_issuers().names().len() == 0,
    {
        Server {
            port: DEFAULT_PORT,
            bind: BindAddr::V6([0u16, 0u16, 0u16, 0u16, 0u16, 0u16, 0u16, 1u16]),
            issuers: Registry::new(),
        }
    }

    /// Sets the port to listen on.
    pub fn port(&mut self, port: u16) -> (r: &mut Self)
        ensures
            r.spec_port() == port,
            r.spec_bind() == old(self).spec_bind(),
            r.spec_issuers() == old(self).spec_issuers(),
            *final(self) == *final(r),
    {
        self.port = port;
        self
    }

    /// Sets the address to listen on.
    pub fn bind(&mut self, bind: BindAddr) -> (r: &mut Self)
        ensures
            r.spec_bind() == bind,
            r.spec_port() == old(self).spec_port(),
            r.spec_issuers() == old(self).spec_issuers(),
            *final(self) == *final(r),
    {
        self.bind = bind;
        self
    }

    /// The port to listen on.
    pub fn listen_port(&self) -> (r: u16)
        ensures
            r == self.spec_port(),
    {
        self.port
    }

    /// The address to listen on.
    pub fn listen_addr(&self) -> (r: BindAddr)
        ensures
            r == self.spec_bind(),
    {
        self.bind
    }

    /// The tenants registered so far.
    pub fn issuers(&self) -> (r: &Registry<T>)
        ensures
            *r == self.spec_issuers(),
    {
        &self.issuers
    }

    /// Registers a tenant; a name that is taken is refused with
    /// `DuplicateIssuer` and the server is left as it was.
    pub fn add_issuer(&mut self, name: String, issuer: T) -> (r: Result<&mut Self, Error>)
        requires
            old(self).wf(),
        ensures
            old(self).spec_issuers().names().contains(name@) <==> r is Err,
            r matches Err(e) ==> e == Error::DuplicateIssuer(name) && *final(self) == *old(self),
            r matches Ok(s) ==> s.wf() && s.spec_port() == old(self).spec_port()
                && s.spec_bind() == old(self).spec_bind()
                && s.spec_issuers().names() == old(self).spec_issuers().names().push(name@)
                && s.spec_issuers().records() == old(self).spec_issuers().records().push(issuer)
                && *final(self) == *final(s),
    {
        match self.issuers.insert(name, issuer) {
            Ok(()) => Ok(self),
            Err(e) => Err(e),
        }
    }

    /// The state the running service answers from.
    pub fn into_state(self) -> (r: ServerState<T>)
        requires
            self.wf(),
        ensures
            r.wf(),
            r.spec_issuers() == self.spec_issuers(),
    {
        ServerState { issuers: self.issuers }
    }
}

impl<T> Default for Server<T> {
    fn default() -> (r: Self)
        ensures
            r.wf(),
            r.spec_port() == DEFAULT_PORT,
            r.spec_bind() == ipv6_localhost(),
            r.spec_issuers().names().len() == 0,
    {
        Self::new()
    }
}

/// The tenants of a running service; read-only once built.
pub struct ServerState<T> {
    issuers: Registry<T>,
}

impl<T> ServerState<T> {
    pub closed spec fn spec_issuers(&self) -> Registry<T> {
        self.issuers
    }

    pub open spec fn wf(&self) -> bool {
        self.spec_issuers().wf()
    }

    /// Builds the state from the tenants in `issuers`; fails with
    /// `DuplicateIssuer` when a name repeats.
    pub fn new(issuers: Vec<(String, T)>) -> (r: Result<Self, Error>)
        ensures
            r is Ok <==> crate::registry::unique_names(crate::registry::item_names(issuers@)),
            r matches Ok(s) ==> s.wf() && s.spec_issuers().names()
                == crate::registry::item_names(issuers@) && s.spec_issuers().records()
                == crate::registry::item_records(issuers@),
            r matches Err(e) ==> exists|i: int, j: int|
                0 <= i < j < issuers@.len() && issuers@[i].0@ == issuers@[j].0@
                    && e == Error::DuplicateIssuer(issuers@[j].0),
    {
        match Registry::from_records(issuers) {
            Ok(reg) => Ok(ServerState { issuers: reg }),
            Err(e) => Err(e),
        }
    }

    /// The tenant registered under `name`.
    pub fn issuer(&self, name: &str) -> (r: Option<&T>)
        requires
            self.wf(),
        ensures
            r is Some <==> self.spec_issuers().names().contains(name@),
            r matches Some(t) ==> self.spec_issuers().maps_to(name@, *t),
    {
        self.issuers.resolve(name)
    }

    /// The tenant registered under `name`, or `UnknownIssuer(name)`.
    pub fn lookup(&self, name: &str) -> (r: Result<&T, RequestError>)
        requires
            self.wf(),
        ensures
            r is Ok <==> self.spec_issuers().names().contains(name@),
            r matches Ok(t) ==> self.spec_issuers().maps_to(name@, *t),
            r matches Err(e) ==> e matches RequestError::UnknownIssuer(n) && n@ == name@,
    {
        match self.issuers.resolve(name) {
            Some(t) => Ok(t),
            None => Err(RequestError::UnknownIssuer(name.to_owned())),
        }
    }
}

} // verus!
