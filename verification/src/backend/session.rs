//! Taking a lock from a service on the session bus.
//!
//! The GNOME, KDE and ScreenSaver backends go through the same steps: connect,
//! make sure that somebody owns the service's name, build a proxy, call the
//! inhibit method and decode the cookie that comes back. Each step is a type of
//! its own that only the step before it can make, so the inhibit method cannot
//! be called on a service that nobody owns, and no step can be left out.

use crate::error::{ErrorView, OxiwakeError, Result};
use crate::model::WakeGuard;
use vstd::prelude::*;
use vstd::string::*;

verus! {

/// A service on the session bus that hands out inhibition cookies.
#[derive(Debug, Clone, Copy)]
pub struct Service {
    /// The name of the backend that uses the service.
    pub name: &'static str,
    /// The well-known bus name.
    pub dest: &'static str,
    /// The object path.
    pub path: &'static str,
    /// The interface.
    pub iface: &'static str,
    /// The method that takes the lock.
    pub inhibit: &'static str,
    /// The method that gives a cookie back, if there is one. Where there is
    /// none, disconnecting releases the lock.
    pub release: Option<&'static str>,
}

/// What asking the bus for the owner of a name came to.
#[derive(Debug)]
pub enum OwnerReply {
    /// The bus itself could not be addressed.
    NoProxy(String),
    /// The question failed.
    CallFailed(String),
    /// The answer was not a boolean.
    BadReply(String),
    /// Whether the name has an owner.
    Owner(bool),
}

/// Whether a name is known to have an owner.
pub open spec fn known_owner(reply: OwnerReply) -> bool {
    reply == OwnerReply::Owner(true)
}

/// Whether a name has an owner. Any failure counts as "no", so that callers
/// degrade gracefully.
pub fn name_has_owner(reply: &OwnerReply) -> (r: bool)
    ensures
        r == known_owner(*reply),
{
    match reply {
        OwnerReply::Owner(b) => *b,
        _ => false,
    }
}

/// What calling the inhibit method came to.
#[derive(Debug)]
pub enum CookieReply {
    /// The call failed.
    CallFailed(String),
    /// The reply was not a cookie.
    BadReply(String),
    /// The cookie.
    Cookie(u32),
}

/// The start of an acquisition: nothing has been done yet.
#[derive(Debug)]
pub struct Acquire<C> {
    service: Service,
    call: C,
}

/// The session bus is open.
#[derive(Debug)]
pub struct Connected<C> {
    service: Service,
    call: C,
}

/// The service's name has an owner.
#[derive(Debug)]
pub struct Owned<C> {
    service: Service,
    call: C,
}

/// The proxy is built; the inhibit method may be called.
#[derive(Debug)]
pub struct Ready<C> {
    service: Service,
    call: C,
}

impl<C> Acquire<C> {
    /// The service that the lock is taken from.
    pub closed spec fn target(&self) -> Service {
        self.service
    }

    /// The arguments of the inhibit method.
    pub closed spec fn arguments(&self) -> C {
        self.call
    }

    /// Start an acquisition.
    pub fn new(service: Service, call: C) -> (r: Acquire<C>)
        ensures
            r.target() == service,
            r.arguments() == call,
    {
        Acquire { service, call }
    }

    /// Go on once connecting to the session bus has succeeded or failed.
    pub fn connected(self, outcome: core::result::Result<(), String>) -> (r: Result<Connected<C>>)
        ensures
            match outcome {
                Ok(_) => r is Ok && r->Ok_0.target() == self.target() && r->Ok_0.arguments()
                    == self.arguments(),
                Err(e) => r is Err && r->Err_0@ == (ErrorView::BackendUnavailable {
                    backend: self.target().name@,
                    reason: "no session D-Bus: "@ + e@,
                }),
            },
    {
        match outcome {
            Ok(_) => Ok(Connected { service: self.service, call: self.call }),
            Err(e) => Err(
                OxiwakeError::BackendUnavailable {
                    backend: self.service.name,
                    reason: "no session D-Bus: ".to_string().concat(e.as_str()),
                },
            ),
        }
    }
}

impl<C> Connected<C> {
    /// The service that the lock is taken from.
    pub closed spec fn target(&self) -> Service {
        self.service
    }

    /// The arguments of the inhibit method.
    pub closed spec fn arguments(&self) -> C {
        self.call
    }

    /// The bus name whose owner is to be asked for.
    pub fn dest(&self) -> (r: &'static str)
        ensures
            r == self.target().dest,
    {
        self.service.dest
    }

    /// Go on once the bus has been asked for the owner of the service's name.
    pub fn owner(self, reply: OwnerReply) -> (r: Result<Owned<C>>)
        ensures
            if known_owner(reply) {
                r is Ok && r->Ok_0.target() == self.target() && r->Ok_0.arguments()
                    == self.arguments()
            } else {
                r is Err && r->Err_0@ == (ErrorView::BackendUnavailable {
                    backend: self.target().name@,
                    reason: self.target().dest@ + " not owned on the session bus"@,
                })
            },
    {
        if name_has_owner(&reply) {
            Ok(Owned { service: self.service, call: self.call })
        } else {
            Err(
                OxiwakeError::BackendUnavailable {
                    backend: self.service.name,
                    reason: self.service.dest.to_string().concat(" not owned on the session bus"),
                },
            )
        }
    }
}

impl<C> Owned<C> {
    /// The service that the lock is taken from.
    pub closed spec fn target(&self) -> Service {
        self.service
    }

    /// The arguments of the inhibit method.
    pub closed spec fn arguments(&self) -> C {
        self.call
    }

    /// The service to build a proxy for.
    pub fn service(&self) -> (r: Service)
        ensures
            r == self.target(),
    {
        self.service
    }

    /// Go on once the proxy has been built or has failed to build.
    pub fn proxy(self, outcome: core::result::Result<(), String>) -> (r: Result<Ready<C>>)
        ensures
            match outcome {
                Ok(_) => r is Ok && r->Ok_0.target() == self.target() && r->Ok_0.arguments()
                    == self.arguments(),
                Err(e) => r is Err && r->Err_0@ == ErrorView::Dbus(e@),
            },
    {
        match outcome {
            Ok(_) => Ok(Ready { service: self.service, call: self.call }),
            Err(e) => Err(OxiwakeError::Dbus(e)),
        }
    }
}

impl<C> Ready<C> {
    /// The service that the lock is taken from.
    pub closed spec fn target(&self) -> Service {
        self.service
    }

    /// The arguments of the inhibit method.
    pub closed spec fn arguments(&self) -> C {
        self.call
    }

    /// The arguments to call the inhibit method with.
    pub fn call(&self) -> (r: &C)
        ensures
            *r == self.arguments(),
    {
        &self.call
    }

    /// Finish with what the call came to. A cookie is the lock.
    pub fn called(self, reply: CookieReply) -> (r: Result<CookieGuard>)
        ensures
            match reply {
                CookieReply::CallFailed(e) => r is Err && r->Err_0@ == (ErrorView::AcquireFailed {
                    backend: self.target().name@,
                    reason: self.target().inhibit@ + " failed: "@ + e@,
                }),
                CookieReply::BadReply(e) => r is Err && r->Err_0@ == ErrorView::DbusDecode(
                    "cookie u32: "@ + e@,
                ),
                CookieReply::Cookie(c) => r is Ok && r->Ok_0.service == self.target()
                    && r->Ok_0.cookie == c,
            },
    {
        match reply {
            CookieReply::CallFailed(e) => Err(
                OxiwakeError::AcquireFailed {
                    backend: self.service.name,
                    reason: self.service.inhibit.to_string().concat(" failed: ").concat(e.as_str()),
                },
            ),
            CookieReply::BadReply(e) => Err(
                OxiwakeError::DbusDecode("cookie u32: ".to_string().concat(e.as_str())),
            ),
            CookieReply::Cookie(c) => Ok(CookieGuard { service: self.service, cookie: c }),
        }
    }
}

/// A lock held through a cookie. The program keeps the bus connection open for
/// as long as it keeps the guard.
#[derive(Debug)]
pub struct CookieGuard {
    /// The service that granted the lock.
    pub service: Service,
    /// The cookie that stands for it.
    pub cookie: u32,
}

impl WakeGuard for CookieGuard {
    open spec fn backend_text(&self) -> Seq<char> {
        self.service.name@
    }

    fn backend(&self) -> (r: &'static str) {
        self.service.name
    }
}

impl CookieGuard {
    /// The call that gives the lock back: the service's release method with
    /// the cookie that was granted. `None` where disconnecting is all it takes.
    pub fn release(self) -> (r: Option<(&'static str, u32)>)
        ensures
            match self.service.release {
                Some(method) => r == Some((method, self.cookie)),
                None => r is None,
            },
    {
        match self.service.release {
            Some(method) => Some((method, self.cookie)),
            None => None,
        }
    }
}

} // verus!
