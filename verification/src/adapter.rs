//! The adapter between the protocol engine and a caller-supplied transport.
use oauth2::{HttpRequest, HttpResponse};
use vstd::prelude::*;

verus! {

/// Wraps a transport handle so that the protocol engine can reach the network through it.
///
/// `HI` is the handle: a lightweight, shareable object such as a pooled HTTP client. The
/// adapter owns one and never changes it. Every call works on a duplicate, which is why the
/// handle must be `Clone`, and calls may be under way on several threads at once, which is why
/// it must be `Send + Sync`. The adapter itself has no other state: no lock, no counter, no
/// cache.
pub struct OAuth2Client<HI> where HI: Clone + Send + Sync + 'static {
    interface: HI,
}

/// One exchange, set up and ready to be performed.
///
/// The one who holds a `Dispatch` asks `interface` to perform `request`, hands what comes back
/// to [`resolve`], and is done. Both fields are owned, so the exchange borrows nothing from the
/// adapter that set it up.
pub struct Dispatch<HI> {
    /// The handle to perform the exchange on: a duplicate of the one that the adapter holds.
    pub interface: HI,
    /// The request to perform, as the engine built it.
    pub request: HttpRequest,
}

impl<HI> OAuth2Client<HI> where HI: Clone + Send + Sync + 'static {
    /// The transport handle that the adapter holds.
    pub closed spec fn handle(&self) -> HI {
        self.interface
    }

    /// Wraps `interface`. From here on the adapter is the way to it.
    pub fn new(interface: HI) -> (client: Self)
        ensures
            client.handle() == interface,
    {
        Self { interface }
    }

    /// Sets up the exchange for one call.
    ///
    /// The handle of the exchange is a duplicate of the adapter's own, made by `HI::clone`, and
    /// the request is the one given: nothing is added to it, taken from it or rewritten. The
    /// adapter is left as it was, so any number of calls can be dispatched from it, in any
    /// order.
    pub fn dispatch(&self, request: HttpRequest) -> (dispatch: Dispatch<HI>)
        ensures
            cloned(self.handle(), dispatch.interface),
            dispatch.request == request,
    {
        let interface = self.interface.clone();
        Dispatch { interface, request }
    }
}

/// Turns what the transport answered into what the call yields.
///
/// A response is forwarded as the transport built it, whatever its status: a `500` is a
/// response, not a failure. A failure is forwarded as the transport reported it, and is never
/// turned into a response. There is no third outcome.
pub fn resolve<E>(outcome: Result<HttpResponse, E>) -> (result: Result<HttpResponse, E>)
    ensures
        result == outcome,
{
    let response = outcome?;
    Ok(response)
}

} // verus!
