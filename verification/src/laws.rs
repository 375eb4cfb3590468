//! What holds of whole exchanges.
//!
//! Each theorem speaks of the executable functions themselves: `call_ensures(f, args, out)`
//! says that `f` may return `out` when called with `args`.
use crate::adapter::{resolve, Dispatch, OAuth2Client};
use oauth2::{HttpRequest, HttpResponse};
use vstd::prelude::*;

verus! {

/// Nothing is lost or altered on the way through the adapter.
///
/// The transport is handed the request that the engine built, and the engine is handed the
/// response that the transport built: the same method and URI, the same status, the same
/// headers in the same order, the same bytes in the body.
pub proof fn exchange_is_lossless<HI, E>(
    client: OAuth2Client<HI>,
    request: HttpRequest,
    dispatch: Dispatch<HI>,
    response: HttpResponse,
    result: Result<HttpResponse, E>,
) where HI: Clone + Send + Sync + 'static
    requires
        call_ensures(OAuth2Client::<HI>::dispatch, (&client, request), dispatch),
        call_ensures(resolve::<E>, (Ok(response),), result),
    ensures
        dispatch.request == request,
        result == Ok::<HttpResponse, E>(response),
{
}

/// A call whose transport failed resolves to that failure and never to a response.
pub proof fn failure_is_never_a_response<E>(error: E, result: Result<HttpResponse, E>)
    requires
        call_ensures(resolve::<E>, (Err(error),), result),
    ensures
        !(result is Ok),
        result == Err::<HttpResponse, E>(error),
{
}

/// Calls that share one adapter do not touch one another.
///
/// Each exchange carries its own request and a duplicate of the one handle that the adapter
/// holds, and each call resolves to what the transport answered to it, whichever of the two
/// was dispatched or answered first.
pub proof fn calls_are_independent<HI, E>(
    client: OAuth2Client<HI>,
    first: HttpRequest,
    second: HttpRequest,
    first_dispatch: Dispatch<HI>,
    second_dispatch: Dispatch<HI>,
    first_outcome: Result<HttpResponse, E>,
    second_outcome: Result<HttpResponse, E>,
    first_result: Result<HttpResponse, E>,
    second_result: Result<HttpResponse, E>,
) where HI: Clone + Send + Sync + 'static
    requires
        call_ensures(OAuth2Client::<HI>::dispatch, (&client, first), first_dispatch),
        call_ensures(OAuth2Client::<HI>::dispatch, (&client, second), second_dispatch),
        call_ensures(resolve::<E>, (first_outcome,), first_result),
        call_ensures(resolve::<E>, (second_outcome,), second_result),
    ensures
        first_dispatch.request == first,
        second_dispatch.request == second,
        cloned(client.handle(), first_dispatch.interface),
        cloned(client.handle(), second_dispatch.interface),
        first_result == first_outcome,
        second_result == second_outcome,
{
}

} // verus!
