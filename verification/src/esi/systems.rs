use crate::esi::{FetchError, Request, Response, TransportError};
use crate::models::system::{parsed_ids, parsed_system, System, SystemView};
use vstd::prelude::*;

verus! {

/// Whether a status code stands for success.
pub open spec fn is_success(status: u16) -> bool {
    200 <= status <= 299
}

/// What a reply to `Request::AllIds` comes to. The list is decoded from the
/// body where the status stands for success.
pub open spec fn ids_outcome(reply: Result<Response, String>) -> Result<Seq<usize>, FetchError> {
    match reply {
        Err(account) => Err(FetchError::Transport(TransportError::Io(account))),
        Ok(response) => if is_success(response.status) {
            match parsed_ids(response.body@) {
                Ok(ids) => Ok(ids),
                Err(error) => Err(FetchError::Decode(error)),
            }
        } else {
            Err(FetchError::Transport(TransportError::BadStatusCode(response.status, response.body)))
        },
    }
}

/// What a reply to `Request::SystemInfo` comes to. The system is decoded
/// from the body where the status stands for success.
pub open spec fn system_outcome(reply: Result<Response, String>) -> Result<SystemView, FetchError> {
    match reply {
        Err(account) => Err(FetchError::Transport(TransportError::Io(account))),
        Ok(response) => if is_success(response.status) {
            match parsed_system(response.body@) {
                Ok(system) => Ok(system),
                Err(error) => Err(FetchError::Decode(error)),
            }
        } else {
            Err(FetchError::Transport(TransportError::BadStatusCode(response.status, response.body)))
        },
    }
}

/// Whether `fetched` is `outcome`, the ids taken as a sequence.
pub open spec fn same_ids(
    fetched: Result<Vec<usize>, FetchError>,
    outcome: Result<Seq<usize>, FetchError>,
) -> bool {
    match (fetched, outcome) {
        (Ok(ids), Ok(expected)) => ids@ == expected,
        (Err(error), Err(expected)) => error == expected,
        _ => false,
    }
}

/// Whether `fetched` is `outcome`, the system taken by its view.
pub open spec fn same_system(
    fetched: Result<System, FetchError>,
    outcome: Result<SystemView, FetchError>,
) -> bool {
    match (fetched, outcome) {
        (Ok(system), Ok(expected)) => system@ == expected,
        (Err(error), Err(expected)) => error == expected,
        _ => false,
    }
}

/// Reads the list of ids out of the reply to `Request::AllIds`.
pub fn ids_from_reply(reply: Result<Response, String>) -> (fetched: Result<Vec<usize>, FetchError>)
    ensures
        same_ids(fetched, ids_outcome(reply)),
{
    match reply {
        Err(account) => Err(FetchError::Transport(TransportError::Io(account))),
        Ok(response) => {
            if 200 <= response.status && response.status <= 299 {
                match System::parse_ids(response.body.as_slice()) {
                    Ok(ids) => Ok(ids),
                    Err(error) => Err(FetchError::Decode(error)),
                }
            } else {
                Err(FetchError::Transport(TransportError::BadStatusCode(response.status, response.body)))
            }
        },
    }
}

/// Reads the system out of the reply to `Request::SystemInfo`.
pub fn system_from_reply(reply: Result<Response, String>) -> (fetched: Result<System, FetchError>)
    ensures
        same_system(fetched, system_outcome(reply)),
{
    match reply {
        Err(account) => Err(FetchError::Transport(TransportError::Io(account))),
        Ok(response) => {
            if 200 <= response.status && response.status <= 299 {
                match System::parse(response.body.as_slice()) {
                    Ok(system) => Ok(system),
                    Err(error) => Err(FetchError::Decode(error)),
                }
            } else {
                Err(FetchError::Transport(TransportError::BadStatusCode(response.status, response.body)))
            }
        },
    }
}

/// Fetches the ids of all systems: sends `Request::AllIds` through `client`
/// once and reads the reply.
pub fn fetch_all_ids<F>(client: &F) -> (fetched: Result<Vec<usize>, FetchError>) where
    F: Fn(Request) -> Result<Response, String>,

    requires
        client.requires((Request::AllIds,)),
    ensures
        exists|reply: Result<Response, String>|
            client.ensures((Request::AllIds,), reply) && #[trigger] same_ids(
                fetched,
                ids_outcome(reply),
            ),
{
    let reply = client(Request::AllIds);
    ids_from_reply(reply)
}

/// Fetches the system with the given id: sends `Request::SystemInfo(id)`
/// through `client` once and reads the reply.
pub fn fetch_system_info<F>(client: &F, id: usize) -> (fetched: Result<System, FetchError>) where
    F: Fn(Request) -> Result<Response, String>,

    requires
        client.requires((Request::SystemInfo(id),)),
    ensures
        exists|reply: Result<Response, String>|
            client.ensures((Request::SystemInfo(id),), reply) && #[trigger] same_system(
                fetched,
                system_outcome(reply),
            ),
{
    let reply = client(Request::SystemInfo(id));
    system_from_reply(reply)
}

} // verus!
