use crate::esi::systems::{
    fetch_all_ids, fetch_system_info, ids_outcome, same_ids, same_system, system_outcome,
};
use crate::esi::{FetchError, Request, Response};
use crate::models::system::{System, SystemView};
use crate::models::universe::{Universe, UniverseView};
use vstd::prelude::*;

verus! {

/// The systems among `outcomes`, in their order.
pub open spec fn successes(outcomes: Seq<Result<SystemView, FetchError>>) -> Seq<SystemView>
    decreases outcomes.len(),
{
    if outcomes.len() == 0 {
        Seq::empty()
    } else {
        match outcomes.last() {
            Ok(system) => successes(outcomes.drop_last()).push(system),
            Err(_) => successes(outcomes.drop_last()),
        }
    }
}

/// A system that was asked for and not had.
#[derive(Debug, Clone, PartialEq, Eq)]
pub struct Failure {
    pub system_id: usize,
    pub error: FetchError,
}

/// The failures among `outcomes`, in their order, each with the id that was
/// asked for.
pub open spec fn failures(ids: Seq<usize>, outcomes: Seq<Result<SystemView, FetchError>>) -> Seq<
    Failure,
>
    recommends
        ids.len() == outcomes.len(),
    decreases outcomes.len(),
{
    if outcomes.len() == 0 {
        Seq::empty()
    } else {
        match outcomes.last() {
            Ok(_) => failures(ids.drop_last(), outcomes.drop_last()),
            Err(error) => failures(ids.drop_last(), outcomes.drop_last()).push(
                Failure { system_id: ids.last(), error },
            ),
        }
    }
}

/// What the replies to the requests for single systems come to, one by one.
pub open spec fn outcomes_of(replies: Seq<Result<Response, String>>) -> Seq<
    Result<SystemView, FetchError>,
> {
    replies.map_values(|reply: Result<Response, String>| system_outcome(reply))
}

/// The systems in `records`, each as its view.
pub open spec fn views_of(records: Seq<System>) -> Seq<SystemView> {
    records.map_values(|system: System| system@)
}

/// What fetching the whole universe brought: the index of the systems that
/// were had, and the systems that were not.
pub struct Fetched {
    pub universe: Universe,
    pub failures: Vec<Failure>,
}

/// Whether `result` is what `fetch_universe` owes when `ids_reply` is what
/// came back for the list of ids and `replies` is what came back for the
/// systems on it, one after the other.
pub open spec fn fetched_from<F: Fn(Request) -> Result<Response, String>>(
    client: F,
    ids_reply: Result<Response, String>,
    replies: Seq<Result<Response, String>>,
    result: Result<Fetched, FetchError>,
) -> bool {
    &&& client.ensures((Request::AllIds,), ids_reply)
    &&& match ids_outcome(ids_reply) {
        Err(error) => result == Err::<Fetched, FetchError>(error),
        Ok(ids) => {
            &&& replies.len() == ids.len()
            &&& forall|i: int|
                0 <= i < ids.len() ==> client.ensures(
                    (Request::SystemInfo(ids[i]),),
                    #[trigger] replies[i],
                )
            &&& result matches Ok(fetched)
            &&& fetched.universe@ == UniverseView::empty().insert_all(
                successes(outcomes_of(replies)),
            )
            &&& views_of(fetched.universe.records()) == successes(outcomes_of(replies))
            &&& fetched.failures@ == failures(ids, outcomes_of(replies))
        },
    }
}

impl Universe {
    /// Takes in what one fetch came to: a system is inserted, a failure is
    /// handed back and leaves the index as it was.
    pub fn record(&mut self, outcome: Result<System, FetchError>) -> (refused: Option<FetchError>)
        ensures
            match outcome {
                Ok(system) => {
                    &&& refused is None
                    &&& final(self)@ == old(self)@.insert(system@)
                    &&& final(self).records() == old(self).records().push(system)
                    &&& final(self).slot_of_id(system.system_id) == Some(
                        old(self).records().len() as int,
                    )
                    &&& final(self).slot_of_name(system.name@) == Some(
                        old(self).records().len() as int,
                    )
                },
                Err(error) => *final(self) == *old(self) && refused == Some(error),
            },
    {
        match outcome {
            Ok(system) => {
                self.fill_system_info(system);
                None
            },
            Err(error) => Some(error),
        }
    }

    /// Fetches the whole universe through `client`: first the list of ids,
    /// then each system on it, in the order of the list. Without the list
    /// there is no universe. A system that cannot be had is passed over and
    /// reported among the failures.
    pub fn fetch_universe<F>(client: F) -> (result: Result<Fetched, FetchError>) where
        F: Fn(Request) -> Result<Response, String>,

        requires
            forall|request: Request| client.requires((request,)),
        ensures
            exists|ids_reply: Result<Response, String>, replies: Seq<Result<Response, String>>|
                fetched_from(client, ids_reply, replies, result),
    {
        let mut universe = Universe::new();
        let ids = fetch_all_ids(&client);
        let ghost ids_reply = choose|reply: Result<Response, String>|
            client.ensures((Request::AllIds,), reply) && #[trigger] same_ids(ids, ids_outcome(reply));
        let system_ids = match ids {
            Ok(system_ids) => system_ids,
            Err(error) => {
                assert(fetched_from(client, ids_reply, Seq::empty(), Err::<Fetched, FetchError>(error)));
                return Err(error);
            },
        };
        let mut failed: Vec<Failure> = Vec::new();
        let ghost mut replies: Seq<Result<Response, String>> = Seq::empty();
        let mut i: usize = 0;
        while i < system_ids.len()
            invariant
                i <= system_ids.len(),
                forall|request: Request| client.requires((request,)),
                replies.len() == i,
                forall|j: int|
                    0 <= j < i ==> client.ensures(
                        (Request::SystemInfo(system_ids[j]),),
                        #[trigger] replies[j],
                    ),
                universe@ == UniverseView::empty().insert_all(successes(outcomes_of(replies))),
                views_of(universe.records()) == successes(outcomes_of(replies)),
                failed@ == failures(system_ids@.take(i as int), outcomes_of(replies)),
            decreases system_ids.len() - i,
        {
            let system_id = system_ids[i];
            let outcome = fetch_system_info(&client, system_id);
            proof {
                let reply = choose|reply: Result<Response, String>|
                    client.ensures((Request::SystemInfo(system_id),), reply) && #[trigger] same_system(
                        outcome,
                        system_outcome(reply),
                    );
                let earlier = replies;
                replies = replies.push(reply);
                assert(outcomes_of(replies).drop_last() == outcomes_of(earlier));
                assert(outcomes_of(replies).last() == system_outcome(reply));
                assert(system_ids@.take(i + 1).drop_last() == system_ids@.take(i as int));
                if outcome is Ok {
                    let had = successes(outcomes_of(earlier));
                    assert(had.push(outcome->Ok_0@).drop_last() == had);
                }
            }
            let ghost stored = universe.records();
            let refused = universe.record(outcome);
            proof {
                if outcome is Ok {
                    assert(views_of(stored.push(outcome->Ok_0)) == views_of(stored).push(
                        outcome->Ok_0@,
                    ));
                }
            }
            match refused {
                None => {},
                Some(error) => {
                    failed.push(Failure { system_id, error });
                },
            }
            i += 1;
        }
        assert(system_ids@.take(i as int) == system_ids@);
        let fetched = Fetched { universe, failures: failed };
        assert(fetched_from(client, ids_reply, replies, Ok::<Fetched, FetchError>(fetched)));
        Ok(fetched)
    }
}

} // verus!
