use crate::esi::FetchError;
use crate::models::fetch::{failures, successes};
use crate::models::system::SystemView;
use crate::models::universe::UniverseView;
use vstd::prelude::*;

verus! {

/// Whether no two of `systems` share an id or a name.
pub open spec fn no_collisions(systems: Seq<SystemView>) -> bool {
    forall|i: int, j: int|
        0 <= i < j < systems.len() ==> (#[trigger] systems[i]).system_id != (
        #[trigger] systems[j]).system_id && systems[i].name != systems[j].name
}

/// A system is what its id and its name resolve to once it was inserted,
/// whatever they resolved to before, and it counts as one more. Every other
/// key resolves as before.
pub proof fn lemma_inserted_is_found(before: UniverseView, system: SystemView)
    ensures
        before.insert(system).system_count == before.system_count + 1,
        before.insert(system).systems_by_id.contains_key(system.system_id),
        before.insert(system).systems_by_id[system.system_id] == system,
        before.insert(system).systems_by_name.contains_key(system.name),
        before.insert(system).systems_by_name[system.name] == system,
        forall|id: usize|
            id != system.system_id ==> (before.insert(system).systems_by_id.contains_key(id)
                <==> before.systems_by_id.contains_key(id)) && before.insert(
                system,
            ).systems_by_id[id] == before.systems_by_id[id],
        forall|name: Seq<char>|
            name != system.name ==> (before.insert(system).systems_by_name.contains_key(name)
                <==> before.systems_by_name.contains_key(name)) && before.insert(
                system,
            ).systems_by_name[name] == before.systems_by_name[name],
{
}

/// The count grows by one with each system that is inserted, whether or not
/// it takes the place of another.
pub proof fn lemma_count_is_number_of_insertions(before: UniverseView, systems: Seq<SystemView>)
    ensures
        before.insert_all(systems).system_count == before.system_count + systems.len(),
    decreases systems.len(),
{
    if systems.len() > 0 {
        lemma_count_is_number_of_insertions(before, systems.drop_last());
    }
}

/// Whether one of `systems` has the id `id`.
pub open spec fn has_id(systems: Seq<SystemView>, id: usize) -> bool {
    exists|i: int| 0 <= i < systems.len() && (#[trigger] systems[i]).system_id == id
}

/// Whether one of `systems` has the name `name`.
pub open spec fn has_name(systems: Seq<SystemView>, name: Seq<char>) -> bool {
    exists|i: int| 0 <= i < systems.len() && (#[trigger] systems[i]).name == name
}

/// The keys of the index are those it had and those of the systems that
/// were inserted, and no others.
pub proof fn lemma_keys_after_insertions(
    before: UniverseView,
    systems: Seq<SystemView>,
    id: usize,
    name: Seq<char>,
)
    ensures
        before.insert_all(systems).systems_by_id.contains_key(id) <==> (
        before.systems_by_id.contains_key(id) || has_id(systems, id)),
        before.insert_all(systems).systems_by_name.contains_key(name) <==> (
        before.systems_by_name.contains_key(name) || has_name(systems, name)),
    decreases systems.len(),
{
    if systems.len() > 0 {
        let earlier = systems.drop_last();
        let last = systems.len() - 1;
        lemma_keys_after_insertions(before, earlier, id, name);
        if has_id(earlier, id) {
            let i = choose|i: int| 0 <= i < earlier.len() && (#[trigger] earlier[i]).system_id == id;
            assert(systems[i].system_id == id);
        }
        if systems[last].system_id == id {
            assert(has_id(systems, id));
        }
        if has_id(systems, id) {
            let i = choose|i: int| 0 <= i < systems.len() && (#[trigger] systems[i]).system_id == id;
            if i < last {
                assert(earlier[i].system_id == id);
            }
        }
        if has_name(earlier, name) {
            let i = choose|i: int| 0 <= i < earlier.len() && (#[trigger] earlier[i]).name == name;
            assert(systems[i].name == name);
        }
        if systems[last].name == name {
            assert(has_name(systems, name));
        }
        if has_name(systems, name) {
            let i = choose|i: int| 0 <= i < systems.len() && (#[trigger] systems[i]).name == name;
            if i < last {
                assert(earlier[i].name == name);
            }
        }
    }
}

/// Insertion keeps an index consistent: each key still resolves to a system
/// that carries it, and the count is still no less than the size of either
/// map.
pub proof fn lemma_insertions_keep_consistent(before: UniverseView, systems: Seq<SystemView>)
    requires
        before.consistent(),
    ensures
        before.insert_all(systems).consistent(),
    decreases systems.len(),
{
    if systems.len() > 0 {
        lemma_insertions_keep_consistent(before, systems.drop_last());
    }
}

/// Where no two of the systems that were inserted into an empty index share
/// an id or a name, the count is their number, the keys are theirs, and each
/// of them is what its id and its name resolve to.
pub proof fn lemma_all_found_without_collisions(systems: Seq<SystemView>)
    requires
        no_collisions(systems),
    ensures
        UniverseView::empty().insert_all(systems).system_count == systems.len(),
        forall|i: int|
            0 <= i < systems.len() ==> {
                let universe = UniverseView::empty().insert_all(systems);
                &&& universe.systems_by_id.contains_key((#[trigger] systems[i]).system_id)
                &&& universe.systems_by_id[systems[i].system_id] == systems[i]
                &&& universe.systems_by_name.contains_key(systems[i].name)
                &&& universe.systems_by_name[systems[i].name] == systems[i]
            },
        forall|id: usize|
            UniverseView::empty().insert_all(systems).systems_by_id.contains_key(id) <==> has_id(
                systems,
                id,
            ),
        forall|name: Seq<char>|
            UniverseView::empty().insert_all(systems).systems_by_name.contains_key(name)
                <==> has_name(systems, name),
    decreases systems.len(),
{
    lemma_count_is_number_of_insertions(UniverseView::empty(), systems);
    assert forall|id: usize|
        UniverseView::empty().insert_all(systems).systems_by_id.contains_key(id) <==> has_id(
            systems,
            id,
        ) by {
        lemma_keys_after_insertions(UniverseView::empty(), systems, id, Seq::empty());
    }
    assert forall|name: Seq<char>|
        UniverseView::empty().insert_all(systems).systems_by_name.contains_key(name) <==> has_name(
            systems,
            name,
        ) by {
        lemma_keys_after_insertions(UniverseView::empty(), systems, 0, name);
    }
    if systems.len() > 0 {
        let earlier = systems.drop_last();
        assert(no_collisions(earlier)) by {
            assert forall|i: int, j: int| 0 <= i < j < earlier.len() implies (
            #[trigger] earlier[i]).system_id != (#[trigger] earlier[j]).system_id && earlier[i].name
                != earlier[j].name by {
                assert(earlier[i] == systems[i] && earlier[j] == systems[j]);
            }
        }
        lemma_all_found_without_collisions(earlier);
        assert forall|i: int| 0 <= i < systems.len() implies {
            let universe = UniverseView::empty().insert_all(systems);
            &&& universe.systems_by_id.contains_key((#[trigger] systems[i]).system_id)
            &&& universe.systems_by_id[systems[i].system_id] == systems[i]
            &&& universe.systems_by_name.contains_key(systems[i].name)
            &&& universe.systems_by_name[systems[i].name] == systems[i]
        } by {
            if i < earlier.len() {
                assert(earlier[i] == systems[i]);
                assert(systems[i].system_id != systems[systems.len() - 1].system_id);
                assert(systems[i].name != systems[systems.len() - 1].name);
            }
        }
    }
}

/// Every outcome is either a system that was inserted or a failure that was
/// reported, and a fetch in which nothing failed reports no failure.
pub proof fn lemma_each_outcome_accounted_for(
    ids: Seq<usize>,
    outcomes: Seq<Result<SystemView, FetchError>>,
)
    requires
        ids.len() == outcomes.len(),
    ensures
        successes(outcomes).len() + failures(ids, outcomes).len() == outcomes.len(),
        (forall|i: int| 0 <= i < outcomes.len() ==> (#[trigger] outcomes[i]) is Ok) ==> failures(
            ids,
            outcomes,
        ).len() == 0,
        UniverseView::empty().insert_all(successes(outcomes)).system_count == successes(
            outcomes,
        ).len(),
    decreases outcomes.len(),
{
    lemma_count_is_number_of_insertions(UniverseView::empty(), successes(outcomes));
    if outcomes.len() > 0 {
        lemma_each_outcome_accounted_for(ids.drop_last(), outcomes.drop_last());
        if forall|i: int| 0 <= i < outcomes.len() ==> (#[trigger] outcomes[i]) is Ok {
            assert(outcomes[outcomes.len() - 1] is Ok);
            assert forall|i: int| 0 <= i < outcomes.drop_last().len() implies (
            #[trigger] outcomes.drop_last()[i]) is Ok by {
                assert(outcomes[i] is Ok);
            }
        }
    }
}

/// Where nothing failed, the systems that were had are the outcomes
/// themselves.
pub proof fn lemma_successes_where_nothing_failed(outcomes: Seq<Result<SystemView, FetchError>>)
    requires
        forall|i: int| 0 <= i < outcomes.len() ==> (#[trigger] outcomes[i]) is Ok,
    ensures
        successes(outcomes).len() == outcomes.len(),
        forall|i: int|
            0 <= i < outcomes.len() ==> (#[trigger] outcomes[i]) == Ok::<SystemView, FetchError>(
                successes(outcomes)[i],
            ),
    decreases outcomes.len(),
{
    if outcomes.len() > 0 {
        let earlier = outcomes.drop_last();
        assert(outcomes[outcomes.len() - 1] is Ok);
        assert forall|i: int| 0 <= i < earlier.len() implies (#[trigger] earlier[i]) is Ok by {
            assert(outcomes[i] is Ok);
        }
        lemma_successes_where_nothing_failed(earlier);
        assert forall|i: int| 0 <= i < outcomes.len() implies (#[trigger] outcomes[i]) == Ok::<
            SystemView,
            FetchError,
        >(successes(outcomes)[i]) by {
            if i < earlier.len() {
                assert(earlier[i] == outcomes[i]);
            }
        }
    }
}

/// A fetch in which every system was had, and no two of them share an id or
/// a name, reports no failure and brings an index that counts as many
/// systems as were asked for, has their keys and no others, and resolves
/// each key to the system that carries it.
pub proof fn lemma_fetch_of_successes(
    ids: Seq<usize>,
    outcomes: Seq<Result<SystemView, FetchError>>,
)
    requires
        ids.len() == outcomes.len(),
        forall|i: int| 0 <= i < outcomes.len() ==> (#[trigger] outcomes[i]) is Ok,
        no_collisions(successes(outcomes)),
    ensures
        failures(ids, outcomes).len() == 0,
        successes(outcomes).len() == outcomes.len(),
        UniverseView::empty().insert_all(successes(outcomes)).system_count == outcomes.len(),
        forall|i: int|
            0 <= i < outcomes.len() ==> {
                let universe = UniverseView::empty().insert_all(successes(outcomes));
                let system = (#[trigger] successes(outcomes)[i]);
                &&& universe.systems_by_id.contains_key(system.system_id)
                &&& universe.systems_by_id[system.system_id] == system
                &&& universe.systems_by_name.contains_key(system.name)
                &&& universe.systems_by_name[system.name] == system
            },
        forall|id: usize|
            UniverseView::empty().insert_all(successes(outcomes)).systems_by_id.contains_key(id)
                <==> has_id(successes(outcomes), id),
        forall|name: Seq<char>|
            UniverseView::empty().insert_all(successes(outcomes)).systems_by_name.contains_key(
                name,
            ) <==> has_name(successes(outcomes), name),
{
    lemma_each_outcome_accounted_for(ids, outcomes);
    lemma_all_found_without_collisions(successes(outcomes));
}

} // verus!
