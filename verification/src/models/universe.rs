use crate::models::system::{System, SystemView};
use crate::text::{decimal, to_decimal};
use std::collections::HashMap;
use vstd::hash_map::StringHashMap;
use vstd::prelude::*;
use vstd::string::StringExecFns;

verus! {

/// Why a lookup in the index found nothing.
#[derive(Debug, Clone, PartialEq, Eq)]
pub enum UniverseError {
    /// No system is registered under this name.
    SystemNameNotFound(String),
    /// No system is registered under this id.
    SystemIdNotFound(usize),
}

impl UniverseError {
    /// The failure in one line.
    pub open spec fn text(self) -> Seq<char> {
        match self {
            UniverseError::SystemNameNotFound(name) => "System with name \""@ + name@
                + "\" could not be found"@,
            UniverseError::SystemIdNotFound(id) => "System with id \""@ + decimal(id as nat)
                + "\" could not be found"@,
        }
    }

    /// The failure in one line.
    pub fn message(&self) -> (text: String)
        ensures
            text@ == self.text(),
    {
        match self {
            UniverseError::SystemNameNotFound(name) => {
                let mut text = "System with name \"".to_owned();
                text.append(name.as_str());
                text.append("\" could not be found");
                text
            },
            UniverseError::SystemIdNotFound(id) => {
                let mut text = "System with id \"".to_owned();
                let digits = to_decimal(*id);
                text.append(digits.as_str());
                text.append("\" could not be found");
                text
            },
        }
    }

    /// What kind of failure this is.
    pub fn description(&self) -> (text: &'static str)
        ensures
            text@ == (match self {
                UniverseError::SystemNameNotFound(_) =>
                    "System with the given name wasn't found in the universe object"@,
                UniverseError::SystemIdNotFound(_) =>
                    "System with the given id wasn't found in the universe object"@,
            }),
    {
        match self {
            UniverseError::SystemNameNotFound(_) =>
                "System with the given name wasn't found in the universe object",
            UniverseError::SystemIdNotFound(_) =>
                "System with the given id wasn't found in the universe object",
        }
    }
}

/// The index as mathematical values: how many systems were inserted, and
/// which system each id and each name resolves to.
pub struct UniverseView {
    pub system_count: nat,
    pub systems_by_id: Map<usize, SystemView>,
    pub systems_by_name: Map<Seq<char>, SystemView>,
}

impl UniverseView {
    /// The index that holds nothing.
    pub open spec fn empty() -> UniverseView {
        UniverseView { system_count: 0, systems_by_id: Map::empty(), systems_by_name: Map::empty() }
    }

    /// The index after `system` was inserted: it takes the place of whatever
    /// its id and its name resolved to before, and counts as one more.
    pub open spec fn insert(self, system: SystemView) -> UniverseView {
        UniverseView {
            system_count: self.system_count + 1,
            systems_by_id: self.systems_by_id.insert(system.system_id, system),
            systems_by_name: self.systems_by_name.insert(system.name, system),
        }
    }

    /// The index after each of `systems` was inserted, the first one first.
    pub open spec fn insert_all(self, systems: Seq<SystemView>) -> UniverseView
        decreases systems.len(),
    {
        if systems.len() == 0 {
            self
        } else {
            self.insert_all(systems.drop_last()).insert(systems.last())
        }
    }

    /// Whether every key resolves to a system that carries it, and no map
    /// holds more systems than were inserted.
    pub open spec fn consistent(self) -> bool {
        &&& forall|id: usize| #[trigger]
            self.systems_by_id.contains_key(id) ==> self.systems_by_id[id].system_id == id
        &&& forall|name: Seq<char>| #[trigger]
            self.systems_by_name.contains_key(name) ==> self.systems_by_name[name].name == name
        &&& self.systems_by_id.dom().finite()
        &&& self.systems_by_name.dom().finite()
        &&& self.systems_by_id.dom().len() <= self.system_count
        &&& self.systems_by_name.dom().len() <= self.system_count
    }
}

/// All systems that were inserted, each reachable by its id and by its name
/// unless a later one with the same key took its place. A system is stored
/// once; its id and its name lead to the one record.
pub struct Universe {
    system_count: usize,
    systems: Vec<System>,
    systems_by_id: HashMap<usize, usize>,
    systems_by_name: StringHashMap<usize>,
}

impl View for Universe {
    type V = UniverseView;

    closed spec fn view(&self) -> UniverseView {
        UniverseView {
            system_count: self.system_count as nat,
            systems_by_id: Map::new(
                |id: usize| self.systems_by_id@.contains_key(id),
                |id: usize| self.systems@[self.systems_by_id@[id] as int]@,
            ),
            systems_by_name: Map::new(
                |name: Seq<char>| self.systems_by_name@.contains_key(name),
                |name: Seq<char>| self.systems@[self.systems_by_name@[name] as int]@,
            ),
        }
    }
}

impl Universe {
    #[verifier::type_invariant]
    spec fn well_formed(&self) -> bool {
        &&& self.system_count == self.systems@.len()
        &&& forall|id: usize| #[trigger]
            self.systems_by_id@.contains_key(id) ==> {
                &&& self.systems_by_id@[id] < self.systems@.len()
                &&& self.systems@[self.systems_by_id@[id] as int].system_id == id
            }
        &&& forall|name: Seq<char>| #[trigger]
            self.systems_by_name@.contains_key(name) ==> {
                &&& self.systems_by_name@[name] < self.systems@.len()
                &&& self.systems@[self.systems_by_name@[name] as int].name@ == name
            }
    }

    /// The systems that are stored, each in its slot: the first that was
    /// inserted in slot 0, and every later one in the next slot. A system
    /// stays in its slot for good.
    pub closed spec fn records(&self) -> Seq<System> {
        self.systems@
    }

    /// The slot that `id` resolves to, if it resolves.
    pub closed spec fn slot_of_id(&self, id: usize) -> Option<int> {
        if self.systems_by_id@.contains_key(id) {
            Some(self.systems_by_id@[id] as int)
        } else {
            None
        }
    }

    /// The slot that `name` resolves to, if it resolves.
    pub closed spec fn slot_of_name(&self, name: Seq<char>) -> Option<int> {
        if self.systems_by_name@.contains_key(name) {
            Some(self.systems_by_name@[name] as int)
        } else {
            None
        }
    }

    /// The two maps of the view are read through the slots: a key is in its
    /// map where it resolves to a slot, and what the map holds for it is the
    /// record in that slot.
    pub proof fn lemma_view_reads_slots(self)
        ensures
            forall|id: usize| #[trigger]
                self@.systems_by_id.contains_key(id) <==> self.slot_of_id(id) is Some,
            forall|id: usize|
                self.slot_of_id(id) is Some ==> #[trigger] self@.systems_by_id[id]
                    == self.records()[self.slot_of_id(id).unwrap()]@,
            forall|name: Seq<char>| #[trigger]
                self@.systems_by_name.contains_key(name) <==> self.slot_of_name(name) is Some,
            forall|name: Seq<char>|
                self.slot_of_name(name) is Some ==> #[trigger] self@.systems_by_name[name]
                    == self.records()[self.slot_of_name(name).unwrap()]@,
    {
    }

    /// An index that holds nothing.
    pub fn new() -> (universe: Universe)
        ensures
            universe@ == UniverseView::empty(),
            universe.records() == Seq::<System>::empty(),
            forall|id: usize| universe.slot_of_id(id) is None,
            forall|name: Seq<char>| universe.slot_of_name(name) is None,
    {
        let universe = Universe {
            system_count: 0,
            systems: Vec::new(),
            systems_by_id: HashMap::new(),
            systems_by_name: StringHashMap::new(),
        };
        assert(universe@.systems_by_id =~= Map::empty());
        assert(universe@.systems_by_name =~= Map::empty());
        universe
    }

    /// How many systems were inserted.
    pub fn system_count(&self) -> (count: usize)
        ensures
            count == self@.system_count,
            count == self.records().len(),
    {
        proof {
            use_type_invariant(self);
        }
        self.system_count
    }

    /// How many ids resolve to a system.
    pub fn distinct_ids(&self) -> (count: usize)
        ensures
            count == self@.systems_by_id.dom().len(),
    {
        assert(self@.systems_by_id.dom() =~= self.systems_by_id@.dom());
        self.systems_by_id.len()
    }

    /// How many names resolve to a system.
    pub fn distinct_names(&self) -> (count: usize)
        ensures
            count == self@.systems_by_name.dom().len(),
    {
        assert(self@.systems_by_name.dom() =~= self.systems_by_name@.dom());
        self.systems_by_name.len()
    }

    /// Whether `id` resolves to a system.
    pub fn contains_id(&self, id: usize) -> (held: bool)
        ensures
            held == self@.systems_by_id.contains_key(id),
    {
        self.systems_by_id.contains_key(&id)
    }

    /// Whether `name` resolves to a system.
    pub fn contains_name(&self, name: &str) -> (held: bool)
        ensures
            held == self@.systems_by_name.contains_key(name@),
    {
        self.systems_by_name.contains_key(name)
    }

    /// Inserts `system` under its id and under its name. It is stored once,
    /// in a slot of its own, and both keys resolve to that slot. A key that
    /// resolved to an earlier system does so no longer. Every other key
    /// resolves as before.
    pub fn fill_system_info(&mut self, system: System)
        ensures
            final(self)@ == old(self)@.insert(system@),
            final(self).records() == old(self).records().push(system),
            final(self).slot_of_id(system.system_id) == Some(old(self).records().len() as int),
            final(self).slot_of_name(system.name@) == Some(old(self).records().len() as int),
            forall|id: usize|
                id != system.system_id ==> #[trigger] final(self).slot_of_id(id) == old(
                    self,
                ).slot_of_id(id),
            forall|name: Seq<char>|
                name != system.name@ ==> #[trigger] final(self).slot_of_name(name) == old(
                    self,
                ).slot_of_name(name),
    {
        proof {
            use_type_invariant(&*self);
        }
        let mut taken = Universe::new();
        std::mem::swap(self, &mut taken);
        proof {
            use_type_invariant(&taken);
        }
        let Universe { system_count: _, mut systems, mut systems_by_id, mut systems_by_name } = taken;
        let index = systems.len();
        let system_id = system.system_id;
        let system_name = system.name.clone();
        systems.push(system);
        systems_by_id.insert(system_id, index);
        systems_by_name.insert(system_name, index);
        let system_count = systems.len();
        *self = Universe { system_count, systems, systems_by_id, systems_by_name };
        assert(self@.systems_by_id =~= old(self)@.systems_by_id.insert(system_id, system@));
        assert(self@.systems_by_name =~= old(self)@.systems_by_name.insert(system.name@, system@));
    }

    /// The system registered under `name`.
    pub fn get_system_by_name(&self, name: &str) -> (found: Result<&System, UniverseError>)
        ensures
            match found {
                Ok(system) => {
                    &&& self@.systems_by_name.contains_key(name@)
                    &&& system@ == self@.systems_by_name[name@]
                    &&& system.name@ == name@
                    &&& self.slot_of_name(name@) matches Some(slot)
                    &&& 0 <= slot < self.records().len()
                    &&& *system == self.records()[slot]
                },
                Err(error) => {
                    &&& self.slot_of_name(name@) is None
                    &&& !self@.systems_by_name.contains_key(name@)
                    &&& error matches UniverseError::SystemNameNotFound(missing)
                    &&& missing@ == name@
                },
            },
    {
        proof {
            use_type_invariant(self);
        }
        match self.systems_by_name.get(name) {
            Some(index) => Ok(&self.systems[*index]),
            None => Err(UniverseError::SystemNameNotFound(name.to_owned())),
        }
    }

    /// The system registered under `id`.
    pub fn get_system_by_id(&self, id: usize) -> (found: Result<&System, UniverseError>)
        ensures
            match found {
                Ok(system) => {
                    &&& self@.systems_by_id.contains_key(id)
                    &&& system@ == self@.systems_by_id[id]
                    &&& system.system_id == id
                    &&& self.slot_of_id(id) matches Some(slot)
                    &&& 0 <= slot < self.records().len()
                    &&& *system == self.records()[slot]
                },
                Err(error) => {
                    &&& self.slot_of_id(id) is None
                    &&& !self@.systems_by_id.contains_key(id)
                    &&& error == UniverseError::SystemIdNotFound(id)
                },
            },
    {
        proof {
            use_type_invariant(self);
        }
        match self.systems_by_id.get(&id) {
            Some(index) => Ok(&self.systems[*index]),
            None => Err(UniverseError::SystemIdNotFound(id)),
        }
    }
}

} // verus!
