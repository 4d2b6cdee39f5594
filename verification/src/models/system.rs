use crate::json::{
    json_document, lemma_first_named_absent, lemma_first_named_at, DecodeError, Json, Member,
    Number,
};
use vstd::prelude::*;

verus! {

/// Where a system lies in space. Each coordinate is an IEEE 754 binary64
/// number, held as its bit pattern.
#[derive(Debug, Clone, Copy, PartialEq, Eq, Structural)]
pub struct Position {
    pub x: u64,
    pub y: u64,
    pub z: u64,
}

/// One solar system.
#[derive(Debug, Clone, PartialEq, Eq)]
pub struct System {
    pub system_id: usize,
    pub name: String,
    pub position: Position,
    /// An IEEE 754 binary64 number, held as its bit pattern: the number as
    /// it was read, before any narrowing to single precision.
    pub security_status: u64,
    /// The stargates of the system, in the order in which they were given.
    pub stargates: Vec<usize>,
}

/// What a `System` holds, as mathematical values.
pub struct SystemView {
    pub system_id: usize,
    pub name: Seq<char>,
    pub position: Position,
    pub security_status: u64,
    pub stargates: Seq<usize>,
}

impl View for System {
    type V = SystemView;

    open spec fn view(&self) -> SystemView {
        SystemView {
            system_id: self.system_id,
            name: self.name@,
            position: self.position,
            security_status: self.security_status,
            stargates: self.stargates@,
        }
    }
}

/// The id that `value` spells: a whole number from 0 to `usize::MAX`.
pub open spec fn as_id(value: Json) -> Option<usize> {
    match value.unsigned() {
        Some(number) => if number <= usize::MAX {
            Some(number as usize)
        } else {
            None
        },
        None => None,
    }
}

/// The ids that `document` lists: it is an array, and each of its elements
/// spells an id.
pub open spec fn decode_ids(document: Json) -> Option<Seq<usize>> {
    match document.items() {
        Some(items) => if forall|i: int| 0 <= i < items.len() ==> as_id(#[trigger] items[i]) is Some {
            Some(Seq::new(items.len(), |i: int| as_id(items[i]).unwrap()))
        } else {
            None
        },
        None => None,
    }
}

/// The number that the member `name` of `document` spells, as binary64 bits.
pub open spec fn number_at(document: Json, name: Seq<char>) -> Option<u64> {
    match document.member(name) {
        Some(value) => value.binary64(),
        None => None,
    }
}

/// The position that `document` spells: an object whose members `x`, `y`
/// and `z` are numbers.
pub open spec fn decode_position(document: Json) -> Option<Position> {
    match (number_at(document, "x"@), number_at(document, "y"@), number_at(document, "z"@)) {
        (Some(x), Some(y), Some(z)) => Some(Position { x, y, z }),
        _ => None,
    }
}

/// The position that a system has where none is given: the origin.
pub open spec fn no_position() -> Position {
    Position { x: 0, y: 0, z: 0 }
}

/// The member of `document` that holds the id: `system_id`, or where there
/// is none, `id`, as the service once called it.
pub open spec fn id_member(document: Json) -> Option<Json> {
    match document.member("system_id"@) {
        Some(value) => Some(value),
        None => document.member("id"@),
    }
}

/// The position that `document` gives: that of its member `position`, the
/// origin where it has none, and nothing where the member does not spell a
/// position.
pub open spec fn position_of(document: Json) -> Option<Position> {
    match document.member("position"@) {
        Some(value) => decode_position(value),
        None => Some(no_position()),
    }
}

/// The security status that `document` gives: that of its member
/// `security_status`, zero where it has none, and nothing where the member is
/// not a number.
pub open spec fn security_status_of(document: Json) -> Option<u64> {
    match document.member("security_status"@) {
        Some(value) => value.binary64(),
        None => Some(0),
    }
}

/// The stargates that `document` gives: those of its member `stargates`,
/// none where it has no such member, and nothing where the member is not a
/// list of ids.
pub open spec fn stargates_of(document: Json) -> Option<Seq<usize>> {
    match document.member("stargates"@) {
        Some(value) => decode_ids(value),
        None => Some(Seq::empty()),
    }
}

/// The system that `document` spells. It must have an id, under `system_id`
/// or else under `id`, and a string under `name`. Its members `position`,
/// `security_status` and `stargates` may be missing, and then the system has
/// what `System::new` gives it; a member that is there must be of its kind.
/// Other members are passed over.
pub open spec fn decode_system(document: Json) -> Option<SystemView> {
    match (id_member(document), document.member("name"@)) {
        (Some(system_id), Some(name)) => {
            match (
                as_id(system_id),
                name.text(),
                position_of(document),
                security_status_of(document),
                stargates_of(document),
            ) {
                (
                    Some(system_id),
                    Some(name),
                    Some(position),
                    Some(security_status),
                    Some(stargates),
                ) => Some(SystemView { system_id, name, position, security_status, stargates }),
                _ => None,
            }
        },
        _ => None,
    }
}

/// An object that holds an id and a name and nothing else spells the system
/// that `System::new` makes of the two. The id may stand under `system_id` or
/// under `id`.
pub proof fn lemma_id_and_name_suffice(document: Json, id: usize, name: Seq<char>)
    requires
        document matches Json::Object(members) && members@.len() == 2 && (members@[0].name@
            == "system_id"@ || members@[0].name@ == "id"@) && as_id(members@[0].value) == Some(id)
            && members@[1].name@ == "name"@ && members@[1].value.text() == Some(name),
    ensures
        decode_system(document) == Some(
            SystemView {
                system_id: id,
                name,
                position: no_position(),
                security_status: 0,
                stargates: Seq::empty(),
            },
        ),
{
    let members = document->Object_0@;
    reveal_strlit("system_id");
    reveal_strlit("id");
    reveal_strlit("name");
    reveal_strlit("position");
    reveal_strlit("security_status");
    reveal_strlit("stargates");
    assert("system_id"@.len() == 9 && "id"@.len() == 2 && "name"@.len() == 4);
    assert("position"@.len() == 8 && "security_status"@.len() == 15 && "stargates"@.len() == 9);
    assert("system_id"@[1] != "stargates"@[1]);
    lemma_first_named_at(members, members[0].name@, 0);
    lemma_first_named_at(members, "name"@, 1);
    lemma_first_named_absent(members, "position"@);
    lemma_first_named_absent(members, "security_status"@);
    lemma_first_named_absent(members, "stargates"@);
    if members[0].name@ == "id"@ {
        lemma_first_named_absent(members, "system_id"@);
    }
}

/// What decoding bytes as a list of ids comes to.
pub open spec fn parsed_ids(bytes: Seq<u8>) -> Result<Seq<usize>, DecodeError> {
    match json_document(bytes) {
        Err(account) => Err(DecodeError::InvalidJson(account)),
        Ok(document) => match decode_ids(document) {
            None => Err(DecodeError::UnexpectedShape),
            Some(ids) => Ok(ids),
        },
    }
}

/// What decoding bytes as a system comes to.
pub open spec fn parsed_system(bytes: Seq<u8>) -> Result<SystemView, DecodeError> {
    match json_document(bytes) {
        Err(account) => Err(DecodeError::InvalidJson(account)),
        Ok(document) => match decode_system(document) {
            None => Err(DecodeError::UnexpectedShape),
            Some(system) => Ok(system),
        },
    }
}

/// The id that `value` spells.
fn id_from_json(value: &Json) -> (id: Option<usize>)
    ensures
        id == as_id(*value),
{
    match value.as_unsigned() {
        Some(number) => if number <= usize::MAX as u64 {
            Some(number as usize)
        } else {
            None
        },
        None => None,
    }
}

/// The number that the member `name` of `document` spells.
fn number_from_json(document: &Json, name: &str) -> (number: Option<u64>)
    ensures
        number == number_at(*document, name@),
{
    match document.get(name) {
        Some(value) => value.as_binary64(),
        None => None,
    }
}

/// The JSON number that has the binary64 reading `bits` and no other.
fn number_to_json(bits: u64) -> (value: Json)
    ensures
        value.binary64() == Some(bits),
        value.unsigned() is None,
{
    Json::Number(Number { unsigned: None, signed: None, binary64: Some(bits) })
}

/// The JSON number that spells `id`.
fn id_to_json(id: usize) -> (value: Json)
    ensures
        as_id(value) == Some(id),
{
    let signed = if id <= i64::MAX as usize {
        Some(id as i64)
    } else {
        None
    };
    Json::Number(Number { unsigned: Some(id as u64), signed, binary64: None })
}

/// The JSON array that lists `ids`.
fn ids_to_json(ids: &Vec<usize>) -> (value: Json)
    ensures
        decode_ids(value) == Some(ids@),
{
    let mut items: Vec<Json> = Vec::new();
    let mut i: usize = 0;
    while i < ids.len()
        invariant
            i <= ids.len(),
            items.len() == i,
            forall|j: int| 0 <= j < i ==> as_id(#[trigger] items[j]) == Some(ids[j]),
        decreases ids.len() - i,
    {
        items.push(id_to_json(ids[i]));
        i += 1;
    }
    assert(ids@ =~= Seq::new(items@.len(), |j: int| as_id(items@[j]).unwrap()));
    Json::Array(items)
}

impl Position {
    /// Encodes the position as a JSON object with the members `x`, `y` and
    /// `z`. Decoding the object gives the position back.
    pub fn to_json(&self) -> (document: Json)
        ensures
            decode_position(document) == Some(*self),
            document matches Json::Object(members) && members@.len() == 3 && members@[0].name@
                == "x"@ && members@[1].name@ == "y"@ && members@[2].name@ == "z"@,
    {
        let mut members: Vec<Member> = Vec::new();
        members.push(Member { name: "x".to_owned(), value: number_to_json(self.x) });
        members.push(Member { name: "y".to_owned(), value: number_to_json(self.y) });
        members.push(Member { name: "z".to_owned(), value: number_to_json(self.z) });
        proof {
            reveal_strlit("x");
            reveal_strlit("y");
            reveal_strlit("z");
            assert("x"@[0] != "y"@[0] && "x"@[0] != "z"@[0] && "y"@[0] != "z"@[0]);
            lemma_first_named_at(members@, "x"@, 0);
            lemma_first_named_at(members@, "y"@, 1);
            lemma_first_named_at(members@, "z"@, 2);
        }
        Json::Object(members)
    }

    /// Decodes a position from a JSON document.
    pub fn from_json(document: &Json) -> (decoded: Result<Position, DecodeError>)
        ensures
            match decoded {
                Ok(position) => decode_position(*document) == Some(position),
                Err(error) => decode_position(*document) is None && error
                    == DecodeError::UnexpectedShape,
            },
    {
        let x = number_from_json(document, "x");
        let y = number_from_json(document, "y");
        let z = number_from_json(document, "z");
        match (x, y, z) {
            (Some(x), Some(y), Some(z)) => Ok(Position { x, y, z }),
            _ => Err(DecodeError::UnexpectedShape),
        }
    }
}

impl System {
    /// Decodes a list of system ids from a JSON document.
    pub fn ids_from_json(document: &Json) -> (decoded: Result<Vec<usize>, DecodeError>)
        ensures
            match decoded {
                Ok(ids) => decode_ids(*document) == Some(ids@),
                Err(error) => decode_ids(*document) is None && error
                    == DecodeError::UnexpectedShape,
            },
    {
        match document.as_items() {
            Some(items) => {
                let mut ids: Vec<usize> = Vec::new();
                let mut i: usize = 0;
                while i < items.len()
                    invariant
                        i <= items.len(),
                        ids.len() == i,
                        document.items() == Some(items@),
                        forall|j: int| 0 <= j < i ==> as_id(#[trigger] items[j]) == Some(ids[j]),
                    decreases items.len() - i,
                {
                    match id_from_json(&items[i]) {
                        Some(id) => ids.push(id),
                        None => {
                            assert(as_id(items@[i as int]) is None);
                            return Err(DecodeError::UnexpectedShape);
                        },
                    }
                    i += 1;
                }
                assert(ids@ =~= Seq::new(items@.len(), |j: int| as_id(items@[j]).unwrap()));
                Ok(ids)
            },
            None => Err(DecodeError::UnexpectedShape),
        }
    }

    /// Decodes a list of system ids from the bytes of a JSON text.
    pub fn parse_ids(ids_string: &[u8]) -> (decoded: Result<Vec<usize>, DecodeError>)
        ensures
            match decoded {
                Ok(ids) => parsed_ids(ids_string@) == Ok::<Seq<usize>, DecodeError>(ids@),
                Err(error) => parsed_ids(ids_string@) == Err::<Seq<usize>, DecodeError>(error),
            },
    {
        match Json::parse(ids_string) {
            Ok(document) => System::ids_from_json(&document),
            Err(error) => Err(error),
        }
    }

    /// Decodes a system from a JSON document.
    pub fn from_json(document: &Json) -> (decoded: Result<System, DecodeError>)
        ensures
            match decoded {
                Ok(system) => decode_system(*document) == Some(system@),
                Err(error) => decode_system(*document) is None && error
                    == DecodeError::UnexpectedShape,
            },
    {
        let system_id = match document.get("system_id") {
            Some(value) => id_from_json(value),
            None => match document.get("id") {
                Some(value) => id_from_json(value),
                None => None,
            },
        };
        let name = match document.get("name") {
            Some(value) => value.as_text(),
            None => None,
        };
        let position = match document.get("position") {
            Some(value) => Position::from_json(value),
            None => Ok(Position { x: 0, y: 0, z: 0 }),
        };
        let security_status = match document.get("security_status") {
            Some(value) => value.as_binary64(),
            None => Some(0),
        };
        let stargates = match document.get("stargates") {
            Some(value) => System::ids_from_json(value),
            None => Ok(Vec::new()),
        };
        match (system_id, name, position, security_status, stargates) {
            (Some(system_id), Some(name), Ok(position), Some(security_status), Ok(stargates)) => Ok(
                System { system_id, name: name.clone(), position, security_status, stargates },
            ),
            _ => Err(DecodeError::UnexpectedShape),
        }
    }

    /// Encodes the system as a JSON object with the members `system_id`,
    /// `name`, `position`, `security_status` and `stargates`. Decoding the
    /// object gives the system back.
    pub fn to_json(&self) -> (document: Json)
        ensures
            decode_system(document) == Some(self@),
            document matches Json::Object(members) && members@.len() == 5 && members@[0].name@
                == "system_id"@ && members@[1].name@ == "name"@ && members@[2].name@
                == "position"@ && members@[3].name@ == "security_status"@ && members@[4].name@
                == "stargates"@,
    {
        let mut members: Vec<Member> = Vec::new();
        members.push(Member { name: "system_id".to_owned(), value: id_to_json(self.system_id) });
        members.push(Member { name: "name".to_owned(), value: Json::Text(self.name.clone()) });
        members.push(Member { name: "position".to_owned(), value: self.position.to_json() });
        members.push(
            Member {
                name: "security_status".to_owned(),
                value: number_to_json(self.security_status),
            },
        );
        members.push(Member { name: "stargates".to_owned(), value: ids_to_json(&self.stargates) });
        proof {
            reveal_strlit("system_id");
            reveal_strlit("name");
            reveal_strlit("position");
            reveal_strlit("security_status");
            reveal_strlit("stargates");
            assert("system_id"@.len() == 9 && "name"@.len() == 4 && "position"@.len() == 8);
            assert("security_status"@.len() == 15 && "stargates"@.len() == 9);
            assert("system_id"@[1] != "stargates"@[1]);
            lemma_first_named_at(members@, "system_id"@, 0);
            lemma_first_named_at(members@, "name"@, 1);
            lemma_first_named_at(members@, "position"@, 2);
            lemma_first_named_at(members@, "security_status"@, 3);
            lemma_first_named_at(members@, "stargates"@, 4);
        }
        Json::Object(members)
    }

    /// Decodes a system from the bytes of a JSON text.
    pub fn parse(json: &[u8]) -> (decoded: Result<System, DecodeError>)
        ensures
            match decoded {
                Ok(system) => parsed_system(json@) == Ok::<SystemView, DecodeError>(system@),
                Err(error) => parsed_system(json@) == Err::<SystemView, DecodeError>(error),
            },
    {
        match Json::parse(json) {
            Ok(document) => System::from_json(&document),
            Err(error) => Err(error),
        }
    }

    /// A system that has an id and a name and nothing else: it lies at the
    /// origin, its security status is zero and it has no stargates.
    pub fn new(system_id: usize, name: String) -> (system: System)
        ensures
            system@ == (SystemView {
                system_id,
                name: name@,
                position: no_position(),
                security_status: 0,
                stargates: Seq::empty(),
            }),
    {
        System {
            system_id,
            name,
            position: Position { x: 0, y: 0, z: 0 },
            security_status: 0,
            stargates: Vec::new(),
        }
    }
}

} // verus!
