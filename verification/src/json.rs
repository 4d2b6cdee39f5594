use vstd::prelude::*;

verus! {

/// A JSON number, as the readings that can be taken of it. A reading that the
/// number does not admit is `None`: a negative or fractional number has no
/// `unsigned` reading.
#[derive(Debug, Clone, Copy, PartialEq, Eq)]
pub struct Number {
    /// The number as an integer from 0 to `u64::MAX`.
    pub unsigned: Option<u64>,
    /// The number as an integer from `i64::MIN` to `i64::MAX`.
    pub signed: Option<i64>,
    /// The number as an IEEE 754 binary64 value, given by its bit pattern.
    pub binary64: Option<u64>,
}

/// One member of a JSON object.
#[derive(Debug, PartialEq, Eq)]
pub struct Member {
    pub name: String,
    pub value: Json,
}

/// A JSON document.
#[derive(Debug, PartialEq, Eq)]
pub enum Json {
    Null,
    Bool(bool),
    Number(Number),
    Text(String),
    Array(Vec<Json>),
    Object(Vec<Member>),
}

/// Why bytes could not be decoded.
#[derive(Debug, Clone, PartialEq, Eq)]
pub enum DecodeError {
    /// The bytes are not one JSON document; the parser's own account of what
    /// is wrong with them, and where.
    InvalidJson(String),
    /// The document is not of the shape that was asked for.
    UnexpectedShape,
}

impl DecodeError {
    /// The failure in one line.
    pub open spec fn text(self) -> Seq<char> {
        match self {
            DecodeError::InvalidJson(account) => account@,
            DecodeError::UnexpectedShape => "the payload is not of the expected shape"@,
        }
    }

    /// The failure in one line.
    pub fn message(&self) -> (text: String)
        ensures
            text@ == self.text(),
    {
        match self {
            DecodeError::InvalidJson(account) => account.clone(),
            DecodeError::UnexpectedShape => "the payload is not of the expected shape".to_owned(),
        }
    }
}

/// `serde_json::Value`, the tree that serde_json reads a JSON text into.
/// Nothing is said of what is inside it.
#[verifier::external_type_specification]
#[verifier::external_body]
pub struct ExValue(serde_json::Value);

/// `serde_json::Error`, what serde_json fails with. Nothing is said of what
/// is inside it.
#[verifier::external_type_specification]
#[verifier::external_body]
pub struct ExError(serde_json::Error);

/// What `serde_json::from_slice` makes of `bytes` when it is asked for a
/// `serde_json::Value`: the document that it reads, or its account of why it
/// rejects them.
pub uninterp spec fn json_document(bytes: Seq<u8>) -> Result<Json, String>;

/// The document that a `serde_json::Value` holds.
pub uninterp spec fn value_document(value: serde_json::Value) -> Json;

/// The account that a `serde_json::Error` gives of itself when it is
/// displayed.
pub uninterp spec fn error_account(error: serde_json::Error) -> String;

/// `serde_json::from_slice`, asked for a `serde_json::Value`. What it
/// returns is `json_document` of the bytes: the value holds the document, the
/// error gives the account.
#[verifier::external_body]
fn read_value(bytes: &[u8]) -> (read: Result<serde_json::Value, serde_json::Error>)
    ensures
        match read {
            Ok(value) => json_document(bytes@) == Ok::<Json, String>(value_document(value)),
            Err(error) => json_document(bytes@) == Err::<Json, String>(error_account(error)),
        },
{
    serde_json::from_slice::<serde_json::Value>(bytes)
}

/// `to_string` on a `serde_json::Error`, which displays it: the message, and
/// the line and column where the error has them.
#[verifier::external_body]
fn account_of(error: &serde_json::Error) -> (account: String)
    ensures
        account == error_account(*error),
{
    error.to_string()
}

/// Copies a `serde_json::Value` into a `Json`, variant by variant. A number
/// is copied as what `as_u64`, `as_i64` and `as_f64` return for it, the last
/// as its bit pattern; the members of an object come in the order in which
/// `serde_json::Map::iter` yields them.
#[verifier::external_body]
fn lift(value: &serde_json::Value) -> (document: Json)
    ensures
        document == value_document(*value),
{
    match value {
        serde_json::Value::Null => Json::Null,
        serde_json::Value::Bool(b) => Json::Bool(*b),
        serde_json::Value::Number(n) => Json::Number(Number {
            unsigned: n.as_u64(),
            signed: n.as_i64(),
            binary64: n.as_f64().map(|x| x.to_bits()),
        }),
        serde_json::Value::String(s) => Json::Text(s.clone()),
        serde_json::Value::Array(a) => Json::Array(a.iter().map(lift).collect()),
        serde_json::Value::Object(o) => Json::Object(
            o.iter().map(|(k, v)| Member { name: k.clone(), value: lift(v) }).collect(),
        ),
    }
}

/// The value of the first of `members` that is called `name`.
pub open spec fn first_named(members: Seq<Member>, name: Seq<char>) -> Option<Json>
    decreases members.len(),
{
    if members.len() == 0 {
        None
    } else if members[0].name@ == name {
        Some(members[0].value)
    } else {
        first_named(members.skip(1), name)
    }
}

/// A member is found under its name unless a member before it has the same
/// name.
pub proof fn lemma_first_named_at(members: Seq<Member>, name: Seq<char>, at: int)
    requires
        0 <= at < members.len(),
        members[at].name@ == name,
        forall|i: int| 0 <= i < at ==> (#[trigger] members[i]).name@ != name,
    ensures
        first_named(members, name) == Some(members[at].value),
    decreases at,
{
    if at > 0 {
        let rest = members.skip(1);
        assert(members[0].name@ != name);
        assert(rest[at - 1] == members[at]);
        assert forall|i: int| 0 <= i < at - 1 implies (#[trigger] rest[i]).name@ != name by {
            assert(rest[i] == members[i + 1]);
        }
        lemma_first_named_at(rest, name, at - 1);
    }
}

/// Nothing is found under a name that no member has.
pub proof fn lemma_first_named_absent(members: Seq<Member>, name: Seq<char>)
    requires
        forall|i: int| 0 <= i < members.len() ==> (#[trigger] members[i]).name@ != name,
    ensures
        first_named(members, name) is None,
    decreases members.len(),
{
    if members.len() > 0 {
        let rest = members.skip(1);
        assert(members[0].name@ != name);
        assert forall|i: int| 0 <= i < rest.len() implies (#[trigger] rest[i]).name@ != name by {
            assert(rest[i] == members[i + 1]);
        }
        lemma_first_named_absent(rest, name);
    }
}

impl Json {
    /// The member called `name`, where this is an object that has one.
    pub open spec fn member(self, name: Seq<char>) -> Option<Json> {
        match self {
            Json::Object(members) => first_named(members@, name),
            _ => None,
        }
    }

    /// The unsigned reading, where this is a number that has one.
    pub open spec fn unsigned(self) -> Option<u64> {
        match self {
            Json::Number(number) => number.unsigned,
            _ => None,
        }
    }

    /// The binary64 reading, where this is a number that has one.
    pub open spec fn binary64(self) -> Option<u64> {
        match self {
            Json::Number(number) => number.binary64,
            _ => None,
        }
    }

    /// The characters, where this is a string.
    pub open spec fn text(self) -> Option<Seq<char>> {
        match self {
            Json::Text(text) => Some(text@),
            _ => None,
        }
    }

    /// The elements, where this is an array.
    pub open spec fn items(self) -> Option<Seq<Json>> {
        match self {
            Json::Array(items) => Some(items@),
            _ => None,
        }
    }

    /// Reads one JSON document from `bytes`. Where an object gives a name
    /// more than once, the parser keeps the member that comes last.
    pub fn parse(bytes: &[u8]) -> (parsed: Result<Json, DecodeError>)
        ensures
            match parsed {
                Ok(document) => json_document(bytes@) == Ok::<Json, String>(document),
                Err(error) => error matches DecodeError::InvalidJson(account) && json_document(
                    bytes@,
                ) == Err::<Json, String>(account),
            },
    {
        match read_value(bytes) {
            Ok(value) => Ok(lift(&value)),
            Err(error) => Err(DecodeError::InvalidJson(account_of(&error))),
        }
    }

    /// The unsigned reading, where this is a number that has one.
    pub fn as_unsigned(&self) -> (reading: Option<u64>)
        ensures
            reading == self.unsigned(),
    {
        match self {
            Json::Number(number) => number.unsigned,
            _ => None,
        }
    }

    /// The binary64 reading, where this is a number that has one.
    pub fn as_binary64(&self) -> (reading: Option<u64>)
        ensures
            reading == self.binary64(),
    {
        match self {
            Json::Number(number) => number.binary64,
            _ => None,
        }
    }

    /// The string, where this is one.
    pub fn as_text(&self) -> (reading: Option<&String>)
        ensures
            match reading {
                Some(text) => self.text() == Some(text@),
                None => self.text() is None,
            },
    {
        match self {
            Json::Text(text) => Some(text),
            _ => None,
        }
    }

    /// The elements, where this is an array.
    pub fn as_items(&self) -> (reading: Option<&Vec<Json>>)
        ensures
            match reading {
                Some(items) => self.items() == Some(items@),
                None => self.items() is None,
            },
    {
        match self {
            Json::Array(items) => Some(items),
            _ => None,
        }
    }

    /// Looks up the member called `name`.
    pub fn get(&self, name: &str) -> (found: Option<&Json>)
        ensures
            match found {
                Some(value) => self.member(name@) == Some(*value),
                None => self.member(name@) is None,
            },
    {
        match self {
            Json::Object(members) => {
                let wanted = name.to_owned();
                let mut i: usize = 0;
                assert(members@.skip(0) == members@);
                while i < members.len()
                    invariant
                        i <= members.len(),
                        wanted@ == name@,
                        self.member(name@) == first_named(members@.skip(i as int), name@),
                    decreases members.len() - i,
                {
                    assert(members@.skip(i as int)[0] == members@[i as int]);
                    if members[i].name == wanted {
                        return Some(&members[i].value);
                    }
                    assert(members@.skip(i as int).skip(1) == members@.skip(i + 1));
                    i += 1;
                }
                None
            },
            _ => None,
        }
    }
}

} // verus!
