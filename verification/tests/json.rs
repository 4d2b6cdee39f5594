use esi_universe::json::{DecodeError, Json, Member, Number};
use esi_universe::models::{Position, System};

fn whole(n: u64) -> Json {
    let signed = if n <= i64::MAX as u64 { Some(n as i64) } else { None };
    Json::Number(Number { unsigned: Some(n), signed, binary64: Some((n as f64).to_bits()) })
}

fn member(name: &str, value: Json) -> Member {
    Member { name: name.to_string(), value }
}

#[test]
fn parse_reads_every_kind_of_value() {
    let document = Json::parse(br#"{"b":[1,-2,3.5,"x",null,true],"a":{}}"#).unwrap();
    let expected = Json::Object(vec![
        member("a", Json::Object(vec![])),
        member(
            "b",
            Json::Array(vec![
                whole(1),
                Json::Number(Number {
                    unsigned: None,
                    signed: Some(-2),
                    binary64: Some((-2.0f64).to_bits()),
                }),
                Json::Number(Number {
                    unsigned: None,
                    signed: None,
                    binary64: Some(3.5f64.to_bits()),
                }),
                Json::Text("x".to_string()),
                Json::Null,
                Json::Bool(true),
            ]),
        ),
    ]);
    assert_eq!(document, expected);
}

#[test]
fn parse_rejects_what_is_not_one_document() {
    assert_eq!(
        Json::parse(b"invalid json"),
        Err(DecodeError::InvalidJson("expected value at line 1 column 1".to_string()))
    );
    assert!(matches!(Json::parse(b""), Err(DecodeError::InvalidJson(_))));
    assert!(matches!(Json::parse(b"[1, 2"), Err(DecodeError::InvalidJson(_))));
    assert!(matches!(Json::parse(b"[1] [2]"), Err(DecodeError::InvalidJson(_))));
    let account = Json::parse(b"[1,\n 2").unwrap_err().message();
    assert!(account.contains("line 2"), "{}", account);
}

#[test]
fn parse_keeps_the_largest_unsigned_number() {
    let document = Json::parse(b"18446744073709551615").unwrap();
    assert_eq!(document.as_unsigned(), Some(u64::MAX));
    let beyond = Json::parse(b"18446744073709551616").unwrap();
    assert_eq!(beyond.as_unsigned(), None);
    assert_eq!(beyond.as_binary64(), Some(18446744073709551616.0f64.to_bits()));
}

#[test]
fn get_finds_the_first_member_of_that_name() {
    let document = Json::Object(vec![
        member("a", whole(1)),
        member("b", whole(2)),
        member("a", whole(3)),
    ]);
    assert_eq!(document.get("a"), Some(&whole(1)));
    assert_eq!(document.get("b"), Some(&whole(2)));
    assert_eq!(document.get("c"), None);
    assert_eq!(whole(1).get("a"), None);
}

#[test]
fn readings_are_none_for_other_kinds() {
    let text = Json::Text("7".to_string());
    assert_eq!(text.as_unsigned(), None);
    assert_eq!(text.as_binary64(), None);
    assert_eq!(text.as_items(), None);
    assert_eq!(text.as_text(), Some(&"7".to_string()));
    assert_eq!(whole(7).as_text(), None);
    assert_eq!(Json::Array(vec![whole(7)]).as_items(), Some(&vec![whole(7)]));
}

#[test]
fn decode_error_messages() {
    assert_eq!(DecodeError::InvalidJson("expected value".to_string()).message(), "expected value");
    assert_eq!(DecodeError::UnexpectedShape.message(), "the payload is not of the expected shape");
}

#[test]
fn parse_ids_keeps_the_order() {
    assert_eq!(System::parse_ids(b"[3, 1, 2, 1]"), Ok(vec![3, 1, 2, 1]));
    assert_eq!(System::parse_ids(b"[]"), Ok(vec![]));
}

#[test]
fn parse_ids_rejects_what_is_not_a_list_of_ids() {
    assert_eq!(System::parse_ids(b"[1, -2]"), Err(DecodeError::UnexpectedShape));
    assert_eq!(System::parse_ids(b"[1, 2.5]"), Err(DecodeError::UnexpectedShape));
    assert_eq!(System::parse_ids(b"[1, \"2\"]"), Err(DecodeError::UnexpectedShape));
    assert_eq!(System::parse_ids(b"{\"ids\": [1]}"), Err(DecodeError::UnexpectedShape));
    assert_eq!(System::parse_ids(b"7"), Err(DecodeError::UnexpectedShape));
    assert_eq!(System::parse_ids(b"[1, 18446744073709551616]"), Err(DecodeError::UnexpectedShape));
    assert!(matches!(System::parse_ids(b"[1, 2"), Err(DecodeError::InvalidJson(_))));
}

#[test]
fn parse_system_reads_each_field() {
    let system = System::parse(
        br#"{"name":"Jita","stargates":[5,4],"system_id":30000142,"security_status":1,"position":{"z":-3,"y":2.5,"x":1e3,"w":0},"extra":null}"#,
    )
    .unwrap();
    assert_eq!(
        system,
        System {
            system_id: 30000142,
            name: "Jita".to_string(),
            position: Position {
                x: 1000.0f64.to_bits(),
                y: 2.5f64.to_bits(),
                z: (-3.0f64).to_bits(),
            },
            security_status: 1.0f64.to_bits(),
            stargates: vec![5, 4],
        }
    );
}

#[test]
fn parse_system_rejects_a_missing_or_misshaped_field() {
    let shaped = |text: &str| System::parse(text.as_bytes());
    let full = r#"{"system_id":1,"name":"a","position":{"x":1,"y":2,"z":3},"security_status":0.5,"stargates":[]}"#;
    assert!(shaped(full).is_ok());
    let faulty = [
        r#"{"name":"a","position":{"x":1,"y":2,"z":3},"security_status":0.5,"stargates":[]}"#,
        r#"{"system_id":1,"position":{"x":1,"y":2,"z":3},"security_status":0.5,"stargates":[]}"#,
        r#"{"system_id":-1,"name":"a","position":{"x":1,"y":2,"z":3},"security_status":0.5,"stargates":[]}"#,
        r#"{"system_id":1.5,"name":"a","position":{"x":1,"y":2,"z":3},"security_status":0.5,"stargates":[]}"#,
        r#"{"system_id":"1","id":1,"name":"a"}"#,
        r#"{"id":"1","name":"a"}"#,
        r#"{"system_id":1,"name":7,"position":{"x":1,"y":2,"z":3},"security_status":0.5,"stargates":[]}"#,
        r#"{"system_id":1,"name":null}"#,
        r#"{"system_id":1,"name":"a","position":{"x":1,"y":2},"security_status":0.5,"stargates":[]}"#,
        r#"{"system_id":1,"name":"a","position":{"x":1,"y":"2","z":3},"security_status":0.5,"stargates":[]}"#,
        r#"{"system_id":1,"name":"a","position":[1,2,3],"security_status":0.5,"stargates":[]}"#,
        r#"{"system_id":1,"name":"a","position":null}"#,
        r#"{"system_id":1,"name":"a","position":{"x":1,"y":2,"z":3},"security_status":"high","stargates":[]}"#,
        r#"{"system_id":1,"name":"a","security_status":null}"#,
        r#"{"system_id":1,"name":"a","position":{"x":1,"y":2,"z":3},"security_status":0.5,"stargates":[1,-1]}"#,
        r#"{"system_id":1,"name":"a","position":{"x":1,"y":2,"z":3},"security_status":0.5,"stargates":7}"#,
        r#"{"system_id":1,"name":"a","stargates":null}"#,
        r#"{}"#,
        r#"[1,"a",[1,2,3],0.5,[]]"#,
        r#"null"#,
    ];
    for text in faulty {
        assert_eq!(shaped(text), Err(DecodeError::UnexpectedShape), "{}", text);
    }
    assert!(matches!(shaped("{"), Err(DecodeError::InvalidJson(_))));
}

#[test]
fn parse_system_with_only_an_id_and_a_name() {
    let system = System::parse(br#"{"system_id":1,"name":"A"}"#).unwrap();
    assert_eq!(system, System::new(1, "A".to_string()));
    assert_eq!(system.position, Position { x: 0, y: 0, z: 0 });
    assert_eq!(system.security_status, 0);
    assert!(system.stargates.is_empty());
}

#[test]
fn parse_system_fills_in_each_missing_member_alone() {
    let without_position =
        System::parse(br#"{"system_id":2,"name":"B","security_status":0.5,"stargates":[7]}"#)
            .unwrap();
    assert_eq!(without_position.position, Position { x: 0, y: 0, z: 0 });
    assert_eq!(without_position.security_status, 0.5f64.to_bits());
    assert_eq!(without_position.stargates, vec![7]);
    let without_status =
        System::parse(br#"{"system_id":2,"name":"B","position":{"x":1,"y":2,"z":3},"stargates":[7]}"#)
            .unwrap();
    assert_eq!(without_status.security_status, 0);
    assert_eq!(without_status.position.x, 1.0f64.to_bits());
    let without_stargates = System::parse(
        br#"{"system_id":2,"name":"B","position":{"x":1,"y":2,"z":3},"security_status":0.5}"#,
    )
    .unwrap();
    assert!(without_stargates.stargates.is_empty());
    assert_eq!(without_stargates.security_status, 0.5f64.to_bits());
}

#[test]
fn parse_system_reads_the_id_under_its_older_name() {
    let older = System::parse(br#"{"id":30005311,"name":"Amygnon"}"#).unwrap();
    assert_eq!(older, System::new(30005311, "Amygnon".to_string()));
    let both = System::parse(br#"{"id":2,"system_id":1,"name":"A"}"#).unwrap();
    assert_eq!(both.system_id, 1);
}

#[test]
fn from_json_reads_a_document_written_by_hand() {
    let real = |x: f64| {
        Json::Number(Number { unsigned: None, signed: None, binary64: Some(x.to_bits()) })
    };
    let document = Json::Object(vec![
        member("system_id", whole(9)),
        member("name", Json::Text("Nine".to_string())),
        member(
            "position",
            Json::Object(vec![member("x", real(0.5)), member("y", real(1.5)), member("z", real(2.5))]),
        ),
        member("security_status", real(-1.0)),
        member("stargates", Json::Array(vec![whole(10), whole(11)])),
    ]);
    let system = System::from_json(&document).unwrap();
    assert_eq!(system.system_id, 9);
    assert_eq!(system.name, "Nine");
    assert_eq!(f64::from_bits(system.position.y), 1.5);
    assert_eq!(f64::from_bits(system.security_status), -1.0);
    assert_eq!(system.stargates, vec![10, 11]);
    assert_eq!(System::from_json(&Json::Null), Err(DecodeError::UnexpectedShape));
    assert_eq!(Position::from_json(&Json::Null), Err(DecodeError::UnexpectedShape));
    assert_eq!(System::ids_from_json(&Json::Null), Err(DecodeError::UnexpectedShape));
    assert_eq!(System::ids_from_json(&Json::Array(vec![whole(1), whole(2)])), Ok(vec![1, 2]));
}
