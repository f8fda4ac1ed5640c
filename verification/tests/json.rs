//! JSON values: lookup, indexing and copying.

use tasklist_mcp_client::json::{clone_items, clone_members, Decimal, Json};

fn member(key: &str, value: Json) -> (String, Json) {
    (key.to_string(), value)
}

#[test]
fn get_finds_the_first_member_with_the_key() {
    let object = Json::Object(vec![
        member("a", Json::whole(1)),
        member("b", Json::whole(2)),
        member("a", Json::whole(3)),
    ]);
    assert_eq!(object.get("a"), Some(&Json::whole(1)));
    assert_eq!(object.get("b"), Some(&Json::whole(2)));
    assert_eq!(object.get("c"), None);
    assert_eq!(object.get(""), None);
}

#[test]
fn get_on_what_is_no_object_finds_nothing() {
    assert_eq!(Json::Null.get("a"), None);
    assert_eq!(Json::Text("a".to_string()).get("a"), None);
    assert_eq!(Json::Array(vec![Json::Text("a".to_string())]).get("a"), None);
}

#[test]
fn at_indexes_arrays_only() {
    let array = Json::Array(vec![Json::Bool(true), Json::Null]);
    assert_eq!(array.at(0), Some(&Json::Bool(true)));
    assert_eq!(array.at(1), Some(&Json::Null));
    assert_eq!(array.at(2), None);
    assert_eq!(Json::Object(vec![member("0", Json::Null)]).at(0), None);
    assert_eq!(Json::Array(vec![]).at(0), None);
}

#[test]
fn as_str_reads_strings_only() {
    assert_eq!(Json::text("hello").as_str(), Some("hello"));
    assert_eq!(Json::Text(String::new()).as_str(), Some(""));
    assert_eq!(Json::whole(1).as_str(), None);
    assert_eq!(Json::Null.as_str(), None);
}

#[test]
fn builders_make_what_they_say() {
    assert_eq!(Json::text("x"), Json::Text("x".to_string()));
    assert_eq!(Json::whole(-4), Json::Number(Decimal { mantissa: -4, exponent: 0 }));
    assert_eq!(Json::decimal(5, -1), Json::Number(Decimal { mantissa: 5, exponent: -1 }));
    assert_eq!(Json::array(vec![Json::Null]), Json::Array(vec![Json::Null]));
    assert_eq!(
        Json::object(vec![member("k", Json::Null)]),
        Json::Object(vec![member("k", Json::Null)])
    );
}

#[test]
fn clone_copies_deeply() {
    let value = Json::Object(vec![
        member("list", Json::Array(vec![Json::whole(1), Json::text("two"), Json::Null])),
        member("nested", Json::Object(vec![member("flag", Json::Bool(false))])),
        member("half", Json::decimal(5, -1)),
    ]);
    let copy = value.clone();
    assert_eq!(copy, value);
    let items = vec![Json::whole(1), Json::Array(vec![Json::Null])];
    assert_eq!(clone_items(&items), items);
    let members = vec![member("a", Json::text("b")), member("c", Json::Array(vec![]))];
    assert_eq!(clone_members(&members), members);
}
