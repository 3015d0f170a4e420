use database_connectors::convert::{
    CellValue, Decoded, RawCell, INT2_OID, INT4_OID, INT8_OID, TEXT_OID,
};
use database_connectors::json::{insert_cell, row_object, RowObject};
use serde_json::Value;

fn cell(name: &str, type_oid: u32, value: Decoded) -> RawCell {
    RawCell { name: name.to_string(), type_oid, value }
}

#[test]
fn a_row_without_cells_is_the_empty_object() {
    let object = row_object(&vec![]);
    assert!(object.is_empty());
    assert_eq!(serde_json::to_string(&object).unwrap(), "{}");
}

#[test]
fn a_row_object_holds_each_cell_under_its_column_name() {
    let object = row_object(&vec![
        cell("id", INT4_OID, Decoded::Integer(1)),
        cell("name", TEXT_OID, Decoded::Text("alice".to_string())),
        cell("note", TEXT_OID, Decoded::Null),
    ]);
    let mut expected = RowObject::new();
    expected.insert("id".to_string(), Value::from(1));
    expected.insert("name".to_string(), Value::String("alice".to_string()));
    expected.insert("note".to_string(), Value::Null);
    assert_eq!(object, expected);
    assert_eq!(object.len(), 3);
    assert_eq!(object.get("id"), Some(&Value::from(1)));
    assert_eq!(object.get("name"), Some(&Value::String("alice".to_string())));
    assert_eq!(object.get("note"), Some(&Value::Null));
    assert_eq!(object.get("other"), None);
}

#[test]
fn a_row_object_serialises_as_a_json_object() {
    let object = row_object(&vec![
        cell("id", INT4_OID, Decoded::Integer(-42)),
        cell("name", TEXT_OID, Decoded::Text("al\"ice".to_string())),
        cell("gone", INT4_OID, Decoded::Failed),
    ]);
    let text = serde_json::to_string(&Value::Object(object)).unwrap();
    let parsed: Value = serde_json::from_str(&text).unwrap();
    assert_eq!(parsed["id"], Value::from(-42));
    assert_eq!(parsed["name"], Value::String("al\"ice".to_string()));
    assert_eq!(parsed["gone"], Value::Null);
    assert!(parsed["id"].is_i64());
}

#[test]
fn a_later_cell_replaces_an_earlier_one_of_the_same_name() {
    let object = row_object(&vec![
        cell("id", INT4_OID, Decoded::Integer(1)),
        cell("id", TEXT_OID, Decoded::Text("second".to_string())),
    ]);
    assert_eq!(object.len(), 1);
    assert_eq!(object.get("id"), Some(&Value::String("second".to_string())));
}

#[test]
fn a_cell_that_could_not_be_read_does_not_spoil_the_row() {
    let object = row_object(&vec![
        cell("id", INT4_OID, Decoded::Integer(3)),
        cell("created", 1114, Decoded::Failed),
        cell("name", TEXT_OID, Decoded::Text("carol".to_string())),
    ]);
    assert_eq!(object.get("id"), Some(&Value::from(3)));
    assert_eq!(object.get("created"), Some(&Value::Null));
    assert_eq!(object.get("name"), Some(&Value::String("carol".to_string())));
}

#[test]
fn inserting_a_cell_puts_the_value_under_the_key() {
    let mut object = RowObject::new();
    insert_cell(&mut object, "a".to_string(), CellValue::Null);
    insert_cell(&mut object, "b".to_string(), CellValue::Number(i64::MIN));
    insert_cell(&mut object, "c".to_string(), CellValue::Text("text".to_string()));
    assert_eq!(object.get("a"), Some(&Value::Null));
    assert_eq!(object.get("b"), Some(&Value::from(i64::MIN)));
    assert_eq!(object.get("c"), Some(&Value::String("text".to_string())));
    assert_eq!(object.len(), 3);
}

#[test]
fn inserting_under_a_taken_key_replaces_the_value() {
    let mut object = RowObject::new();
    insert_cell(&mut object, "a".to_string(), CellValue::Number(1));
    insert_cell(&mut object, "b".to_string(), CellValue::Number(2));
    insert_cell(&mut object, "a".to_string(), CellValue::Null);
    assert_eq!(object.get("a"), Some(&Value::Null));
    assert_eq!(object.get("b"), Some(&Value::from(2)));
    assert_eq!(object.len(), 2);
}

#[test]
fn integers_of_every_width_are_numbers_in_the_row_object() {
    let object = row_object(&vec![
        cell("small", INT2_OID, Decoded::Integer(-32768)),
        cell("plain", INT4_OID, Decoded::Integer(2147483647)),
        cell("big", INT8_OID, Decoded::Integer(9223372036854775807)),
    ]);
    assert_eq!(object.get("small"), Some(&Value::from(-32768)));
    assert_eq!(object.get("plain"), Some(&Value::from(2147483647)));
    assert_eq!(object.get("big"), Some(&Value::from(i64::MAX)));
    assert_eq!(
        serde_json::to_string(&object).unwrap(),
        "{\"big\":9223372036854775807,\"plain\":2147483647,\"small\":-32768}"
    );
}
