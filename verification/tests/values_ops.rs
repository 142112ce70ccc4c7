use jabroni::values::{clone_json, json_to_sql_value, str_to_sql_value_type, JsonValue, SqlValue,
    SqlValueType};

#[test]
fn declared_types_map_to_store_types() {
    assert_eq!(str_to_sql_value_type("NULL"), SqlValueType::Null);
    assert_eq!(str_to_sql_value_type("INTEGER"), SqlValueType::Integer);
    assert_eq!(str_to_sql_value_type("REAL"), SqlValueType::Real);
    assert_eq!(str_to_sql_value_type("TEXT"), SqlValueType::Text);
    assert_eq!(str_to_sql_value_type("BLOB"), SqlValueType::Blob);
}

#[test]
fn unknown_declared_type_is_text() {
    assert_eq!(str_to_sql_value_type("VARCHAR(80)"), SqlValueType::Text);
    assert_eq!(str_to_sql_value_type(""), SqlValueType::Text);
    assert_eq!(str_to_sql_value_type("integer"), SqlValueType::Text);
}

#[test]
fn scalars_coerce() {
    assert_eq!(json_to_sql_value(&JsonValue::Null), Some(SqlValue::Null));
    assert_eq!(json_to_sql_value(&JsonValue::Int(5)), Some(SqlValue::Integer(5)));
    assert_eq!(
        json_to_sql_value(&JsonValue::Real("1.5".to_string())),
        Some(SqlValue::Real("1.5".to_string()))
    );
    assert_eq!(
        json_to_sql_value(&JsonValue::Str("hi".to_string())),
        Some(SqlValue::Text("hi".to_string()))
    );
}

#[test]
fn non_scalars_do_not_coerce() {
    assert_eq!(json_to_sql_value(&JsonValue::Bool(true)), None);
    assert_eq!(json_to_sql_value(&JsonValue::Array), None);
    assert_eq!(json_to_sql_value(&JsonValue::Object), None);
}

#[test]
fn clone_preserves_value() {
    let v = JsonValue::Str("abc".to_string());
    assert_eq!(clone_json(&v), v);
    let w = JsonValue::Int(-3);
    assert_eq!(clone_json(&w), w);
}
