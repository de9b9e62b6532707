use oviec::case_names::{camel_to_snake, snake_to_camel};

#[test]
fn camel_case_to_snake_case() {
    assert_eq!(camel_to_snake("fieldName"), "field_name");
    assert_eq!(camel_to_snake("FieldName"), "Field_name");
    assert_eq!(camel_to_snake("aBC"), "a_b_c");
    assert_eq!(camel_to_snake(""), "");
    assert_eq!(camel_to_snake("ünïCode"), "ünï_code");
}

#[test]
fn snake_case_to_camel_case() {
    assert_eq!(snake_to_camel("field_name"), "fieldName");
    assert_eq!(snake_to_camel("plain"), "plain");
    assert_eq!(snake_to_camel("a__b"), "aB");
    assert_eq!(snake_to_camel("_x"), "X");
    assert_eq!(snake_to_camel("trailing_"), "trailing");
    assert_eq!(snake_to_camel("ß_ärger"), "ßÄrger");
}
