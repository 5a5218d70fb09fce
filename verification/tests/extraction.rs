use declmodel::model::{ExtractError, VariableType};
use declmodel::visitors::{
    extract_structures_from_code, syn_type_to_cdd_type, try_extract_structures_from_code,
};

#[test]
fn test_expr_parse() {
    let code = r#"
        // a comment
        struct StructOne { example: String }
        struct StructTwo;
    "#;
    let structs = extract_structures_from_code(code).unwrap();

    assert!(structs.contains_key("StructOne"));
    assert!(structs.contains_key("StructTwo"));
    assert_eq!(structs.len(), 2);
    assert_eq!(structs.get("StructOne").unwrap().len(), 1);
    assert_eq!(structs.get("StructTwo").unwrap().len(), 0);
}

#[test]
fn test_var_parse() {
    let code = r#"
        struct Dog {
            name: String,
            age: f64,
        }
    "#;
    let structs = extract_structures_from_code(code).unwrap();

    assert!(structs.contains_key("Dog"));
    assert_eq!(structs.len(), 1);
    assert_eq!(structs.get("Dog").unwrap().len(), 2);

    let dog_name = structs.get("Dog").unwrap().iter().find(|v| v.name == "name").unwrap().clone();

    assert_eq!(dog_name.variable_type, VariableType::StringType);

    let dog_age = structs.get("Dog").unwrap().iter().find(|&v| v.name == "age").unwrap().clone();

    assert_eq!(dog_age.variable_type, VariableType::FloatType);
}

#[test]
fn test_type_classification_totality() {
    assert_eq!(syn_type_to_cdd_type("String"), VariableType::StringType);
    assert_eq!(syn_type_to_cdd_type("u32"), VariableType::IntType);
    assert_eq!(syn_type_to_cdd_type("u64"), VariableType::IntType);
    assert_eq!(syn_type_to_cdd_type("i32"), VariableType::IntType);
    assert_eq!(syn_type_to_cdd_type("i64"), VariableType::IntType);
    assert_eq!(syn_type_to_cdd_type("f64"), VariableType::FloatType);
    assert_eq!(syn_type_to_cdd_type("bool"), VariableType::BoolType);
    assert_eq!(
        syn_type_to_cdd_type("Vec"),
        VariableType::ArrayType(Box::new(VariableType::StringType))
    );
    assert_eq!(
        syn_type_to_cdd_type("AnyOtherIdentifier"),
        VariableType::ComplexType("AnyOtherIdentifier".to_string())
    );
}

#[test]
fn test_optional_flag_detection() {
    let code = "struct Settings { theme: Option<String>, depth: Option<u64> }";
    let structs = extract_structures_from_code(code).unwrap();
    let vars = structs.get("Settings").unwrap();
    assert_eq!(vars.len(), 2);
    assert!(vars[0].optional);
    assert!(vars[1].optional);
    assert_eq!(vars[0].variable_type, VariableType::ComplexType("None".to_string()));
    assert_eq!(vars[1].variable_type, VariableType::ComplexType("None".to_string()));
    assert!(!vars[0].name.is_empty());
    assert_eq!(vars[0].name, "theme");
    assert_eq!(vars[1].name, "depth");
}

#[test]
fn test_multiplicity() {
    let code = r#"
        struct Cat { lives: u32 }
        fn not_a_struct() {}
        struct Tree { height: f64, species: String }
    "#;
    let structs = extract_structures_from_code(code).unwrap();
    assert_eq!(structs.len(), 2);
    assert_eq!(structs.get("Cat").unwrap().len(), 1);
    assert_eq!(structs.get("Tree").unwrap().len(), 2);
    assert_eq!(structs.get("Cat").unwrap()[0].name, "lives");
    assert_eq!(structs.get("Tree").unwrap()[0].name, "height");
    assert_eq!(structs.get("Tree").unwrap()[1].name, "species");
}

#[test]
fn test_last_write_wins() {
    let code = r#"
        struct Config { old_field: u32 }
        struct Config { fresh_field: bool }
    "#;
    let structs = extract_structures_from_code(code).unwrap();
    assert_eq!(structs.len(), 1);
    let vars = structs.get("Config").unwrap();
    assert_eq!(vars.len(), 1);
    assert_eq!(vars[0].name, "fresh_field");
    assert_eq!(vars[0].variable_type, VariableType::BoolType);
}

#[test]
fn test_unnamed_field_fatal() {
    let code = r#"
        struct Named { value: u32 }
        struct Positional(u32, bool);
    "#;
    let result = extract_structures_from_code(code);
    assert_eq!(result, Err(ExtractError::UnnamedFieldFailure));
}

#[test]
fn test_parse_failure() {
    let result = extract_structures_from_code("struct Broken {");
    assert_eq!(result, Err(ExtractError::ParseFailure));
}

#[test]
fn test_try_extract_non_path_type() {
    let checked = try_extract_structures_from_code("struct Pair { both: (u32, u32) }");
    assert!(checked.is_none());

    let good = try_extract_structures_from_code("struct One { value: u32 }").unwrap().unwrap();
    assert_eq!(good.len(), 1);
    assert_eq!(good.get("One").unwrap()[0].variable_type, VariableType::IntType);

    let bad = try_extract_structures_from_code("not rust at all }{").unwrap();
    assert_eq!(bad, Err(ExtractError::ParseFailure));
}

#[test]
fn test_generic_argument_ignored() {
    let code = "struct Bag { items: Vec<u64>, tags: std::collections::HashSet<String> }";
    let structs = extract_structures_from_code(code).unwrap();
    let vars = structs.get("Bag").unwrap();
    assert_eq!(vars[0].variable_type, VariableType::ArrayType(Box::new(VariableType::StringType)));
    assert!(!vars[0].optional);
    assert_eq!(vars[1].variable_type, VariableType::ComplexType("std".to_string()));
}

#[test]
fn test_empty_value_placeholder() {
    let code = "struct Point { x: i64 }";
    let structs = extract_structures_from_code(code).unwrap();
    assert_eq!(structs.get("Point").unwrap()[0].value, None);
}
