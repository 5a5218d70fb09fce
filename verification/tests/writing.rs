use declmodel::model::{Model, Project, Variable, VariableType};
use declmodel::visitors::extract_structures_from_code;
use declmodel::writers::{class_to_string, project_to_code, var_to_string, variable_type_to_rust_type};

fn var(name: &str, optional: bool, variable_type: VariableType) -> Variable {
    Variable { name: name.to_string(), optional, value: None, variable_type }
}

#[test]
fn test_variable_type_to_rust_type() {
    assert_eq!(variable_type_to_rust_type(&VariableType::StringType), "String");
    assert_eq!(variable_type_to_rust_type(&VariableType::BoolType), "bool");
    assert_eq!(variable_type_to_rust_type(&VariableType::FloatType), "f64");
    assert_eq!(variable_type_to_rust_type(&VariableType::IntType), "i32");
    assert_eq!(
        variable_type_to_rust_type(&VariableType::ArrayType(Box::new(VariableType::StringType))),
        "Vec<String>"
    );
    assert_eq!(
        variable_type_to_rust_type(&VariableType::ArrayType(Box::new(VariableType::ArrayType(
            Box::new(VariableType::IntType)
        )))),
        "Vec<Vec<i32>>"
    );
    assert_eq!(
        variable_type_to_rust_type(&VariableType::ComplexType("Animal".to_string())),
        "Animal"
    );
}

#[test]
fn test_var_to_string() {
    assert_eq!(var_to_string(&var("name", false, VariableType::StringType)), "pub name: String,\n");
    assert_eq!(var_to_string(&var("nick", true, VariableType::IntType)), "pub nick: Option<i32>,\n");
}

#[test]
fn test_class_to_string() {
    let rendered = class_to_string(
        "Dog".to_string(),
        vec![var("name", false, VariableType::StringType), var("age", false, VariableType::FloatType)],
    );
    assert_eq!(rendered, "pub struct Dog {pub name: String,\npub age: f64,\n}");
}

#[test]
fn test_project_to_code() {
    let project = Project {
        models: vec![
            Model { name: "A".to_string(), vars: vec![var("flag", false, VariableType::BoolType)] },
            Model { name: "B".to_string(), vars: vec![] },
        ],
    };
    assert_eq!(project_to_code(project), "pub struct A {pub flag: bool,\n}\npub struct B {}\n");

    assert_eq!(project_to_code(Project { models: vec![] }), "");
}

#[test]
fn test_round_trip_flat_struct() {
    let code = r#"
        // dogs are good
        struct Dog {
            name: String, // the dog's name
            age: f64,
        }
    "#;
    let structs = extract_structures_from_code(code).unwrap();
    let vars = structs.get("Dog").unwrap().clone();
    let project = Project { models: vec![Model { name: "Dog".to_string(), vars }] };
    let rendered = project_to_code(project);

    let name_at = rendered.find("name: String").unwrap();
    let age_at = rendered.find("age: f64").unwrap();
    assert!(name_at < age_at);
    assert_eq!(rendered, "pub struct Dog {pub name: String,\npub age: f64,\n}\n");
}

#[test]
fn test_empty_declaration_round_trip() {
    let structs = extract_structures_from_code("struct Marker;").unwrap();
    let vars = structs.get("Marker").unwrap().clone();
    assert_eq!(vars.len(), 0);
    let rendered = class_to_string("Marker".to_string(), vars);
    assert_eq!(rendered, "pub struct Marker {}");
}
