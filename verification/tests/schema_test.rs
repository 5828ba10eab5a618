use nexuscore_mcp::tools::{ParamDef, ToolSchema};
use serde_json::Value;

#[test]
fn test_param_def_creation() {
    let param = ParamDef::new("test_param", "string", true, "A test parameter");

    assert_eq!(param.name, "test_param");
    assert_eq!(param.param_type, "string");
    assert!(param.required);
    assert_eq!(param.description, "A test parameter");
}

#[test]
fn test_param_def_to_json() {
    let param = ParamDef::new("pid", "number", true, "Process ID");
    let json = param.to_json();

    assert_eq!(json["type"], "number");
    assert_eq!(json["description"], "Process ID");
}

#[test]
fn test_tool_schema_empty() {
    let schema = ToolSchema::empty();
    let json = schema.to_json();

    assert_eq!(json["type"], "object");
    assert!(json["properties"].as_object().unwrap().is_empty());
    assert!(json["required"].as_array().unwrap().is_empty());
}

#[test]
fn test_tool_schema_with_params() {
    let schema = ToolSchema::new(vec![
        ParamDef::new("pid", "number", true, "Process ID"),
        ParamDef::new("timeout", "number", false, "Timeout in ms"),
    ]);

    let json = schema.to_json();

    assert_eq!(json["type"], "object");
    assert_eq!(json["properties"]["pid"]["type"], "number");
    assert_eq!(json["properties"]["timeout"]["type"], "number");

    let required = json["required"].as_array().unwrap();
    assert!(required.contains(&Value::from("pid")));
    assert!(!required.contains(&Value::from("timeout")));
}

#[test]
fn test_tool_schema_additional_properties() {
    let schema = ToolSchema::empty();
    let json = schema.to_json();

    assert_eq!(json["additionalProperties"], false);
}

#[test]
fn test_schema_all_types() {
    let schema = ToolSchema::new(vec![
        ParamDef::new("str_param", "string", true, "String param"),
        ParamDef::new("num_param", "number", true, "Number param"),
        ParamDef::new("bool_param", "boolean", false, "Boolean param"),
        ParamDef::new("arr_param", "array", false, "Array param"),
        ParamDef::new("obj_param", "object", false, "Object param"),
    ]);

    let json = schema.to_json();
    let props = json["properties"].as_object().unwrap();

    assert_eq!(props.len(), 5);
    assert_eq!(props["str_param"]["type"], "string");
    assert_eq!(props["num_param"]["type"], "number");
    assert_eq!(props["bool_param"]["type"], "boolean");
    assert_eq!(props["arr_param"]["type"], "array");
    assert_eq!(props["obj_param"]["type"], "object");
}

#[test]
fn param_json_has_exactly_type_and_description() {
    let json = ParamDef::new("pid", "number", true, "Process ID").to_json();
    let members = json.as_object().unwrap();
    assert_eq!(members.len(), 2);
    assert_eq!(members["type"], Value::String("number".to_string()));
    assert_eq!(members["description"], Value::String("Process ID".to_string()));
}

#[test]
fn schema_json_has_exactly_four_members() {
    let json = ToolSchema::new(vec![ParamDef::new("a", "string", true, "A")]).to_json();
    let members = json.as_object().unwrap();
    assert_eq!(members.len(), 4);
    assert_eq!(members["type"], Value::String("object".to_string()));
    assert_eq!(members["additionalProperties"], Value::Bool(false));
    assert_eq!(members["required"], Value::Array(vec![Value::String("a".to_string())]));
    let a = members["properties"].as_object().unwrap()["a"].as_object().unwrap();
    assert_eq!(a.len(), 2);
    assert_eq!(a["type"], "string");
    assert_eq!(a["description"], "A");
}

#[test]
fn required_names_keep_declaration_order() {
    let json = ToolSchema::new(vec![
        ParamDef::new("zeta", "string", true, ""),
        ParamDef::new("skip", "string", false, ""),
        ParamDef::new("alpha", "number", true, ""),
        ParamDef::new("mid", "boolean", true, ""),
    ])
    .to_json();
    assert_eq!(
        json["required"],
        Value::Array(vec![Value::from("zeta"), Value::from("alpha"), Value::from("mid")])
    );
    assert_eq!(json["properties"].as_object().unwrap().len(), 4);
}

#[test]
fn later_parameter_of_the_same_name_stands() {
    let json = ToolSchema::new(vec![
        ParamDef::new("pid", "string", true, "first"),
        ParamDef::new("pid", "number", false, "second"),
    ])
    .to_json();
    let props = json["properties"].as_object().unwrap();
    assert_eq!(props.len(), 1);
    assert_eq!(props["pid"]["type"], "number");
    assert_eq!(props["pid"]["description"], "second");
    assert_eq!(json["required"], Value::Array(vec![Value::from("pid")]));
}
