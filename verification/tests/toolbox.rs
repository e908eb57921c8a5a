use auto_toolbox::chest::studley_toolbox;
use auto_toolbox::descriptor::{
    build_descriptor, descriptor_to_json, parse_descriptor_json, tool_json_for_fn,
    RegistrationError,
};
use auto_toolbox::json::{decode_float_bits, decode_i64, get_field, JsonMember, JsonValue};
use auto_toolbox::params::FnParam;
use auto_toolbox::registry::{toolbox, ToolSet, ToolSpec};
use auto_toolbox::schema::DeclaredType;

fn named(name: &str) -> DeclaredType {
    DeclaredType::Named(name.to_string())
}

fn obj(members: Vec<(&str, JsonValue)>) -> JsonValue {
    JsonValue::Obj(
        members
            .into_iter()
            .map(|(k, v)| JsonMember { key: k.to_string(), value: v })
            .collect(),
    )
}

fn field<'a>(v: &'a JsonValue, key: &str) -> &'a JsonValue {
    get_field(v, key).expect("the document carries the field")
}

fn json_str(text: &str) -> JsonValue {
    JsonValue::Str(text.to_string())
}

#[test]
fn studley_names_in_registration_order() {
    let registry = studley_toolbox().expect("the chest registers cleanly");
    let names = registry.names();
    assert_eq!(
        names,
        vec![
            "totally_normal_function".to_string(),
            "some_secret_third_function".to_string(),
            "bolt_tightener".to_string(),
            "new_tool".to_string(),
        ]
    );
}

#[test]
fn studley_dispatch_each_tool_independently() {
    let registry = studley_toolbox().expect("the chest registers cleanly");
    let r = registry.dispatch(
        "totally_normal_function",
        obj(vec![("normalcy", json_str("hi"))]),
    );
    assert_eq!(r, json_str("see this is normal right? hi"));
    let r = registry.dispatch(
        "some_secret_third_function",
        obj(vec![("secret_key", json_str("s3")), ("query", json_str("why"))]),
    );
    assert_eq!(r, json_str("s3 why"));
    let r = registry.dispatch(
        "bolt_tightener",
        obj(vec![("bolt_location", json_str("garage"))]),
    );
    assert_eq!(r, json_str("I might have tightend the bolt located here: garage"));
    let r = registry.dispatch(
        "new_tool",
        obj(vec![("rotations", JsonValue::UInt(5)), ("brand", json_str("acme"))]),
    );
    assert_eq!(r, JsonValue::UInt(5));
}

#[test]
fn dispatch_unknown_name_yields_sentinel() {
    let registry = studley_toolbox().expect("the chest registers cleanly");
    let r = registry.dispatch("nonexistent_name", obj(vec![]));
    assert_eq!(r, json_str("function not found"));
}

#[test]
fn dispatch_missing_key_yields_failure_string() {
    let registry = studley_toolbox().expect("the chest registers cleanly");
    let r = registry.dispatch("totally_normal_function", obj(vec![]));
    assert_eq!(r, json_str("invalid arguments"));
}

#[test]
fn dispatch_mistyped_argument_yields_failure_string() {
    let registry = studley_toolbox().expect("the chest registers cleanly");
    let r = registry.dispatch(
        "new_tool",
        obj(vec![("rotations", json_str("five")), ("brand", json_str("acme"))]),
    );
    assert_eq!(r, json_str("invalid arguments"));
    let r = registry.dispatch(
        "new_tool",
        obj(vec![("rotations", JsonValue::Int(-1)), ("brand", json_str("acme"))]),
    );
    assert_eq!(r, json_str("invalid arguments"));
}

#[test]
fn studley_catalog_first_entry_shape() {
    let registry = studley_toolbox().expect("the chest registers cleanly");
    let catalog = registry.descriptor_catalog();
    let items = match &catalog {
        JsonValue::Arr(items) => items,
        other => panic!("the catalog is an array, got {:?}", other),
    };
    assert_eq!(items.len(), 4);
    let entry = &items[0];
    assert_eq!(field(entry, "type"), &json_str("function"));
    let function = field(entry, "function");
    assert_eq!(field(function, "name"), &json_str("totally_normal_function"));
    assert_eq!(field(function, "description"), &json_str("a normal function to do stuff"));
    let parameters = field(function, "parameters");
    assert_eq!(field(parameters, "type"), &json_str("object"));
    assert_eq!(
        field(parameters, "required"),
        &JsonValue::Arr(vec![json_str("normalcy")])
    );
    let properties = field(parameters, "properties");
    let normalcy = field(properties, "normalcy");
    assert_eq!(field(normalcy, "type"), &json_str("string"));
    assert_eq!(
        field(normalcy, "description"),
        &json_str("Totally normal thing you trust an LLM to do")
    );
}

#[test]
fn catalog_round_trip_reproduces_registration_inputs() {
    let registry = studley_toolbox().expect("the chest registers cleanly");
    let catalog = registry.descriptor_catalog();
    let items = match catalog {
        JsonValue::Arr(items) => items,
        other => panic!("the catalog is an array, got {:?}", other),
    };
    let expected_names = [
        "totally_normal_function",
        "some_secret_third_function",
        "bolt_tightener",
        "new_tool",
    ];
    let expected_descriptions = [
        "a normal function to do stuff",
        "this is a secret third function",
        "tightens a bolt",
        "this is a new tool",
    ];
    let expected_params: [&[&str]; 4] = [
        &["normalcy"],
        &["secret_key", "query"],
        &["bolt_location"],
        &["rotations", "brand"],
    ];
    for (i, item) in items.iter().enumerate() {
        let d = parse_descriptor_json(item).expect("a built entry parses back");
        assert_eq!(d.name, expected_names[i]);
        assert_eq!(d.description, expected_descriptions[i]);
        let names: Vec<&str> = d.params.iter().map(|p| p.name.as_str()).collect();
        assert_eq!(names, expected_params[i]);
    }
}

#[test]
fn descriptor_round_trip_exactly() {
    let params = vec![
        FnParam::Named("alpha".to_string(), named("String")),
        FnParam::Named("beta".to_string(), named("u32")),
    ];
    let doc_lines = vec![
        "`alpha` - the first".to_string(),
        "`beta` - the second".to_string(),
    ];
    let built = build_descriptor(
        "demo".to_string(),
        "a demo function".to_string(),
        &params,
        &doc_lines,
    )
    .expect("the lines follow the convention");
    let json = descriptor_to_json(&built);
    let reparsed = parse_descriptor_json(&json).expect("a rendered descriptor parses back");
    assert_eq!(reparsed, built);
}

#[test]
fn tool_json_for_fn_rejects_malformed_doc_line() {
    let params = vec![FnParam::Named("a".to_string(), named("String"))];
    let doc_lines = vec!["this line has no backtick pair".to_string()];
    let r = tool_json_for_fn("demo".to_string(), "text".to_string(), &params, &doc_lines);
    assert_eq!(r.unwrap_err(), RegistrationError::MalformedDocLine);
}

struct SilentSet;

impl ToolSet for SilentSet {
    fn invoke(&self, _i: usize, _args: JsonValue) -> JsonValue {
        JsonValue::Null
    }
}

#[test]
fn duplicate_name_refused() {
    let make = || ToolSpec {
        name: "same".to_string(),
        description: "text".to_string(),
        params: vec![],
        doc_lines: vec![],
    };
    let r = toolbox(SilentSet, vec![make(), make()]);
    assert!(matches!(r, Err(RegistrationError::DuplicateName)));
}

#[test]
fn malformed_doc_line_refused_at_registration() {
    let spec = ToolSpec {
        name: "broken".to_string(),
        description: "text".to_string(),
        params: vec![],
        doc_lines: vec!["no convention here".to_string()],
    };
    let r = toolbox(SilentSet, vec![spec]);
    assert!(matches!(r, Err(RegistrationError::MalformedDocLine)));
}

#[test]
fn empty_registry_dispatch_yields_sentinel() {
    let registry = match toolbox(SilentSet, vec![]) {
        Ok(r) => r,
        Err(e) => panic!("an empty registration succeeds, got {:?}", e),
    };
    let r = registry.dispatch("anything", obj(vec![]));
    assert_eq!(r, json_str("function not found"));
}

fn lid_tightener(rotations: f64) -> Result<String, String> {
    Ok(format!("tightened the lid with {} rotations", rotations))
}

struct LidChest;

impl ToolSet for LidChest {
    fn invoke(&self, _i: usize, args: JsonValue) -> JsonValue {
        let rotations = match get_field(&args, "rotations").and_then(decode_float_bits) {
            Some(bits) => f64::from_bits(bits),
            None => return json_str("invalid arguments"),
        };
        match lid_tightener(rotations) {
            Ok(s) => JsonValue::Str(s),
            Err(e) => JsonValue::Str(e),
        }
    }
}

#[test]
fn lid_tightener_end_to_end() {
    let spec = ToolSpec {
        name: "lid_tightener".to_string(),
        description: "tightens a lid".to_string(),
        params: vec![FnParam::Named("rotations".to_string(), named("f64"))],
        doc_lines: vec!["`rotations` - number of rotations".to_string()],
    };
    let registry = toolbox(LidChest, vec![spec]).expect("the lid tool registers cleanly");

    let catalog = registry.descriptor_catalog();
    let items = match &catalog {
        JsonValue::Arr(items) => items,
        other => panic!("the catalog is an array, got {:?}", other),
    };
    assert_eq!(items.len(), 1);
    let function = field(&items[0], "function");
    assert_eq!(field(function, "name"), &json_str("lid_tightener"));
    let parameters = field(function, "parameters");
    assert_eq!(
        field(parameters, "required"),
        &JsonValue::Arr(vec![json_str("rotations")])
    );
    let rotations = field(field(parameters, "properties"), "rotations");
    assert_eq!(field(rotations, "type"), &json_str("number"));
    assert_eq!(field(rotations, "description"), &json_str("number of rotations"));

    let r = registry.dispatch(
        "lid_tightener",
        obj(vec![("rotations", JsonValue::Float(3.0f64.to_bits()))]),
    );
    assert_eq!(r, json_str("tightened the lid with 3 rotations"));
}

struct PickyChest;

impl ToolSet for PickyChest {
    fn invoke(&self, _i: usize, args: JsonValue) -> JsonValue {
        let x = match get_field(&args, "x").and_then(decode_i64) {
            Some(v) => v,
            None => return json_str("invalid arguments"),
        };
        json_str(&format!("got {}", x))
    }
}

#[test]
fn destructured_parameter_is_skipped() {
    let spec = ToolSpec {
        name: "picky".to_string(),
        description: "keeps only the simple parameter".to_string(),
        params: vec![
            FnParam::Destructured(DeclaredType::Other),
            FnParam::Named("x".to_string(), named("i64")),
        ],
        doc_lines: vec!["`x` - the simple one".to_string()],
    };
    let registry = toolbox(PickyChest, vec![spec]).expect("the tool registers cleanly");

    let catalog = registry.descriptor_catalog();
    let items = match &catalog {
        JsonValue::Arr(items) => items,
        other => panic!("the catalog is an array, got {:?}", other),
    };
    let parameters = field(field(&items[0], "function"), "parameters");
    assert_eq!(field(parameters, "required"), &JsonValue::Arr(vec![json_str("x")]));
    let d = parse_descriptor_json(&items[0]).expect("the entry parses back");
    assert_eq!(d.params.len(), 1);
    assert_eq!(d.params[0].name, "x");

    let r = registry.dispatch("picky", obj(vec![("x", JsonValue::Int(4))]));
    assert_eq!(r, json_str("got 4"));
}
