use auto_toolbox::docs::{parse_doc_line, DescriptionMap};
use auto_toolbox::json::{
    decode_bool, decode_float_bits, decode_i64, decode_string, decode_u32, decode_u64, get_field,
    JsonMember, JsonValue,
};
use auto_toolbox::params::{extract, extract_function_raw, FnParam};
use auto_toolbox::schema::{rust_type_to_json_schema, DeclaredType, SchemaType};

fn named(name: &str) -> DeclaredType {
    DeclaredType::Named(name.to_string())
}

fn obj(members: Vec<(&str, JsonValue)>) -> JsonValue {
    JsonValue::Obj(
        members
            .into_iter()
            .map(|(k, v)| JsonMember { key: k.to_string(), value: v })
            .collect(),
    )
}

#[test]
fn map_type_primitives() {
    assert_eq!(rust_type_to_json_schema(&named("String")), SchemaType::Str);
    for int_name in ["i8", "i16", "i32", "i64", "i128", "isize", "u8", "u16", "u32", "u64", "u128", "usize"] {
        assert_eq!(rust_type_to_json_schema(&named(int_name)), SchemaType::Int);
    }
    assert_eq!(rust_type_to_json_schema(&named("f32")), SchemaType::Num);
    assert_eq!(rust_type_to_json_schema(&named("f64")), SchemaType::Num);
    assert_eq!(rust_type_to_json_schema(&named("bool")), SchemaType::Bool);
    assert_eq!(rust_type_to_json_schema(&named("PathBuf")), SchemaType::Obj);
    assert_eq!(rust_type_to_json_schema(&DeclaredType::Other), SchemaType::Obj);
}

#[test]
fn map_type_is_deterministic() {
    let first = rust_type_to_json_schema(&named("u32"));
    let second = rust_type_to_json_schema(&named("u32"));
    assert_eq!(first, second);
}

#[test]
fn map_type_unwraps_references() {
    let reference = DeclaredType::Reference(Box::new(named("i64")));
    assert_eq!(rust_type_to_json_schema(&reference), SchemaType::Int);
    let double = DeclaredType::Reference(Box::new(DeclaredType::Reference(Box::new(named(
        "String",
    )))));
    assert_eq!(rust_type_to_json_schema(&double), SchemaType::Str);
}

#[test]
fn schema_names() {
    assert_eq!(SchemaType::Str.as_str(), "string");
    assert_eq!(SchemaType::Int.as_str(), "integer");
    assert_eq!(SchemaType::Num.as_str(), "number");
    assert_eq!(SchemaType::Bool.as_str(), "boolean");
    assert_eq!(SchemaType::Obj.as_str(), "object");
}

#[test]
fn doc_line_plain() {
    let parsed = parse_doc_line(" `normalcy` - Totally normal thing you trust an LLM to do");
    let (name, desc) = parsed.expect("the line follows the convention");
    assert_eq!(name, "normalcy");
    assert_eq!(desc, "Totally normal thing you trust an LLM to do");
}

#[test]
fn doc_line_list_marker() {
    let parsed = parse_doc_line(" * `secret_key` - The secret key used for things");
    let (name, desc) = parsed.expect("the line follows the convention");
    assert_eq!(name, "secret_key");
    assert_eq!(desc, "The secret key used for things");
}

#[test]
fn doc_line_empty_description() {
    let parsed = parse_doc_line("`k` - ");
    let (name, desc) = parsed.expect("the line follows the convention");
    assert_eq!(name, "k");
    assert_eq!(desc, "");
}

#[test]
fn doc_line_rejected() {
    assert!(parse_doc_line("no backticks here").is_none());
    assert!(parse_doc_line("`only_one_tick - text").is_none());
    assert!(parse_doc_line("`name`").is_none());
    assert!(parse_doc_line("`name`word right after").is_none());
}

#[test]
fn description_map_lookup_and_override() {
    let mut map = DescriptionMap::new();
    map.insert("a".to_string(), "first".to_string());
    map.insert("b".to_string(), "second".to_string());
    map.insert("a".to_string(), "third".to_string());
    assert_eq!(map.get("a").map(|s| s.as_str()), Some("third"));
    assert_eq!(map.get("b").map(|s| s.as_str()), Some("second"));
    assert!(map.get("c").is_none());
}

#[test]
fn extract_keeps_order_and_defaults_description() {
    let params = vec![
        FnParam::Named("alpha".to_string(), named("String")),
        FnParam::Named("beta".to_string(), named("u32")),
    ];
    let mut descs = DescriptionMap::new();
    descs.insert("alpha".to_string(), "the first".to_string());
    let out = extract(&params, &descs);
    assert_eq!(out.len(), 2);
    assert_eq!(out[0].name, "alpha");
    assert_eq!(out[0].schema_type, SchemaType::Str);
    assert_eq!(out[0].description, "the first");
    assert_eq!(out[1].name, "beta");
    assert_eq!(out[1].schema_type, SchemaType::Int);
    assert_eq!(out[1].description, "");
}

#[test]
fn extract_skips_receiver_and_destructured() {
    let params = vec![
        FnParam::Receiver,
        FnParam::Destructured(DeclaredType::Other),
        FnParam::Named("kept".to_string(), named("bool")),
    ];
    let raw = extract_function_raw(&params);
    assert_eq!(raw.len(), 1);
    assert_eq!(raw[0].name, "kept");
    assert_eq!(raw[0].description, "");
    let out = extract(&params, &DescriptionMap::new());
    assert_eq!(out.len(), 1);
    assert_eq!(out[0].name, "kept");
    assert_eq!(out[0].schema_type, SchemaType::Bool);
}

#[test]
fn get_field_reads_objects_only() {
    let args = obj(vec![
        ("x", JsonValue::Int(-3)),
        ("y", JsonValue::Str("hi".to_string())),
    ]);
    assert_eq!(get_field(&args, "x"), Some(&JsonValue::Int(-3)));
    assert_eq!(get_field(&args, "y"), Some(&JsonValue::Str("hi".to_string())));
    assert_eq!(get_field(&args, "z"), None);
    assert_eq!(get_field(&JsonValue::Null, "x"), None);
    assert_eq!(get_field(&JsonValue::Arr(vec![]), "x"), None);
}

#[test]
fn get_field_first_member_wins() {
    let args = obj(vec![
        ("k", JsonValue::Int(1)),
        ("k", JsonValue::Int(2)),
    ]);
    assert_eq!(get_field(&args, "k"), Some(&JsonValue::Int(1)));
}

#[test]
fn decode_string_accepts_strings_only() {
    assert_eq!(decode_string(&JsonValue::Str("v".to_string())), Some("v".to_string()));
    assert_eq!(decode_string(&JsonValue::Int(1)), None);
    assert_eq!(decode_string(&JsonValue::Null), None);
}

#[test]
fn decode_u32_ranges() {
    assert_eq!(decode_u32(&JsonValue::UInt(5)), Some(5));
    assert_eq!(decode_u32(&JsonValue::Int(7)), Some(7));
    assert_eq!(decode_u32(&JsonValue::UInt(u32::MAX as u64)), Some(u32::MAX));
    assert_eq!(decode_u32(&JsonValue::UInt(u32::MAX as u64 + 1)), None);
    assert_eq!(decode_u32(&JsonValue::Int(-1)), None);
    assert_eq!(decode_u32(&JsonValue::Float(3.0f64.to_bits())), None);
    assert_eq!(decode_u32(&JsonValue::Str("5".to_string())), None);
}

#[test]
fn decode_i64_ranges() {
    assert_eq!(decode_i64(&JsonValue::Int(-9)), Some(-9));
    assert_eq!(decode_i64(&JsonValue::UInt(9)), Some(9));
    assert_eq!(decode_i64(&JsonValue::UInt(i64::MAX as u64)), Some(i64::MAX));
    assert_eq!(decode_i64(&JsonValue::UInt(i64::MAX as u64 + 1)), None);
    assert_eq!(decode_i64(&JsonValue::Bool(true)), None);
}

#[test]
fn decode_u64_ranges() {
    assert_eq!(decode_u64(&JsonValue::UInt(u64::MAX)), Some(u64::MAX));
    assert_eq!(decode_u64(&JsonValue::Int(3)), Some(3));
    assert_eq!(decode_u64(&JsonValue::Int(-3)), None);
    assert_eq!(decode_u64(&JsonValue::Null), None);
}

#[test]
fn decode_bool_and_float_bits() {
    assert_eq!(decode_bool(&JsonValue::Bool(true)), Some(true));
    assert_eq!(decode_bool(&JsonValue::Int(1)), None);
    let bits = 2.5f64.to_bits();
    assert_eq!(decode_float_bits(&JsonValue::Float(bits)), Some(bits));
    assert_eq!(decode_float_bits(&JsonValue::UInt(2)), None);
}
