//! An example toolbox: a tool chest of a few callable functions, each with
//! its invocation wrapper, registered together as one registry. The chest
//! is named after Henry O. Studley's famously well-organised tool chest.

use vstd::prelude::*;
use crate::json::{
    decode_string, decode_u32, get_field, spec_arg, spec_decode_string, spec_decode_u32, JsonVal,
    JsonValue,
};
use crate::params::{FnParam, FnParamShape};
use crate::registry::{
    spec_build_toolbox, toolbox, spec_tool_spec_shapes, ToolSet, ToolSpec, ToolSpecShape,
    ToolboxRegistry,
};
use crate::descriptor::RegistrationError;
use crate::schema::{DeclaredType, TypeShape};

verus! {

/// Relied on only as the error type of the chest's functions; none of them
/// ever constructs one.
#[verifier::external_type_specification]
#[verifier::external_body]
pub struct ExIoError(std::io::Error);

/// The example tool chest. Its functions are pure: each always succeeds,
/// and the error slot in their signatures is never filled.
pub struct StudleyToolChest;

impl StudleyToolChest {
    /// Echoes its input behind a reassuring prefix.
    pub fn totally_normal_function(normalcy: String) -> (r: Result<String, std::io::Error>)
        ensures
            r matches Ok(s) && s@ == "see this is normal right? "@ + normalcy@,
    {
        Ok(String::from_str("see this is normal right? ").concat(normalcy.as_str()))
    }

    /// Joins the key and the query with one space.
    pub fn some_secret_third_function(secret_key: String, query: String) -> (r: Result<
        String,
        std::io::Error,
    >)
        ensures
            r matches Ok(s) && s@ == secret_key@ + " "@ + query@,
    {
        Ok(secret_key.concat(" ").concat(query.as_str()))
    }

    /// Reports on the bolt at the given location.
    pub fn bolt_tightener(bolt_location: String) -> (r: Result<String, std::io::Error>)
        ensures
            r matches Ok(s) && s@ == "I might have tightend the bolt located here: "@
                + bolt_location@,
    {
        Ok(
            String::from_str("I might have tightend the bolt located here: ").concat(
                bolt_location.as_str(),
            ),
        )
    }

    /// Hands the rotation count back.
    pub fn new_tool(rotations: u32, brand: String) -> (r: Result<u32, std::io::Error>)
        ensures
            r matches Ok(v) && v == rotations,
    {
        let _ = brand;
        Ok(rotations)
    }
}

/// The failure-channel value a wrapper yields when the arguments object
/// cannot be decoded: a plain JSON string, as a failing tool would yield.
pub open spec fn spec_invalid_args() -> JsonVal {
    JsonVal::Str("invalid arguments"@)
}

fn invalid_args() -> (r: JsonValue)
    ensures
        r@ == spec_invalid_args(),
{
    JsonValue::Str(String::from_str("invalid arguments"))
}

/// What the wrapper around `totally_normal_function` yields.
pub open spec fn spec_value_fn_totally_normal_function(input: JsonVal) -> JsonVal {
    match spec_arg(input, "normalcy"@) {
        Some(v) => match spec_decode_string(v) {
            Some(normalcy) => JsonVal::Str("see this is normal right? "@ + normalcy),
            None => spec_invalid_args(),
        },
        None => spec_invalid_args(),
    }
}

/// Invocation wrapper: decodes `normalcy`, calls the function, and encodes
/// the outcome as a JSON value; a missing or mistyped argument yields the
/// failure-channel string instead of an error.
pub fn value_fn_totally_normal_function(input: JsonValue) -> (r: JsonValue)
    ensures
        r@ == spec_value_fn_totally_normal_function(input@),
{
    let field = match get_field(&input, "normalcy") {
        Some(f) => f,
        None => {
            return invalid_args();
        },
    };
    let normalcy = match decode_string(field) {
        Some(s) => s,
        None => {
            return invalid_args();
        },
    };
    match StudleyToolChest::totally_normal_function(normalcy) {
        Ok(s) => JsonValue::Str(s),
        Err(e) => JsonValue::Str(e.to_string()),
    }
}

/// What the wrapper around `some_secret_third_function` yields.
pub open spec fn spec_value_fn_some_secret_third_function(input: JsonVal) -> JsonVal {
    match spec_arg(input, "secret_key"@) {
        Some(kv) => match spec_decode_string(kv) {
            Some(secret_key) => match spec_arg(input, "query"@) {
                Some(qv) => match spec_decode_string(qv) {
                    Some(query) => JsonVal::Str(secret_key + " "@ + query),
                    None => spec_invalid_args(),
                },
                None => spec_invalid_args(),
            },
            None => spec_invalid_args(),
        },
        None => spec_invalid_args(),
    }
}

/// Invocation wrapper: decodes `secret_key` and `query` and encodes the
/// function's outcome.
pub fn value_fn_some_secret_third_function(input: JsonValue) -> (r: JsonValue)
    ensures
        r@ == spec_value_fn_some_secret_third_function(input@),
{
    let kfield = match get_field(&input, "secret_key") {
        Some(f) => f,
        None => {
            return invalid_args();
        },
    };
    let secret_key = match decode_string(kfield) {
        Some(s) => s,
        None => {
            return invalid_args();
        },
    };
    let qfield = match get_field(&input, "query") {
        Some(f) => f,
        None => {
            return invalid_args();
        },
    };
    let query = match decode_string(qfield) {
        Some(s) => s,
        None => {
            return invalid_args();
        },
    };
    match StudleyToolChest::some_secret_third_function(secret_key, query) {
        Ok(s) => JsonValue::Str(s),
        Err(e) => JsonValue::Str(e.to_string()),
    }
}

/// What the wrapper around `bolt_tightener` yields.
pub open spec fn spec_value_fn_bolt_tightener(input: JsonVal) -> JsonVal {
    match spec_arg(input, "bolt_location"@) {
        Some(v) => match spec_decode_string(v) {
            Some(bolt_location) => JsonVal::Str(
                "I might have tightend the bolt located here: "@ + bolt_location,
            ),
            None => spec_invalid_args(),
        },
        None => spec_invalid_args(),
    }
}

/// Invocation wrapper: decodes `bolt_location` and encodes the function's
/// outcome.
pub fn value_fn_bolt_tightener(input: JsonValue) -> (r: JsonValue)
    ensures
        r@ == spec_value_fn_bolt_tightener(input@),
{
    let field = match get_field(&input, "bolt_location") {
        Some(f) => f,
        None => {
            return invalid_args();
        },
    };
    let bolt_location = match decode_string(field) {
        Some(s) => s,
        None => {
            return invalid_args();
        },
    };
    match StudleyToolChest::bolt_tightener(bolt_location) {
        Ok(s) => JsonValue::Str(s),
        Err(e) => JsonValue::Str(e.to_string()),
    }
}

/// What the wrapper around `new_tool` yields.
pub open spec fn spec_value_fn_new_tool(input: JsonVal) -> JsonVal {
    match spec_arg(input, "rotations"@) {
        Some(rv) => match spec_decode_u32(rv) {
            Some(rotations) => match spec_arg(input, "brand"@) {
                Some(bv) => match spec_decode_string(bv) {
                    Some(_) => JsonVal::UInt(rotations as int),
                    None => spec_invalid_args(),
                },
                None => spec_invalid_args(),
            },
            None => spec_invalid_args(),
        },
        None => spec_invalid_args(),
    }
}

/// Invocation wrapper: decodes `rotations` and `brand` and encodes the
/// function's numeric outcome.
pub fn value_fn_new_tool(input: JsonValue) -> (r: JsonValue)
    ensures
        r@ == spec_value_fn_new_tool(input@),
{
    let rfield = match get_field(&input, "rotations") {
        Some(f) => f,
        None => {
            return invalid_args();
        },
    };
    let rotations = match decode_u32(rfield) {
        Some(v) => v,
        None => {
            return invalid_args();
        },
    };
    let bfield = match get_field(&input, "brand") {
        Some(f) => f,
        None => {
            return invalid_args();
        },
    };
    let brand = match decode_string(bfield) {
        Some(s) => s,
        None => {
            return invalid_args();
        },
    };
    match StudleyToolChest::new_tool(rotations, brand) {
        Ok(v) => JsonValue::UInt(v as u64),
        Err(e) => JsonValue::Str(e.to_string()),
    }
}

impl ToolSet for StudleyToolChest {
    open spec fn tool_count(&self) -> nat {
        4
    }

    open spec fn invoke_post(&self, i: int, args: JsonVal, r: JsonVal) -> bool {
        if i == 0 {
            r == spec_value_fn_totally_normal_function(args)
        } else if i == 1 {
            r == spec_value_fn_some_secret_third_function(args)
        } else if i == 2 {
            r == spec_value_fn_bolt_tightener(args)
        } else if i == 3 {
            r == spec_value_fn_new_tool(args)
        } else {
            true
        }
    }

    fn invoke(&self, i: usize, args: JsonValue) -> (r: JsonValue) {
        if i == 0 {
            value_fn_totally_normal_function(args)
        } else if i == 1 {
            value_fn_some_secret_third_function(args)
        } else if i == 2 {
            value_fn_bolt_tightener(args)
        } else {
            value_fn_new_tool(args)
        }
    }
}

/// A call whose arguments object misses a wrapper's first required key is
/// answered on the failure channel — the invalid-arguments JSON string —
/// rather than by a crash: each of the chest's wrappers is total.
pub proof fn lemma_missing_argument_yields_failure(input: JsonVal)
    ensures
        spec_arg(input, "normalcy"@) is None ==> spec_value_fn_totally_normal_function(input)
            == spec_invalid_args(),
        spec_arg(input, "secret_key"@) is None ==> spec_value_fn_some_secret_third_function(input)
            == spec_invalid_args(),
        spec_arg(input, "bolt_location"@) is None ==> spec_value_fn_bolt_tightener(input)
            == spec_invalid_args(),
        spec_arg(input, "rotations"@) is None ==> spec_value_fn_new_tool(input)
            == spec_invalid_args(),
{
}

/// The chest's registration inputs: each function's name, description,
/// parameter list, and documentation lines, in registration order.
pub open spec fn spec_studley_specs() -> Seq<ToolSpecShape> {
    seq![
        ToolSpecShape {
            name: "totally_normal_function"@,
            description: "a normal function to do stuff"@,
            params: seq![FnParamShape::Named("normalcy"@, TypeShape::Named("String"@))],
            doc_lines: seq![" `normalcy` - Totally normal thing you trust an LLM to do"@],
        },
        ToolSpecShape {
            name: "some_secret_third_function"@,
            description: "this is a secret third function"@,
            params: seq![
                FnParamShape::Named("secret_key"@, TypeShape::Named("String"@)),
                FnParamShape::Named("query"@, TypeShape::Named("String"@)),
            ],
            doc_lines: seq![
                " * `secret_key` - The secret key used for things"@,
                " * `query` - The query you want to ask"@,
            ],
        },
        ToolSpecShape {
            name: "bolt_tightener"@,
            description: "tightens a bolt"@,
            params: seq![FnParamShape::Named("bolt_location"@, TypeShape::Named("String"@))],
            doc_lines: seq![" `bolt_location` - Location of bolt in need of tightening"@],
        },
        ToolSpecShape {
            name: "new_tool"@,
            description: "this is a new tool"@,
            params: seq![
                FnParamShape::Named("rotations"@, TypeShape::Named("u32"@)),
                FnParamShape::Named("brand"@, TypeShape::Named("String"@)),
            ],
            doc_lines: seq![
                " `rotations` - number of rotations"@,
                " `brand` - brand of new tool"@,
            ],
        },
    ]
}

/// A parameter bound to a simple name, of a named declared type.
fn named_param(name: &str, ty: &str) -> (r: FnParam)
    ensures
        r@ == FnParamShape::Named(name@, TypeShape::Named(ty@)),
{
    FnParam::Named(String::from_str(name), DeclaredType::Named(String::from_str(ty)))
}

/// The chest's registration inputs, as values.
pub fn studley_tool_specs() -> (r: Vec<ToolSpec>)
    ensures
        spec_tool_spec_shapes(r@) == spec_studley_specs(),
{
    let mut specs: Vec<ToolSpec> = Vec::new();

    let mut params: Vec<FnParam> = Vec::new();
    params.push(named_param("normalcy", "String"));
    let mut doc_lines: Vec<String> = Vec::new();
    doc_lines.push(String::from_str(" `normalcy` - Totally normal thing you trust an LLM to do"));
    let tool = ToolSpec {
        name: String::from_str("totally_normal_function"),
        description: String::from_str("a normal function to do stuff"),
        params,
        doc_lines,
    };
    proof {
        assert(crate::params::spec_param_shapes(tool.params@) =~= spec_studley_specs()[0].params);
        assert(crate::docs::spec_line_views(tool.doc_lines@) =~= spec_studley_specs()[0].doc_lines);
        assert(tool@ == spec_studley_specs()[0]);
    }
    specs.push(tool);

    let mut params: Vec<FnParam> = Vec::new();
    params.push(named_param("secret_key", "String"));
    params.push(named_param("query", "String"));
    let mut doc_lines: Vec<String> = Vec::new();
    doc_lines.push(String::from_str(" * `secret_key` - The secret key used for things"));
    doc_lines.push(String::from_str(" * `query` - The query you want to ask"));
    let tool = ToolSpec {
        name: String::from_str("some_secret_third_function"),
        description: String::from_str("this is a secret third function"),
        params,
        doc_lines,
    };
    proof {
        assert(crate::params::spec_param_shapes(tool.params@) =~= spec_studley_specs()[1].params);
        assert(crate::docs::spec_line_views(tool.doc_lines@) =~= spec_studley_specs()[1].doc_lines);
        assert(tool@ == spec_studley_specs()[1]);
    }
    specs.push(tool);

    let mut params: Vec<FnParam> = Vec::new();
    params.push(named_param("bolt_location", "String"));
    let mut doc_lines: Vec<String> = Vec::new();
    doc_lines.push(String::from_str(" `bolt_location` - Location of bolt in need of tightening"));
    let tool = ToolSpec {
        name: String::from_str("bolt_tightener"),
        description: String::from_str("tightens a bolt"),
        params,
        doc_lines,
    };
    proof {
        assert(crate::params::spec_param_shapes(tool.params@) =~= spec_studley_specs()[2].params);
        assert(crate::docs::spec_line_views(tool.doc_lines@) =~= spec_studley_specs()[2].doc_lines);
        assert(tool@ == spec_studley_specs()[2]);
    }
    specs.push(tool);

    let mut params: Vec<FnParam> = Vec::new();
    params.push(named_param("rotations", "u32"));
    params.push(named_param("brand", "String"));
    let mut doc_lines: Vec<String> = Vec::new();
    doc_lines.push(String::from_str(" `rotations` - number of rotations"));
    doc_lines.push(String::from_str(" `brand` - brand of new tool"));
    let tool = ToolSpec {
        name: String::from_str("new_tool"),
        description: String::from_str("this is a new tool"),
        params,
        doc_lines,
    };
    proof {
        assert(crate::params::spec_param_shapes(tool.params@) =~= spec_studley_specs()[3].params);
        assert(crate::docs::spec_line_views(tool.doc_lines@) =~= spec_studley_specs()[3].doc_lines);
        assert(tool@ == spec_studley_specs()[3]);
    }
    specs.push(tool);

    proof {
        assert(spec_tool_spec_shapes(specs@) =~= spec_studley_specs());
    }
    specs
}

/// Builds the chest's registry: its four functions registered in
/// declaration order over the chest's invocation wrappers.
pub fn studley_toolbox() -> (r: Result<ToolboxRegistry<StudleyToolChest>, RegistrationError>)
    ensures
        match spec_build_toolbox(spec_studley_specs()) {
            Ok(s) => r matches Ok(reg) && reg.descriptors() == s && reg.toolset()
                == StudleyToolChest,
            Err(e) => r matches Err(e2) && e2 == e,
        },
{
    let specs = studley_tool_specs();
    proof {
        assert(specs@.len() == spec_studley_specs().len());
    }
    toolbox(StudleyToolChest, specs)
}

} // verus!
