//! The descriptor builder: assembles one function's descriptor — name,
//! human description, parameter schema — and renders it as the JSON
//! document that a tool-calling consumer reads. Every extracted parameter
//! is required: the format has no optional parameters.

use vstd::prelude::*;
use crate::docs::{description_map_from_lines, spec_desc_map_of_lines, spec_line_views};
use crate::json::{
    get_field, lemma_obj_lookup_at, lemma_spec_json_arr, lemma_spec_json_members, spec_json,
    spec_json_arr, spec_json_members, spec_obj_lookup, JsonMember, JsonVal, JsonValue,
};
use crate::params::{
    extract, spec_extract, spec_param_desc_shapes, spec_param_shapes, FnParam, ParamDescShape,
    ParamDescriptor,
};
use crate::schema::{
    lemma_schema_name_round_trip, schema_of_name, spec_schema_name, spec_schema_of_name,
};
use crate::text::str_eq;

verus! {

/// Why building a registry entry was refused. Registration fails fast: a
/// bad input aborts the entry rather than producing a partial descriptor.
#[derive(Debug, Clone, Copy, PartialEq, Eq, Structural)]
pub enum RegistrationError {
    /// A documentation line does not follow the `` `name` - text ``
    /// convention.
    MalformedDocLine,
    /// The function's name is already registered.
    DuplicateName,
}

/// One function's descriptor: its name, its human description, and its
/// parameter descriptors in declaration order. Every parameter listed here
/// is required.
#[derive(Debug, PartialEq)]
pub struct FunctionDescriptor {
    pub name: String,
    pub description: String,
    pub params: Vec<ParamDescriptor>,
}

/// Mathematical model of a function descriptor.
pub struct FunctionDescShape {
    pub name: Seq<char>,
    pub description: Seq<char>,
    pub params: Seq<ParamDescShape>,
}

impl View for FunctionDescriptor {
    type V = FunctionDescShape;

    open spec fn view(&self) -> FunctionDescShape {
        FunctionDescShape {
            name: self.name@,
            description: self.description@,
            params: spec_param_desc_shapes(self.params@),
        }
    }
}

/// The descriptor built for a function: the caller's name and description,
/// and the extractor's parameter descriptors.
pub open spec fn spec_build_descriptor(
    name: Seq<char>,
    description: Seq<char>,
    params: Seq<crate::params::FnParamShape>,
    descs: Map<Seq<char>, Seq<char>>,
) -> FunctionDescShape {
    FunctionDescShape { name, description, params: spec_extract(params, descs) }
}

/// Builds one function's descriptor out of its registration-time inputs:
/// the name, the human description, the declared parameter list, and the
/// per-parameter documentation lines. Succeeds exactly when every
/// documentation line follows the convention.
pub fn build_descriptor(
    name: String,
    description: String,
    params: &Vec<FnParam>,
    doc_lines: &Vec<String>,
) -> (r: Result<FunctionDescriptor, RegistrationError>)
    ensures
        match spec_desc_map_of_lines(spec_line_views(doc_lines@)) {
            Some(m) => r matches Ok(d) && d@ == spec_build_descriptor(
                name@,
                description@,
                spec_param_shapes(params@),
                m,
            ),
            None => r matches Err(e) && e == RegistrationError::MalformedDocLine,
        },
{
    let descs = match description_map_from_lines(doc_lines) {
        Some(m) => m,
        None => {
            return Err(RegistrationError::MalformedDocLine);
        },
    };
    let params = extract(params, &descs);
    Ok(FunctionDescriptor { name, description, params })
}

/// The `{"type": ..., "description": ...}` property object one parameter
/// renders as.
pub open spec fn spec_param_property(p: ParamDescShape) -> JsonVal {
    JsonVal::Obj(
        seq![
            ("type"@, JsonVal::Str(spec_schema_name(p.schema_type))),
            ("description"@, JsonVal::Str(p.description)),
        ],
    )
}

/// The `required` list: every parameter's name, in declaration order.
pub open spec fn spec_required_list(params: Seq<ParamDescShape>) -> Seq<JsonVal> {
    Seq::new(params.len(), |i: int| JsonVal::Str(params[i].name))
}

/// The `properties` object: one property per parameter, keyed by its name,
/// in declaration order.
pub open spec fn spec_properties(params: Seq<ParamDescShape>) -> Seq<(Seq<char>, JsonVal)> {
    Seq::new(params.len(), |i: int| (params[i].name, spec_param_property(params[i])))
}

/// The JSON document a descriptor renders as, in the shape a tool-calling
/// consumer expects.
pub open spec fn spec_descriptor_json(d: FunctionDescShape) -> JsonVal {
    JsonVal::Obj(
        seq![
            ("type"@, JsonVal::Str("function"@)),
            (
                "function"@,
                JsonVal::Obj(
                    seq![
                        ("name"@, JsonVal::Str(d.name)),
                        ("description"@, JsonVal::Str(d.description)),
                        (
                            "parameters"@,
                            JsonVal::Obj(
                                seq![
                                    ("type"@, JsonVal::Str("object"@)),
                                    ("required"@, JsonVal::Arr(spec_required_list(d.params))),
                                    ("properties"@, JsonVal::Obj(spec_properties(d.params))),
                                ],
                            ),
                        ),
                    ],
                ),
            ),
        ],
    )
}

/// A JSON object member with a literal key.
fn member(key: &str, value: JsonValue) -> (r: JsonMember)
    ensures
        r.key@ == key@,
        r.value == value,
{
    JsonMember { key: String::from_str(key), value }
}

/// Renders a function descriptor as its JSON document.
pub fn descriptor_to_json(d: &FunctionDescriptor) -> (r: JsonValue)
    ensures
        r@ == spec_descriptor_json(d@),
{
    let ghost ps = spec_param_desc_shapes(d.params@);
    let n = d.params.len();

    let mut required: Vec<JsonValue> = Vec::new();
    let mut i: usize = 0;
    while i < n
        invariant
            0 <= i <= n,
            n == d.params.len(),
            ps == spec_param_desc_shapes(d.params@),
            required@.len() == i,
            forall|k: int| 0 <= k < i ==> spec_json(#[trigger] required@[k]) == JsonVal::Str(
                ps[k].name,
            ),
        decreases n - i,
    {
        required.push(JsonValue::Str(d.params[i].name.clone()));
        i += 1;
    }
    proof {
        lemma_spec_json_arr(required@);
        assert(spec_json_arr(required@) =~= spec_required_list(ps));
    }

    let mut props: Vec<JsonMember> = Vec::new();
    let mut i: usize = 0;
    while i < n
        invariant
            0 <= i <= n,
            n == d.params.len(),
            ps == spec_param_desc_shapes(d.params@),
            props@.len() == i,
            forall|k: int| 0 <= k < i ==> (#[trigger] props@[k]).key@ == ps[k].name
                && spec_json(props@[k].value) == spec_param_property(ps[k]),
        decreases n - i,
    {
        let p = &d.params[i];
        let mut fields: Vec<JsonMember> = Vec::new();
        fields.push(member("type", JsonValue::Str(String::from_str(p.schema_type.as_str()))));
        fields.push(member("description", JsonValue::Str(p.description.clone())));
        proof {
            lemma_spec_json_members(fields@);
            assert(spec_json_members(fields@) =~= seq![
                ("type"@, JsonVal::Str(spec_schema_name(ps[i as int].schema_type))),
                ("description"@, JsonVal::Str(ps[i as int].description)),
            ]);
        }
        props.push(JsonMember { key: p.name.clone(), value: JsonValue::Obj(fields) });
        i += 1;
    }
    proof {
        lemma_spec_json_members(props@);
        assert(spec_json_members(props@) =~= spec_properties(ps));
    }

    let mut parameters: Vec<JsonMember> = Vec::new();
    parameters.push(member("type", JsonValue::Str(String::from_str("object"))));
    parameters.push(member("required", JsonValue::Arr(required)));
    parameters.push(member("properties", JsonValue::Obj(props)));
    proof {
        lemma_spec_json_members(parameters@);
        assert(spec_json_members(parameters@) =~= seq![
            ("type"@, JsonVal::Str("object"@)),
            ("required"@, JsonVal::Arr(spec_required_list(ps))),
            ("properties"@, JsonVal::Obj(spec_properties(ps))),
        ]);
    }

    let mut func: Vec<JsonMember> = Vec::new();
    func.push(member("name", JsonValue::Str(d.name.clone())));
    func.push(member("description", JsonValue::Str(d.description.clone())));
    func.push(member("parameters", JsonValue::Obj(parameters)));
    proof {
        lemma_spec_json_members(func@);
        assert(spec_json_members(func@) =~= seq![
            ("name"@, JsonVal::Str(d@.name)),
            ("description"@, JsonVal::Str(d@.description)),
            (
                "parameters"@,
                JsonVal::Obj(
                    seq![
                        ("type"@, JsonVal::Str("object"@)),
                        ("required"@, JsonVal::Arr(spec_required_list(ps))),
                        ("properties"@, JsonVal::Obj(spec_properties(ps))),
                    ],
                ),
            ),
        ]);
    }

    let mut top: Vec<JsonMember> = Vec::new();
    top.push(member("type", JsonValue::Str(String::from_str("function"))));
    top.push(member("function", JsonValue::Obj(func)));
    proof {
        lemma_spec_json_members(top@);
        assert(spec_json_members(top@) =~= spec_descriptor_json(d@)->Obj_0);
    }
    JsonValue::Obj(top)
}

/// Builds one function's descriptor document in one step: the descriptor
/// built from the registration-time inputs, rendered as its JSON document.
/// Refused exactly when a documentation line is malformed.
pub fn tool_json_for_fn(
    name: String,
    description: String,
    params: &Vec<FnParam>,
    doc_lines: &Vec<String>,
) -> (r: Result<JsonValue, RegistrationError>)
    ensures
        match spec_desc_map_of_lines(spec_line_views(doc_lines@)) {
            Some(m) => r matches Ok(j) && j@ == spec_descriptor_json(
                spec_build_descriptor(name@, description@, spec_param_shapes(params@), m),
            ),
            None => r matches Err(e) && e == RegistrationError::MalformedDocLine,
        },
{
    match build_descriptor(name, description, params, doc_lines) {
        Ok(d) => Ok(descriptor_to_json(&d)),
        Err(e) => Err(e),
    }
}

/// For a function whose parameters are all simply named, the built
/// descriptor carries exactly one parameter descriptor per declared
/// parameter, under the declared names in declaration order, and the
/// rendered `required` list carries exactly those names.
pub proof fn lemma_descriptor_covers_named_params(
    name: Seq<char>,
    description: Seq<char>,
    params: Seq<crate::params::FnParamShape>,
    descs: Map<Seq<char>, Seq<char>>,
)
    requires
        forall|i: int| 0 <= i < params.len() ==> params[i] is Named,
    ensures
        spec_build_descriptor(name, description, params, descs).params.len() == params.len(),
        forall|i: int|
            0 <= i < params.len() ==> spec_build_descriptor(
                name,
                description,
                params,
                descs,
            ).params[i].name == params[i]->Named_0,
        spec_required_list(spec_build_descriptor(name, description, params, descs).params)
            == Seq::new(params.len(), |i: int| JsonVal::Str(params[i]->Named_0)),
{
    crate::params::lemma_extract_all_named(params, descs);
    let built = spec_build_descriptor(name, description, params, descs).params;
    assert(spec_required_list(built) =~= Seq::new(
        params.len(),
        |i: int| JsonVal::Str(params[i]->Named_0),
    ));
}

/// The parameter descriptor one `properties` entry denotes, if any: the
/// entry's key names the parameter, and its value must be an object whose
/// `type` member names a schema type and whose `description` member is a
/// string.
pub open spec fn spec_parse_property(key: Seq<char>, v: JsonVal) -> Option<ParamDescShape> {
    match v {
        JsonVal::Obj(fields) => match (
            spec_obj_lookup(fields, "type"@),
            spec_obj_lookup(fields, "description"@),
        ) {
            (Some(JsonVal::Str(tyname)), Some(JsonVal::Str(description))) => match
                spec_schema_of_name(tyname) {
                Some(schema_type) => Some(ParamDescShape { name: key, schema_type, description }),
                None => None,
            },
            _ => None,
        },
        _ => None,
    }
}

/// The parameter descriptors a `properties` object denotes, in member
/// order, when every entry denotes one.
pub open spec fn spec_parse_properties(props: Seq<(Seq<char>, JsonVal)>) -> Option<
    Seq<ParamDescShape>,
>
    decreases props.len(),
{
    if props.len() == 0 {
        Some(Seq::empty())
    } else {
        match spec_parse_properties(props.drop_last()) {
            Some(init) => match spec_parse_property(props.last().0, props.last().1) {
                Some(p) => Some(init.push(p)),
                None => None,
            },
            None => None,
        }
    }
}

/// Once some prefix of the properties fails to parse, the whole object
/// denotes nothing.
proof fn lemma_parse_properties_none_extends(props: Seq<(Seq<char>, JsonVal)>, j: int)
    requires
        0 <= j <= props.len(),
        spec_parse_properties(props.subrange(0, j)) is None,
    ensures
        spec_parse_properties(props) is None,
    decreases props.len() - j,
{
    if j < props.len() {
        assert(props.subrange(0, j + 1).drop_last() =~= props.subrange(0, j));
        lemma_parse_properties_none_extends(props, j + 1);
    } else {
        assert(props.subrange(0, props.len() as int) =~= props);
    }
}

/// The descriptor a JSON document denotes, if any: the exact shape that
/// `spec_descriptor_json` renders, with the `required` list carrying the
/// properties' keys in order.
pub open spec fn spec_parse_descriptor(j: JsonVal) -> Option<FunctionDescShape> {
    match j {
        JsonVal::Obj(top) => {
            if spec_obj_lookup(top, "type"@) != Some(JsonVal::Str("function"@)) {
                None
            } else {
                match spec_obj_lookup(top, "function"@) {
                    Some(JsonVal::Obj(func)) => match (
                        spec_obj_lookup(func, "name"@),
                        spec_obj_lookup(func, "description"@),
                        spec_obj_lookup(func, "parameters"@),
                    ) {
                        (
                            Some(JsonVal::Str(name)),
                            Some(JsonVal::Str(description)),
                            Some(JsonVal::Obj(parameters)),
                        ) => {
                            if spec_obj_lookup(parameters, "type"@) != Some(
                                JsonVal::Str("object"@),
                            ) {
                                None
                            } else {
                                match (
                                    spec_obj_lookup(parameters, "required"@),
                                    spec_obj_lookup(parameters, "properties"@),
                                ) {
                                    (Some(JsonVal::Arr(required)), Some(JsonVal::Obj(props))) => {
                                        match spec_parse_properties(props) {
                                            Some(params) => {
                                                if required == spec_required_list(params) {
                                                    Some(
                                                        FunctionDescShape {
                                                            name,
                                                            description,
                                                            params,
                                                        },
                                                    )
                                                } else {
                                                    None
                                                }
                                            },
                                            None => None,
                                        }
                                    },
                                    _ => None,
                                }
                            }
                        },
                        _ => None,
                    },
                    _ => None,
                }
            }
        },
        _ => None,
    }
}

/// Once the document's fixed scaffolding has been checked, what the whole
/// parse yields is decided by the `properties` entries and the `required`
/// list alone: this predicate records that reduction.
spec fn spec_ctx(
    j: JsonVal,
    name: Seq<char>,
    description: Seq<char>,
    req: Seq<JsonVal>,
    pmodel: Seq<(Seq<char>, JsonVal)>,
) -> bool {
    spec_parse_descriptor(j) == (match spec_parse_properties(pmodel) {
        Some(params) => if req == spec_required_list(params) {
            Some(FunctionDescShape { name, description, params })
        } else {
            None
        },
        None => None,
    })
}

/// Reads one `properties` entry back into a parameter descriptor.
fn parse_property(key: &String, value: &JsonValue) -> (r: Option<ParamDescriptor>)
    ensures
        match r {
            Some(p) => spec_parse_property(key@, value@) == Some(p@),
            None => spec_parse_property(key@, value@) is None,
        },
{
    let tfield = match get_field(value, "type") {
        Some(f) => f,
        None => {
            return None;
        },
    };
    let tyname = match tfield {
        JsonValue::Str(s) => s,
        _ => {
            return None;
        },
    };
    let schema_type = match schema_of_name(tyname.as_str()) {
        Some(t) => t,
        None => {
            return None;
        },
    };
    let dfield = match get_field(value, "description") {
        Some(f) => f,
        None => {
            return None;
        },
    };
    let description = match dfield {
        JsonValue::Str(s) => s.clone(),
        _ => {
            return None;
        },
    };
    Some(ParamDescriptor { name: key.clone(), schema_type, description })
}

/// Reads a descriptor document back into the descriptor it renders: the
/// inverse of `descriptor_to_json` on documents of the rendered shape.
pub fn parse_descriptor_json(v: &JsonValue) -> (r: Option<FunctionDescriptor>)
    ensures
        match r {
            Some(d) => spec_parse_descriptor(v@) == Some(d@),
            None => spec_parse_descriptor(v@) is None,
        },
{
    let tfield = match get_field(v, "type") {
        Some(f) => f,
        None => {
            return None;
        },
    };
    match tfield {
        JsonValue::Str(s) => {
            if !str_eq(s.as_str(), "function") {
                return None;
            }
        },
        _ => {
            return None;
        },
    }
    let func = match get_field(v, "function") {
        Some(f) => f,
        None => {
            return None;
        },
    };
    match func {
        JsonValue::Obj(_) => {},
        _ => {
            return None;
        },
    }
    let name = match get_field(func, "name") {
        Some(JsonValue::Str(s)) => s.clone(),
        _ => {
            return None;
        },
    };
    let description = match get_field(func, "description") {
        Some(JsonValue::Str(s)) => s.clone(),
        _ => {
            return None;
        },
    };
    let parameters = match get_field(func, "parameters") {
        Some(f) => f,
        None => {
            return None;
        },
    };
    match parameters {
        JsonValue::Obj(_) => {},
        _ => {
            return None;
        },
    }
    match get_field(parameters, "type") {
        Some(JsonValue::Str(s)) => {
            if !str_eq(s.as_str(), "object") {
                return None;
            }
        },
        _ => {
            return None;
        },
    }
    let required = match get_field(parameters, "required") {
        Some(JsonValue::Arr(items)) => items,
        _ => {
            return None;
        },
    };
    let props = match get_field(parameters, "properties") {
        Some(JsonValue::Obj(members)) => members,
        _ => {
            return None;
        },
    };

    let ghost pmodel = spec_json_members(props@);
    let ghost req = spec_json_arr(required@);
    let mut parsed: Vec<ParamDescriptor> = Vec::new();
    let n = props.len();
    proof {
        lemma_spec_json_members(props@);
        lemma_spec_json_arr(required@);
        assert(pmodel.subrange(0, 0) =~= Seq::empty());
        assert(spec_ctx(v@, name@, description@, req, pmodel));
    }
    let mut i: usize = 0;
    while i < n
        invariant
            0 <= i <= n,
            n == props.len(),
            pmodel == spec_json_members(props@),
            pmodel.len() == n,
            forall|j: int| 0 <= j < n ==> pmodel[j] == (props@[j].key@, spec_json(
                props@[j].value,
            )),
            spec_parse_properties(pmodel.subrange(0, i as int)) == Some(
                spec_param_desc_shapes(parsed@),
            ),
            spec_ctx(v@, name@, description@, req, pmodel),
        decreases n - i,
    {
        proof {
            assert(pmodel.subrange(0, i + 1).drop_last() =~= pmodel.subrange(0, i as int));
            assert(pmodel.subrange(0, i + 1).last() == pmodel[i as int]);
        }
        let ghost parsed_before = spec_param_desc_shapes(parsed@);
        match parse_property(&props[i].key, &props[i].value) {
            Some(p) => {
                parsed.push(p);
                proof {
                    assert(spec_param_desc_shapes(parsed@) =~= parsed_before.push(
                        parsed@.last()@,
                    ));
                }
            },
            None => {
                proof {
                    lemma_parse_properties_none_extends(pmodel, i + 1);
                }
                return None;
            },
        }
        i += 1;
    }
    proof {
        assert(pmodel.subrange(0, n as int) =~= pmodel);
    }

    let ghost plist = spec_required_list(spec_param_desc_shapes(parsed@));
    if required.len() != parsed.len() {
        proof {
            assert(req.len() != plist.len());
        }
        return None;
    }
    let m = required.len();
    let mut k: usize = 0;
    while k < m
        invariant
            0 <= k <= m,
            m == required.len(),
            m == parsed.len(),
            req == spec_json_arr(required@),
            req.len() == m,
            forall|j: int| 0 <= j < m ==> req[j] == spec_json(required@[j]),
            plist == spec_required_list(spec_param_desc_shapes(parsed@)),
            plist.len() == m,
            spec_parse_properties(pmodel) == Some(spec_param_desc_shapes(parsed@)),
            spec_ctx(v@, name@, description@, req, pmodel),
            forall|j: int| 0 <= j < k ==> req[j] == plist[j],
        decreases m - k,
    {
        match &required[k] {
            JsonValue::Str(s) => {
                if !str_eq(s.as_str(), parsed[k].name.as_str()) {
                    proof {
                        assert(req[k as int] != plist[k as int]);
                        assert(req != plist);
                    }
                    return None;
                }
            },
            _ => {
                proof {
                    assert(req[k as int] != plist[k as int]);
                    assert(req != plist);
                }
                return None;
            },
        }
        k += 1;
    }
    proof {
        assert(req =~= plist);
    }

    Some(FunctionDescriptor { name, description, params: parsed })
}

/// Reading one parameter's property object back yields the parameter.
proof fn lemma_property_round_trip(p: ParamDescShape)
    ensures
        spec_parse_property(p.name, spec_param_property(p)) == Some(p),
{
    reveal_strlit("type");
    reveal_strlit("description");
    assert("type"@.len() == 4);
    assert("description"@.len() == 11);
    let fields = spec_param_property(p)->Obj_0;
    lemma_obj_lookup_at(fields, "type"@, 0);
    assert(fields[0].0 != "description"@);
    lemma_obj_lookup_at(fields, "description"@, 1);
    lemma_schema_name_round_trip(p.schema_type);
}

/// Reading a rendered `properties` object back yields the parameters.
proof fn lemma_properties_round_trip(params: Seq<ParamDescShape>)
    ensures
        spec_parse_properties(spec_properties(params)) == Some(params),
    decreases params.len(),
{
    if params.len() == 0 {
        assert(spec_properties(params) =~= Seq::empty());
    } else {
        lemma_properties_round_trip(params.drop_last());
        assert(spec_properties(params).drop_last() =~= spec_properties(params.drop_last()));
        lemma_property_round_trip(params.last());
        assert(params.drop_last().push(params.last()) =~= params);
    }
}

/// Round trip: reading a descriptor's rendered JSON document back yields
/// exactly the descriptor — its name, its description, and each
/// parameter's name, schema type, and description.
pub proof fn lemma_descriptor_round_trip(d: FunctionDescShape)
    ensures
        spec_parse_descriptor(spec_descriptor_json(d)) == Some(d),
{
    reveal_strlit("type");
    reveal_strlit("function");
    reveal_strlit("name");
    reveal_strlit("description");
    reveal_strlit("parameters");
    reveal_strlit("object");
    reveal_strlit("required");
    reveal_strlit("properties");
    assert("type"@.len() == 4);
    assert("function"@.len() == 8);
    assert("name"@.len() == 4);
    assert("description"@.len() == 11);
    assert("parameters"@.len() == 10);
    assert("required"@.len() == 8);
    assert("properties"@.len() == 10);
    let top = spec_descriptor_json(d)->Obj_0;
    lemma_obj_lookup_at(top, "type"@, 0);
    assert(top[0].0 != "function"@);
    lemma_obj_lookup_at(top, "function"@, 1);
    let func = top[1].1->Obj_0;
    lemma_obj_lookup_at(func, "name"@, 0);
    assert(func[0].0 != "description"@);
    lemma_obj_lookup_at(func, "description"@, 1);
    assert(func[0].0 != "parameters"@ && func[1].0 != "parameters"@);
    lemma_obj_lookup_at(func, "parameters"@, 2);
    let parameters = func[2].1->Obj_0;
    lemma_obj_lookup_at(parameters, "type"@, 0);
    assert(parameters[0].0 != "required"@);
    lemma_obj_lookup_at(parameters, "required"@, 1);
    assert(parameters[0].0 != "properties"@ && parameters[1].0 != "properties"@);
    lemma_obj_lookup_at(parameters, "properties"@, 2);
    lemma_properties_round_trip(d.params);
}

} // verus!
