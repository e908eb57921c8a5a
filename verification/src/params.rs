//! The parameter extractor: walks a function's declared parameter list in
//! source order and keeps the parameters bound to a simple name. Receiver
//! parameters and parameters bound to a destructuring pattern are silently
//! skipped, as the descriptor format has no way to name them.

use vstd::prelude::*;
use crate::docs::DescriptionMap;
use crate::schema::{DeclaredType, SchemaType, TypeShape, rust_type_to_json_schema, spec_map_type};

verus! {

/// One entry of a function's declared parameter list.
pub enum FnParam {
    /// A receiver (`self`-style) parameter.
    Receiver,
    /// A parameter bound to a simple name, with its declared type.
    Named(String, DeclaredType),
    /// A parameter bound to a destructuring or otherwise complex pattern.
    Destructured(DeclaredType),
}

/// Mathematical model of one declared parameter.
pub enum FnParamShape {
    Receiver,
    Named(Seq<char>, TypeShape),
    Destructured(TypeShape),
}

impl View for FnParam {
    type V = FnParamShape;

    open spec fn view(&self) -> FnParamShape {
        match self {
            FnParam::Receiver => FnParamShape::Receiver,
            FnParam::Named(name, ty) => FnParamShape::Named(name@, ty@),
            FnParam::Destructured(ty) => FnParamShape::Destructured(ty@),
        }
    }
}

/// The models of a parameter list, element by element.
pub open spec fn spec_param_shapes(params: Seq<FnParam>) -> Seq<FnParamShape> {
    Seq::new(params.len(), |i: int| params[i]@)
}

/// A parameter as the extractor first sees it: its declared name and type,
/// with a still-empty description.
pub struct Argument {
    pub name: String,
    pub arg_type: DeclaredType,
    pub description: String,
}

/// Mathematical model of an extracted argument.
pub struct ArgumentShape {
    pub name: Seq<char>,
    pub arg_type: TypeShape,
    pub description: Seq<char>,
}

impl View for Argument {
    type V = ArgumentShape;

    open spec fn view(&self) -> ArgumentShape {
        ArgumentShape { name: self.name@, arg_type: self.arg_type@, description: self.description@ }
    }
}

/// The models of an argument list, element by element.
pub open spec fn spec_argument_shapes(args: Seq<Argument>) -> Seq<ArgumentShape> {
    Seq::new(args.len(), |i: int| args[i]@)
}

/// What raw extraction keeps of a parameter list: the simply-named
/// parameters in declaration order, each with an empty description.
pub open spec fn spec_extract_raw(params: Seq<FnParamShape>) -> Seq<ArgumentShape>
    decreases params.len(),
{
    if params.len() == 0 {
        Seq::empty()
    } else {
        spec_extract_raw(params.drop_last()) + match params.last() {
            FnParamShape::Named(name, ty) => seq![
                ArgumentShape { name, arg_type: ty, description: Seq::empty() },
            ],
            _ => Seq::empty(),
        }
    }
}

impl DeclaredType {
    /// A structurally equal copy of this declared type.
    pub fn duplicate(&self) -> (r: DeclaredType)
        ensures
            r@ == self@,
        decreases self,
    {
        match self {
            DeclaredType::Named(s) => DeclaredType::Named(s.clone()),
            DeclaredType::Reference(inner) => DeclaredType::Reference(Box::new(inner.duplicate())),
            DeclaredType::Other => DeclaredType::Other,
        }
    }
}

/// Keeps the simply-named parameters of a declared parameter list, in
/// order; receivers and destructured bindings are skipped.
pub fn extract_function_raw(params: &Vec<FnParam>) -> (r: Vec<Argument>)
    ensures
        spec_argument_shapes(r@) == spec_extract_raw(spec_param_shapes(params@)),
{
    let ghost shapes = spec_param_shapes(params@);
    let mut out: Vec<Argument> = Vec::new();
    let n = params.len();
    proof {
        assert(shapes.subrange(0, 0) =~= Seq::empty());
        assert(spec_extract_raw(shapes.subrange(0, 0)) =~= Seq::empty());
        assert(spec_argument_shapes(out@) =~= Seq::empty());
    }
    let mut i: usize = 0;
    while i < n
        invariant
            0 <= i <= n,
            n == params.len(),
            shapes == spec_param_shapes(params@),
            spec_argument_shapes(out@) == spec_extract_raw(shapes.subrange(0, i as int)),
        decreases n - i,
    {
        proof {
            assert(shapes.subrange(0, i + 1).drop_last() =~= shapes.subrange(0, i as int));
            assert(shapes.subrange(0, i + 1).last() == params@[i as int]@);
        }
        let ghost out_before = out@;
        match &params[i] {
            FnParam::Named(name, ty) => {
                out.push(
                    Argument {
                        name: name.clone(),
                        arg_type: ty.duplicate(),
                        description: String::new(),
                    },
                );
                proof {
                    assert(spec_argument_shapes(out@) =~= spec_argument_shapes(out_before)
                        + seq![out@.last()@]);
                    assert(spec_argument_shapes(out@) =~= spec_extract_raw(
                        shapes.subrange(0, i + 1),
                    ));
                }
            },
            _ => {
                proof {
                    assert(spec_argument_shapes(out@) =~= spec_extract_raw(
                        shapes.subrange(0, i + 1),
                    ));
                }
            },
        }
        i += 1;
    }
    proof {
        assert(shapes.subrange(0, n as int) =~= shapes);
    }
    out
}

/// What one extracted argument contributes to the descriptor: its name, the
/// schema type its declared type maps to, and its description out of the
/// map, or the empty string when the map has none.
pub open spec fn spec_described_param(
    arg: ArgumentShape,
    descs: Map<Seq<char>, Seq<char>>,
) -> ParamDescShape {
    ParamDescShape {
        name: arg.name,
        schema_type: spec_map_type(arg.arg_type),
        description: if descs.contains_key(arg.name) {
            descs[arg.name]
        } else {
            Seq::empty()
        },
    }
}

/// What the extractor yields for a parameter list and a description map:
/// one descriptor per simply-named parameter, in declaration order.
pub open spec fn spec_extract(
    params: Seq<FnParamShape>,
    descs: Map<Seq<char>, Seq<char>>,
) -> Seq<ParamDescShape> {
    let raw = spec_extract_raw(params);
    Seq::new(raw.len(), |i: int| spec_described_param(raw[i], descs))
}

/// One parameter's slot in a function descriptor.
#[derive(Debug, PartialEq)]
pub struct ParamDescriptor {
    pub name: String,
    pub schema_type: SchemaType,
    pub description: String,
}

/// Mathematical model of a parameter descriptor.
pub struct ParamDescShape {
    pub name: Seq<char>,
    pub schema_type: SchemaType,
    pub description: Seq<char>,
}

impl View for ParamDescriptor {
    type V = ParamDescShape;

    open spec fn view(&self) -> ParamDescShape {
        ParamDescShape {
            name: self.name@,
            schema_type: self.schema_type,
            description: self.description@,
        }
    }
}

/// The models of a parameter descriptor list, element by element.
pub open spec fn spec_param_desc_shapes(params: Seq<ParamDescriptor>) -> Seq<ParamDescShape> {
    Seq::new(params.len(), |i: int| params[i]@)
}

/// Walks a declared parameter list and yields one descriptor per
/// simply-named parameter, in declaration order: the parameter's name, the
/// schema type of its declared type, and its description from the map, or
/// the empty string when the map has none.
pub fn extract(params: &Vec<FnParam>, descs: &DescriptionMap) -> (r: Vec<ParamDescriptor>)
    ensures
        spec_param_desc_shapes(r@) == spec_extract(spec_param_shapes(params@), descs@),
{
    let raw = extract_function_raw(params);
    let ghost raw_shapes = spec_extract_raw(spec_param_shapes(params@));
    let mut out: Vec<ParamDescriptor> = Vec::new();
    let n = raw.len();
    let mut i: usize = 0;
    while i < n
        invariant
            0 <= i <= n,
            n == raw.len(),
            raw_shapes == spec_argument_shapes(raw@),
            raw_shapes == spec_extract_raw(spec_param_shapes(params@)),
            out@.len() == i,
            forall|j: int|
                0 <= j < i ==> out@[j]@ == spec_described_param(raw_shapes[j], descs@),
        decreases n - i,
    {
        let schema_type = rust_type_to_json_schema(&raw[i].arg_type);
        let description = match descs.get(raw[i].name.as_str()) {
            Some(text) => text.clone(),
            None => String::new(),
        };
        let name = raw[i].name.clone();
        out.push(ParamDescriptor { name, schema_type, description });
        i += 1;
    }
    proof {
        assert(spec_param_desc_shapes(out@) =~= spec_extract(
            spec_param_shapes(params@),
            descs@,
        ));
    }
    out
}

/// For a parameter list made only of simply-named parameters, extraction
/// keeps every parameter: one descriptor per parameter, with the declared
/// names in declaration order.
pub proof fn lemma_extract_all_named(
    params: Seq<FnParamShape>,
    descs: Map<Seq<char>, Seq<char>>,
)
    requires
        forall|i: int| 0 <= i < params.len() ==> params[i] is Named,
    ensures
        spec_extract(params, descs).len() == params.len(),
        forall|i: int|
            0 <= i < params.len() ==> spec_extract(params, descs)[i].name == params[i]->Named_0,
    decreases params.len(),
{
    if params.len() > 0 {
        lemma_extract_all_named(params.drop_last(), descs);
        assert(spec_extract_raw(params).len() == params.len()) by {
            lemma_extract_raw_all_named(params);
        }
        assert forall|i: int| 0 <= i < params.len() implies spec_extract(params, descs)[i].name
            == params[i]->Named_0 by {
            lemma_extract_raw_all_named(params);
        }
    }
}

/// Raw extraction of a list of simply-named parameters keeps each one, in
/// order, under its declared name.
pub proof fn lemma_extract_raw_all_named(params: Seq<FnParamShape>)
    requires
        forall|i: int| 0 <= i < params.len() ==> params[i] is Named,
    ensures
        spec_extract_raw(params).len() == params.len(),
        forall|i: int|
            0 <= i < params.len() ==> spec_extract_raw(params)[i].name == params[i]->Named_0,
    decreases params.len(),
{
    if params.len() > 0 {
        let prefix = params.drop_last();
        lemma_extract_raw_all_named(prefix);
        assert forall|i: int| 0 <= i < params.len() implies spec_extract_raw(params)[i].name
            == params[i]->Named_0 by {
            if i < params.len() - 1 {
                assert(spec_extract_raw(params)[i] == spec_extract_raw(prefix)[i]);
                assert(prefix[i] == params[i]);
            } else {
                assert(params[i] == params.last());
            }
        }
    }
}

} // verus!
