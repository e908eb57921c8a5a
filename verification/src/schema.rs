//! The type mapper: from a parameter's declared type to the JSON-schema
//! primitive type that describes it on the wire.

use vstd::prelude::*;
use crate::text::str_eq;

verus! {

/// The fixed set of JSON-schema primitive type names a parameter can carry.
#[derive(Clone, Copy, Debug, PartialEq, Eq, Structural)]
pub enum SchemaType {
    Str,
    Int,
    Num,
    Bool,
    Obj,
}

/// The name each schema type renders as inside a descriptor document.
pub open spec fn spec_schema_name(t: SchemaType) -> Seq<char> {
    match t {
        SchemaType::Str => "string"@,
        SchemaType::Int => "integer"@,
        SchemaType::Num => "number"@,
        SchemaType::Bool => "boolean"@,
        SchemaType::Obj => "object"@,
    }
}

impl SchemaType {
    /// The wire name of this schema type.
    pub fn as_str(&self) -> (r: &'static str)
        ensures
            r@ == spec_schema_name(*self),
    {
        match self {
            SchemaType::Str => "string",
            SchemaType::Int => "integer",
            SchemaType::Num => "number",
            SchemaType::Bool => "boolean",
            SchemaType::Obj => "object",
        }
    }
}

/// The schema type a wire name denotes, if any: the inverse of
/// `spec_schema_name`.
pub open spec fn spec_schema_of_name(s: Seq<char>) -> Option<SchemaType> {
    if s == "string"@ {
        Some(SchemaType::Str)
    } else if s == "integer"@ {
        Some(SchemaType::Int)
    } else if s == "number"@ {
        Some(SchemaType::Num)
    } else if s == "boolean"@ {
        Some(SchemaType::Bool)
    } else if s == "object"@ {
        Some(SchemaType::Obj)
    } else {
        None
    }
}

/// Reads a schema type back from its wire name.
pub fn schema_of_name(s: &str) -> (r: Option<SchemaType>)
    ensures
        r == spec_schema_of_name(s@),
{
    if str_eq(s, "string") {
        Some(SchemaType::Str)
    } else if str_eq(s, "integer") {
        Some(SchemaType::Int)
    } else if str_eq(s, "number") {
        Some(SchemaType::Num)
    } else if str_eq(s, "boolean") {
        Some(SchemaType::Bool)
    } else if str_eq(s, "object") {
        Some(SchemaType::Obj)
    } else {
        None
    }
}

/// Reading a schema type's wire name back yields the schema type: the five
/// names are pairwise distinct.
pub proof fn lemma_schema_name_round_trip(t: SchemaType)
    ensures
        spec_schema_of_name(spec_schema_name(t)) == Some(t),
{
    reveal_strlit("string");
    reveal_strlit("integer");
    reveal_strlit("number");
    reveal_strlit("boolean");
    reveal_strlit("object");
    assert("string"@.len() == 6);
    assert("integer"@.len() == 7);
    assert("number"@.len() == 6);
    assert("boolean"@.len() == 7);
    assert("object"@.len() == 6);
    assert("string"@[0] == 's' && "number"@[0] == 'n' && "object"@[0] == 'o');
    assert("integer"@[0] == 'i' && "boolean"@[0] == 'b');
}

/// The shape of a parameter's declared type, as far as the mapper looks at
/// it: the final path segment's identifier, possibly behind references.
pub enum DeclaredType {
    /// A path type, named by its last segment (`String`, `u32`, `PathBuf`).
    Named(String),
    /// A reference to another type; the mapper unwraps it.
    Reference(Box<DeclaredType>),
    /// Any other shape (tuple, slice, trait object, ...).
    Other,
}

/// Mathematical model of a declared type.
pub enum TypeShape {
    Named(Seq<char>),
    Reference(Box<TypeShape>),
    Other,
}

/// The model of a declared type: the same tree with strings abstracted.
pub open spec fn spec_type_shape(t: DeclaredType) -> TypeShape
    decreases t,
{
    match t {
        DeclaredType::Named(s) => TypeShape::Named(s@),
        DeclaredType::Reference(inner) => TypeShape::Reference(Box::new(spec_type_shape(*inner))),
        DeclaredType::Other => TypeShape::Other,
    }
}

impl View for DeclaredType {
    type V = TypeShape;

    open spec fn view(&self) -> TypeShape {
        spec_type_shape(*self)
    }
}

/// Whether a type name is one of Rust's primitive integer type names.
pub open spec fn spec_is_integer_name(s: Seq<char>) -> bool {
    ||| s == "i8"@
    ||| s == "i16"@
    ||| s == "i32"@
    ||| s == "i64"@
    ||| s == "i128"@
    ||| s == "isize"@
    ||| s == "u8"@
    ||| s == "u16"@
    ||| s == "u32"@
    ||| s == "u64"@
    ||| s == "u128"@
    ||| s == "usize"@
}

/// Whether a type name is one of Rust's floating-point type names.
pub open spec fn spec_is_float_name(s: Seq<char>) -> bool {
    s == "f32"@ || s == "f64"@
}

/// What the type mapper yields: total over every declared type. Text maps to
/// `string`, integers to `integer`, floats to `number`, `bool` to `boolean`,
/// references unwrap to their referent's mapping, and everything else falls
/// back to `object`.
pub open spec fn spec_map_type(t: TypeShape) -> SchemaType
    decreases t,
{
    match t {
        TypeShape::Named(s) => {
            if s == "String"@ {
                SchemaType::Str
            } else if spec_is_integer_name(s) {
                SchemaType::Int
            } else if spec_is_float_name(s) {
                SchemaType::Num
            } else if s == "bool"@ {
                SchemaType::Bool
            } else {
                SchemaType::Obj
            }
        },
        TypeShape::Reference(inner) => spec_map_type(*inner),
        TypeShape::Other => SchemaType::Obj,
    }
}

fn is_integer_name(s: &str) -> (r: bool)
    ensures
        r == spec_is_integer_name(s@),
{
    ||| str_eq(s, "i8")
    ||| str_eq(s, "i16")
    ||| str_eq(s, "i32")
    ||| str_eq(s, "i64")
    ||| str_eq(s, "i128")
    ||| str_eq(s, "isize")
    ||| str_eq(s, "u8")
    ||| str_eq(s, "u16")
    ||| str_eq(s, "u32")
    ||| str_eq(s, "u64")
    ||| str_eq(s, "u128")
    ||| str_eq(s, "usize")
}

/// Maps a declared type to the JSON-schema primitive describing it.
pub fn rust_type_to_json_schema(ty: &DeclaredType) -> (r: SchemaType)
    ensures
        r == spec_map_type(ty@),
    decreases ty,
{
    match ty {
        DeclaredType::Named(s) => {
            if str_eq(s.as_str(), "String") {
                SchemaType::Str
            } else if is_integer_name(s.as_str()) {
                SchemaType::Int
            } else if str_eq(s.as_str(), "f32") || str_eq(s.as_str(), "f64") {
                SchemaType::Num
            } else if str_eq(s.as_str(), "bool") {
                SchemaType::Bool
            } else {
                SchemaType::Obj
            }
        },
        DeclaredType::Reference(inner) => rust_type_to_json_schema(inner),
        DeclaredType::Other => SchemaType::Obj,
    }
}

/// The mapper resolves a reference by mapping the referent: wrapping any
/// declared type in a reference never changes its schema type.
pub proof fn lemma_map_type_unwraps_reference(t: TypeShape)
    ensures
        spec_map_type(TypeShape::Reference(Box::new(t))) == spec_map_type(t),
{
}

} // verus!
