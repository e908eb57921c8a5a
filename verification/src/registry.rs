//! The toolbox registry: a name-indexed catalog of function descriptors,
//! each paired by position with an invocation wrapper of the tool set it
//! was built over. The registry is built once, from a fixed set of
//! functions, and then only read: `names`, `descriptor_catalog` and
//! `dispatch` never change it.

use vstd::prelude::*;
use crate::descriptor::{
    build_descriptor, descriptor_to_json, spec_build_descriptor, spec_descriptor_json,
    FunctionDescShape, FunctionDescriptor, RegistrationError,
};
use crate::docs::{spec_desc_map_of_lines, spec_line_views};
use crate::json::{lemma_spec_json_arr, spec_json_arr, JsonVal, JsonValue};
use crate::params::{spec_param_shapes, FnParam, FnParamShape};
use crate::text::str_eq;

verus! {

/// The set of functions a registry dispatches into: one invocation wrapper
/// per registered function, addressed by registration position. A wrapper
/// accepts the call's JSON arguments object and yields the call's JSON
/// result; each implementor states what its wrappers yield through
/// `invoke_post`.
pub trait ToolSet {
    /// How many functions the set carries. The default carries none: an
    /// implementor that registers functions says how many.
    open spec fn tool_count(&self) -> nat {
        0
    }

    /// What holds of the wrapper at a position: given the arguments'
    /// model, which results the wrapper can yield. The default promises
    /// nothing; an implementor states its wrappers' behaviour here.
    open spec fn invoke_post(&self, i: int, args: JsonVal, r: JsonVal) -> bool {
        true
    }

    /// Calls the wrapper at a position on a JSON arguments object.
    fn invoke(&self, i: usize, args: JsonValue) -> (r: JsonValue)
        requires
            i < self.tool_count(),
        ensures
            self.invoke_post(i as int, args@, r@),
    ;
}

/// One function's registration-time inputs: its name, its human
/// description, its declared parameter list, and its per-parameter
/// documentation lines.
pub struct ToolSpec {
    pub name: String,
    pub description: String,
    pub params: Vec<FnParam>,
    pub doc_lines: Vec<String>,
}

/// Mathematical model of a registration input.
pub struct ToolSpecShape {
    pub name: Seq<char>,
    pub description: Seq<char>,
    pub params: Seq<FnParamShape>,
    pub doc_lines: Seq<Seq<char>>,
}

impl View for ToolSpec {
    type V = ToolSpecShape;

    open spec fn view(&self) -> ToolSpecShape {
        ToolSpecShape {
            name: self.name@,
            description: self.description@,
            params: spec_param_shapes(self.params@),
            doc_lines: spec_line_views(self.doc_lines@),
        }
    }
}

/// The models of a registration input list, element by element.
pub open spec fn spec_tool_spec_shapes(specs: Seq<ToolSpec>) -> Seq<ToolSpecShape> {
    Seq::new(specs.len(), |i: int| specs[i]@)
}

/// The models of a descriptor list, element by element.
pub open spec fn spec_descriptor_shapes(entries: Seq<FunctionDescriptor>) -> Seq<
    FunctionDescShape,
> {
    Seq::new(entries.len(), |i: int| entries[i]@)
}

/// Whether some entry already carries a name.
pub open spec fn spec_name_taken(entries: Seq<FunctionDescShape>, name: Seq<char>) -> bool {
    exists|j: int| 0 <= j < entries.len() && entries[j].name == name
}

/// What registering one function does to a descriptor list: refused when
/// the name is already taken, then when a documentation line is malformed;
/// otherwise the built descriptor joins the end of the list.
pub open spec fn spec_add_tool(entries: Seq<FunctionDescShape>, tool: ToolSpecShape) -> Result<
    Seq<FunctionDescShape>,
    RegistrationError,
> {
    if spec_name_taken(entries, tool.name) {
        Err(RegistrationError::DuplicateName)
    } else {
        match spec_desc_map_of_lines(tool.doc_lines) {
            None => Err(RegistrationError::MalformedDocLine),
            Some(m) => Ok(
                entries.push(spec_build_descriptor(tool.name, tool.description, tool.params, m)),
            ),
        }
    }
}

/// Registers one function into a descriptor list: builds its descriptor
/// and appends it, refusing a duplicate name or a malformed documentation
/// line. On refusal the list is left unchanged.
pub fn add_to_toolbox(
    entries: &mut Vec<FunctionDescriptor>,
    name: String,
    description: String,
    params: &Vec<FnParam>,
    doc_lines: &Vec<String>,
) -> (r: Result<(), RegistrationError>)
    ensures
        match spec_add_tool(
            spec_descriptor_shapes(old(entries)@),
            ToolSpecShape {
                name: name@,
                description: description@,
                params: spec_param_shapes(params@),
                doc_lines: spec_line_views(doc_lines@),
            },
        ) {
            Ok(s) => r is Ok && spec_descriptor_shapes(final(entries)@) == s,
            Err(e) => r == Err::<(), RegistrationError>(e) && final(entries)@ == old(entries)@,
        },
{
    let ghost before = spec_descriptor_shapes(entries@);
    let n = entries.len();
    let mut i: usize = 0;
    while i < n
        invariant
            0 <= i <= n,
            n == entries.len(),
            entries@ == old(entries)@,
            before == spec_descriptor_shapes(entries@),
            forall|j: int| 0 <= j < i ==> before[j].name != name@,
        decreases n - i,
    {
        if str_eq(entries[i].name.as_str(), name.as_str()) {
            proof {
                assert(before[i as int].name == name@);
                assert(spec_name_taken(before, name@));
            }
            return Err(RegistrationError::DuplicateName);
        }
        i += 1;
    }
    let descriptor = match build_descriptor(name, description, params, doc_lines) {
        Ok(d) => d,
        Err(e) => {
            return Err(e);
        },
    };
    entries.push(descriptor);
    proof {
        assert(spec_descriptor_shapes(entries@) =~= before.push(entries@.last()@));
    }
    Ok(())
}

/// What building a registry from a list of registration inputs yields:
/// each function registered in order, the first refusal aborting the whole
/// registration.
pub open spec fn spec_build_toolbox(specs: Seq<ToolSpecShape>) -> Result<
    Seq<FunctionDescShape>,
    RegistrationError,
>
    decreases specs.len(),
{
    if specs.len() == 0 {
        Ok(Seq::empty())
    } else {
        match spec_build_toolbox(specs.drop_last()) {
            Ok(entries) => spec_add_tool(entries, specs.last()),
            Err(e) => Err(e),
        }
    }
}

/// Once some prefix of the registrations is refused, the whole
/// registration is refused with that refusal.
proof fn lemma_build_toolbox_err_extends(specs: Seq<ToolSpecShape>, j: int, e: RegistrationError)
    requires
        0 <= j <= specs.len(),
        spec_build_toolbox(specs.subrange(0, j)) == Err::<Seq<FunctionDescShape>,
            RegistrationError,
        >(e),
    ensures
        spec_build_toolbox(specs) == Err::<Seq<FunctionDescShape>, RegistrationError>(e),
    decreases specs.len() - j,
{
    if j < specs.len() {
        assert(specs.subrange(0, j + 1).drop_last() =~= specs.subrange(0, j));
        lemma_build_toolbox_err_extends(specs, j + 1, e);
    } else {
        assert(specs.subrange(0, specs.len() as int) =~= specs);
    }
}

/// A registration that went through keeps the names pairwise distinct.
proof fn lemma_build_toolbox_distinct(specs: Seq<ToolSpecShape>, s: Seq<FunctionDescShape>)
    requires
        spec_build_toolbox(specs) == Ok::<Seq<FunctionDescShape>, RegistrationError>(s),
    ensures
        forall|i: int, j: int| 0 <= i < j < s.len() ==> s[i].name != s[j].name,
    decreases specs.len(),
{
    if specs.len() > 0 {
        let init = spec_build_toolbox(specs.drop_last());
        match init {
            Ok(entries) => {
                lemma_build_toolbox_distinct(specs.drop_last(), entries);
            },
            Err(_) => {},
        }
    }
}

/// The toolbox registry: the descriptor catalog, in registration order,
/// over the tool set whose wrapper at each position implements the
/// descriptor at the same position.
pub struct ToolboxRegistry<T: ToolSet> {
    tools: T,
    entries: Vec<FunctionDescriptor>,
}

/// The first registered entry carrying a name, if any.
pub open spec fn spec_find_tool(entries: Seq<FunctionDescShape>, name: Seq<char>) -> Option<int>
    decreases entries.len(),
{
    if entries.len() == 0 {
        None
    } else if entries[0].name == name {
        Some(0)
    } else {
        match spec_find_tool(entries.drop_first(), name) {
            Some(i) => Some(i + 1),
            None => None,
        }
    }
}

/// A name first carried by the entry at a position is found there.
proof fn lemma_find_tool_at(entries: Seq<FunctionDescShape>, name: Seq<char>, k: int)
    requires
        0 <= k < entries.len(),
        entries[k].name == name,
        forall|j: int| 0 <= j < k ==> entries[j].name != name,
    ensures
        spec_find_tool(entries, name) == Some(k),
    decreases k,
{
    if k > 0 {
        lemma_find_tool_at(entries.drop_first(), name, k - 1);
    }
}

/// A name no entry carries is not found.
proof fn lemma_find_tool_none(entries: Seq<FunctionDescShape>, name: Seq<char>)
    requires
        forall|j: int| 0 <= j < entries.len() ==> entries[j].name != name,
    ensures
        spec_find_tool(entries, name) is None,
    decreases entries.len(),
{
    if entries.len() > 0 {
        lemma_find_tool_none(entries.drop_first(), name);
    }
}

/// The catalog's JSON documents, one per descriptor, in registration
/// order.
pub open spec fn spec_catalog_json(entries: Seq<FunctionDescShape>) -> Seq<JsonVal> {
    Seq::new(entries.len(), |i: int| spec_descriptor_json(entries[i]))
}

impl<T: ToolSet> ToolboxRegistry<T> {
    /// One descriptor and one wrapper per registered function, in
    /// registration order, under pairwise distinct names.
    #[verifier::type_invariant]
    spec fn wf(&self) -> bool {
        &&& self.entries@.len() == self.tools.tool_count()
        &&& forall|i: int, j: int|
            0 <= i < j < self.entries@.len() ==> self.entries@[i]@.name != self.entries@[j]@.name
    }

    /// The registered descriptors, in registration order.
    pub closed spec fn descriptors(&self) -> Seq<FunctionDescShape> {
        spec_descriptor_shapes(self.entries@)
    }

    /// The tool set the registry dispatches into.
    pub closed spec fn toolset(&self) -> T {
        self.tools
    }

    /// Every registered function's name, in registration order.
    pub fn names(&self) -> (r: Vec<String>)
        ensures
            r@.len() == self.descriptors().len(),
            forall|i: int| 0 <= i < r@.len() ==> (#[trigger] r@[i])@ == self.descriptors()[i].name,
    {
        let mut out: Vec<String> = Vec::new();
        let n = self.entries.len();
        let mut i: usize = 0;
        while i < n
            invariant
                0 <= i <= n,
                n == self.entries.len(),
                out@.len() == i,
                forall|j: int| 0 <= j < i ==> (#[trigger] out@[j])@ == self.descriptors()[j].name,
            decreases n - i,
        {
            out.push(self.entries[i].name.clone());
            i += 1;
        }
        out
    }

    /// The descriptor catalog as one JSON array, in registration order:
    /// what a tool-calling consumer is handed.
    pub fn descriptor_catalog(&self) -> (r: JsonValue)
        ensures
            r@ == JsonVal::Arr(spec_catalog_json(self.descriptors())),
    {
        let mut items: Vec<JsonValue> = Vec::new();
        let n = self.entries.len();
        let mut i: usize = 0;
        while i < n
            invariant
                0 <= i <= n,
                n == self.entries.len(),
                items@.len() == i,
                forall|j: int| 0 <= j < i ==> crate::json::spec_json(#[trigger] items@[j])
                    == spec_descriptor_json(self.descriptors()[j]),
            decreases n - i,
        {
            items.push(descriptor_to_json(&self.entries[i]));
            i += 1;
        }
        proof {
            lemma_spec_json_arr(items@);
            assert(spec_json_arr(items@) =~= spec_catalog_json(self.descriptors()));
        }
        JsonValue::Arr(items)
    }

    /// Finds the first registered entry carrying a name.
    fn find_index(&self, name: &str) -> (r: Option<usize>)
        ensures
            match r {
                Some(i) => spec_find_tool(self.descriptors(), name@) == Some(i as int) && i
                    < self.entries@.len(),
                None => spec_find_tool(self.descriptors(), name@) is None,
            },
    {
        let n = self.entries.len();
        let mut i: usize = 0;
        while i < n
            invariant
                0 <= i <= n,
                n == self.entries.len(),
                forall|j: int| 0 <= j < i ==> self.descriptors()[j].name != name@,
            decreases n - i,
        {
            if str_eq(self.entries[i].name.as_str(), name) {
                proof {
                    lemma_find_tool_at(self.descriptors(), name@, i as int);
                }
                return Some(i);
            }
            i += 1;
        }
        proof {
            lemma_find_tool_none(self.descriptors(), name@);
        }
        None
    }

    /// Dispatches a call by name: hands the arguments object to the named
    /// function's wrapper and returns its JSON result verbatim; a name
    /// that no entry carries yields the not-found sentinel, the plain JSON
    /// string `function not found`.
    pub fn dispatch(&self, name: &str, args: JsonValue) -> (r: JsonValue)
        ensures
            match spec_find_tool(self.descriptors(), name@) {
                Some(i) => self.toolset().invoke_post(i, args@, r@),
                None => r@ == JsonVal::Str("function not found"@),
            },
    {
        proof {
            use_type_invariant(&*self);
        }
        match self.find_index(name) {
            Some(i) => self.tools.invoke(i, args),
            None => JsonValue::Str(String::from_str("function not found")),
        }
    }
}

/// Builds a toolbox registry over a tool set: registers each function in
/// order and pairs the catalog with the set's wrappers by position.
/// Registration fails fast: the first refused function aborts the build
/// with its refusal.
pub fn toolbox<T: ToolSet>(tools: T, specs: Vec<ToolSpec>) -> (r: Result<
    ToolboxRegistry<T>,
    RegistrationError,
>)
    requires
        specs@.len() == tools.tool_count(),
    ensures
        match spec_build_toolbox(spec_tool_spec_shapes(specs@)) {
            Ok(s) => r matches Ok(reg) && reg.descriptors() == s && reg.toolset() == tools,
            Err(e) => r matches Err(e2) && e2 == e,
        },
{
    let ghost shapes = spec_tool_spec_shapes(specs@);
    let mut entries: Vec<FunctionDescriptor> = Vec::new();
    let n = specs.len();
    proof {
        assert(shapes.subrange(0, 0) =~= Seq::empty());
        assert(spec_descriptor_shapes(entries@) =~= Seq::empty());
    }
    let mut i: usize = 0;
    while i < n
        invariant
            0 <= i <= n,
            n == specs.len(),
            shapes == spec_tool_spec_shapes(specs@),
            entries@.len() == i,
            spec_build_toolbox(shapes.subrange(0, i as int)) == Ok::<_, RegistrationError>(
                spec_descriptor_shapes(entries@),
            ),
        decreases n - i,
    {
        proof {
            assert(shapes.subrange(0, i + 1).drop_last() =~= shapes.subrange(0, i as int));
            assert(shapes.subrange(0, i + 1).last() == specs@[i as int]@);
        }
        let spec_entry = &specs[i];
        match add_to_toolbox(
            &mut entries,
            spec_entry.name.clone(),
            spec_entry.description.clone(),
            &spec_entry.params,
            &spec_entry.doc_lines,
        ) {
            Ok(_) => {
                proof {
                    assert(spec_descriptor_shapes(entries@).len() == entries@.len());
                    assert(entries@.len() == i + 1);
                }
            },
            Err(e) => {
                proof {
                    lemma_build_toolbox_err_extends(shapes, i + 1, e);
                }
                return Err(e);
            },
        }
        i += 1;
    }
    proof {
        assert(shapes.subrange(0, n as int) =~= shapes);
        lemma_build_toolbox_distinct(shapes, spec_descriptor_shapes(entries@));
        assert(entries@.len() == tools.tool_count());
        assert forall|a: int, b: int| 0 <= a < b < entries@.len() implies entries@[a]@.name
            != entries@[b]@.name by {
            assert(spec_descriptor_shapes(entries@)[a] == entries@[a]@);
            assert(spec_descriptor_shapes(entries@)[b] == entries@[b]@);
        }
    }
    let reg = ToolboxRegistry { tools, entries };
    Ok(reg)
}

} // verus!
