use vstd::prelude::*;

use crate::bridge::ColumnType;
use crate::jvm::{JvmFunction, JvmFunctionFactory};
use crate::JvmFunctionError;

verus! {

/// The definition payload of a `CREATE FUNCTION` statement: a single-quoted
/// blob (source text or class name, depending on the language tag) or a
/// double-dollar blob, which the bridge does not accept.
pub enum DefinitionStatement {
    SingleQuotedDef(String),
    DoubleDollarDef(String),
}

/// A function-definition request, as the host engine hands it to the
/// factory: declared name, positional argument types, declared return type,
/// an optional language tag, and the optional definition payload.
pub struct CreateFunctionRequest {
    pub name: String,
    pub args: Vec<ColumnType>,
    pub return_type: ColumnType,
    pub language: Option<String>,
    pub definition: Option<DefinitionStatement>,
}

/// Captures how a function was defined, kept with the bound function for
/// introspection. The `Class` variant is reserved for compiled-bytecode
/// caching and is not populated on the invocation path.
pub enum FunctionDefinition {
    /// Fully qualified class name
    Fqn { fqn: String },
    /// Class definition
    Java { class_definition: String },
    /// Compiled class definition (byte code)
    Class { byte_code: Vec<u8>, fqn: String },
}

/// Which resolution path a registration request takes: submit source text
/// to the in-runtime compiler, or look up an existing class by name.
pub enum ResolutionTarget {
    CompileSource(String),
    ResolveClass(String),
}

/// The outcome of the pure part of registration: everything decided before
/// the managed runtime is touched.
pub struct RegistrationPlan {
    pub method_name: String,
    pub target: ResolutionTarget,
    pub definition: FunctionDefinition,
    pub argument_types: Vec<ColumnType>,
}

pub open spec fn lower_char(c: char) -> char {
    if 65 <= c as u32 && c as u32 <= 90 {
        (c as u32 + 32) as char
    } else {
        c
    }
}

pub open spec fn spec_ascii_lower(s: Seq<char>) -> Seq<char> {
    s.map_values(|c: char| lower_char(c))
}

fn lower_ascii_str(c: char) -> (r: &'static str)
    requires
        65 <= c as u32 <= 90,
    ensures
        r@ == seq![lower_char(c)],
{
    proof {
        reveal_strlit("a");
        reveal_strlit("b");
        reveal_strlit("c");
        reveal_strlit("d");
        reveal_strlit("e");
        reveal_strlit("f");
        reveal_strlit("g");
        reveal_strlit("h");
        reveal_strlit("i");
        reveal_strlit("j");
        reveal_strlit("k");
        reveal_strlit("l");
        reveal_strlit("m");
        reveal_strlit("n");
        reveal_strlit("o");
        reveal_strlit("p");
        reveal_strlit("q");
        reveal_strlit("r");
        reveal_strlit("s");
        reveal_strlit("t");
        reveal_strlit("u");
        reveal_strlit("v");
        reveal_strlit("w");
        reveal_strlit("x");
        reveal_strlit("y");
        reveal_strlit("z");
    }
    let r = match c {
        'A' => "a",
        'B' => "b",
        'C' => "c",
        'D' => "d",
        'E' => "e",
        'F' => "f",
        'G' => "g",
        'H' => "h",
        'I' => "i",
        'J' => "j",
        'K' => "k",
        'L' => "l",
        'M' => "m",
        'N' => "n",
        'O' => "o",
        'P' => "p",
        'Q' => "q",
        'R' => "r",
        'S' => "s",
        'T' => "t",
        'U' => "u",
        'V' => "v",
        'W' => "w",
        'X' => "x",
        'Y' => "y",
        _ => "z",
    };
    proof {
        assert(r@ =~= seq![lower_char(c)]);
    }
    r
}

/// Folds a string to lowercase, letter for letter, over the ASCII range.
fn ascii_lower(s: &str) -> (r: String)
    ensures
        r@ == spec_ascii_lower(s@),
{
    let n = s.unicode_len();
    let mut out = String::new();
    let mut i: usize = 0;
    while i < n
        invariant
            n == s@.len(),
            i <= n,
            out@ == spec_ascii_lower(s@.subrange(0, i as int)),
        decreases n - i,
    {
        let c = s.get_char(i);
        let u = c as u32;
        if 65 <= u && u <= 90 {
            out.append(lower_ascii_str(c));
        } else {
            let piece = s.substring_char(i, i + 1);
            out.append(piece);
        }
        proof {
            assert(spec_ascii_lower(s@.subrange(0, i + 1)) =~= spec_ascii_lower(
                s@.subrange(0, i as int),
            ) + seq![lower_char(s@[i as int])]);
            assert(s@.subrange(i as int, i + 1) =~= seq![s@[i as int]]);
        }
        i = i + 1;
    }
    proof {
        assert(s@.subrange(0, n as int) =~= s@);
    }
    out
}

/// The language tag that governs dispatch: the declared tag folded to
/// lowercase, or the source-text language when the tag is absent.
pub open spec fn spec_effective_language(language: Option<String>) -> Seq<char> {
    match language {
        Option::Some(l) => spec_ascii_lower(l@),
        Option::None => "java"@,
    }
}

/// Maps a declared return type to the name of the invocation-handle method
/// required for it. One mapping exists: the 64-bit integer type. Anything
/// else is outside the supported set.
pub fn return_type_to_method_name(return_type: &ColumnType) -> (r: Result<String, JvmFunctionError>)
    ensures
        *return_type is Int64 <==> r is Ok,
        r matches Ok(m) ==> m@ == "computeBigInt"@,
        r matches Err(e) ==> e is UnsupportedTypeError,
{
    match return_type {
        ColumnType::Int64 => Ok("computeBigInt".to_owned()),
        _ => Err(JvmFunctionError::UnsupportedTypeError("type not supported (to be added)".to_owned())),
    }
}

fn copy_types(v: &Vec<ColumnType>) -> (r: Vec<ColumnType>)
    ensures
        r@ == v@,
{
    let mut r: Vec<ColumnType> = Vec::new();
    let mut i: usize = 0;
    while i < v.len()
        invariant
            i <= v@.len(),
            r@ == v@.subrange(0, i as int),
        decreases v@.len() - i,
    {
        r.push(v[i]);
        proof {
            assert(v@.subrange(0, i + 1) =~= v@.subrange(0, i as int) + seq![v@[i as int]]);
        }
        i = i + 1;
    }
    proof {
        assert(v@.subrange(0, v@.len() as int) =~= v@);
    }
    r
}

/// How the stored definition reflects the request: source text submitted
/// under the source-text language is kept as a `Java` definition, a class
/// name under the class language as an `Fqn` definition.
pub open spec fn definition_matches_request(
    req: CreateFunctionRequest,
    def: FunctionDefinition,
) -> bool {
    match req.definition {
        Option::Some(DefinitionStatement::SingleQuotedDef(text)) => {
            if spec_effective_language(req.language) == "java"@ {
                def matches FunctionDefinition::Java { class_definition } && class_definition@
                    == text@
            } else {
                &&& spec_effective_language(req.language) == "class"@
                &&& def matches FunctionDefinition::Fqn { fqn } && fqn@ == text@
            }
        },
        _ => false,
    }
}

/// What `plan_registration` decides for a request whose return type is
/// supported: the dispatch taken for each shape of definition payload and
/// language tag.
pub open spec fn plan_matches_request(plan: RegistrationPlan, req: CreateFunctionRequest) -> bool {
    &&& plan.method_name@ == "computeBigInt"@
    &&& plan.argument_types@ == req.args@
    &&& definition_matches_request(req, plan.definition)
    &&& match req.definition {
        Option::Some(DefinitionStatement::SingleQuotedDef(text)) => {
            if spec_effective_language(req.language) == "java"@ {
                plan.target matches ResolutionTarget::CompileSource(c) && c@ == text@
            } else {
                &&& spec_effective_language(req.language) == "class"@
                &&& plan.target matches ResolutionTarget::ResolveClass(c) && c@ == text@
            }
        },
        _ => false,
    }
}

/// The source text a request submits to the dynamic compiler: the
/// single-quoted payload, when the language tag resolves to the source-text
/// language.
pub open spec fn source_submission(req: CreateFunctionRequest) -> Option<Seq<char>> {
    match req.definition {
        Option::Some(DefinitionStatement::SingleQuotedDef(text)) => {
            if spec_effective_language(req.language) == "java"@ {
                Option::Some(text@)
            } else {
                Option::None
            }
        },
        _ => Option::None,
    }
}

/// Whether a request with a supported return type still names no usable
/// definition: no payload, a double-dollar payload, or a language tag that
/// is neither the source-text language nor the class language.
pub open spec fn definition_invalid(req: CreateFunctionRequest) -> bool {
    match req.definition {
        Option::Some(DefinitionStatement::SingleQuotedDef(text)) => {
            &&& spec_effective_language(req.language) != "java"@
            &&& spec_effective_language(req.language) != "class"@
        },
        _ => true,
    }
}

/// The pure part of registration: reads the declared return type, maps it
/// to the required invocation-handle method name, resolves the language
/// tag (defaulting to the source-text language), and decides which
/// resolution path the definition payload takes. No managed-runtime call is
/// made, so a rejected request leaves nothing registered.
pub fn plan_registration(req: &CreateFunctionRequest) -> (r: Result<
    RegistrationPlan,
    JvmFunctionError,
>)
    ensures
        !(req.return_type is Int64) ==> (r matches Err(e) && e is UnsupportedTypeError),
        req.return_type is Int64 && definition_invalid(*req) ==> (r matches Err(e)
            && e is InvalidDefinitionError),
        req.return_type is Int64 && !definition_invalid(*req) ==> (r matches Ok(plan)
            && plan_matches_request(plan, *req)),
{
    let method_name = match return_type_to_method_name(&req.return_type) {
        Ok(m) => m,
        Err(e) => {
            return Err(e);
        },
    };
    let language = match &req.language {
        Some(l) => ascii_lower(l.as_str()),
        None => "java".to_owned(),
    };
    let argument_types = copy_types(&req.args);
    match &req.definition {
        Some(DefinitionStatement::SingleQuotedDef(text)) => {
            if language == "java".to_owned() {
                Ok(
                    RegistrationPlan {
                        method_name,
                        target: ResolutionTarget::CompileSource(text.clone()),
                        definition: FunctionDefinition::Java { class_definition: text.clone() },
                        argument_types,
                    },
                )
            } else if language == "class".to_owned() {
                Ok(
                    RegistrationPlan {
                        method_name,
                        target: ResolutionTarget::ResolveClass(text.clone()),
                        definition: FunctionDefinition::Fqn { fqn: text.clone() },
                        argument_types,
                    },
                )
            } else {
                Err(
                    JvmFunctionError::InvalidDefinitionError(
                        "class name or class definition should be provided".to_owned(),
                    ),
                )
            }
        },
        _ => Err(
            JvmFunctionError::InvalidDefinitionError(
                "class name or class definition should be provided".to_owned(),
            ),
        ),
    }
}

/// The engine-facing callable: a resolved or compiled managed-runtime
/// target bound to the declared name, argument types and return type. The
/// signature is the exact positional argument-type list; no implicit
/// coercion is declared, and the function is re-evaluated on every call.
pub struct JvmFunctionWrapper {
    name: String,
    argument_types: Vec<ColumnType>,
    return_type: ColumnType,
    function_definition: FunctionDefinition,
    inner: JvmFunction,
}

impl JvmFunctionWrapper {
    pub closed spec fn spec_name(&self) -> Seq<char> {
        self.name@
    }

    pub closed spec fn spec_argument_types(&self) -> Seq<ColumnType> {
        self.argument_types@
    }

    pub closed spec fn spec_return_type(&self) -> ColumnType {
        self.return_type
    }

    pub closed spec fn spec_definition(&self) -> FunctionDefinition {
        self.function_definition
    }

    /// The declared function name.
    pub fn name(&self) -> (r: &String)
        ensures
            r@ == self.spec_name(),
    {
        &self.name
    }

    /// The declared positional argument types.
    pub fn argument_types(&self) -> (r: &Vec<ColumnType>)
        ensures
            r@ == self.spec_argument_types(),
    {
        &self.argument_types
    }

    /// The exact-match signature: derived deterministically from the
    /// argument types, position for position.
    pub fn signature(&self) -> (r: &Vec<ColumnType>)
        ensures
            r@ == self.spec_argument_types(),
    {
        &self.argument_types
    }

    /// The declared return type.
    pub fn return_type(&self) -> (r: &ColumnType)
        ensures
            *r == self.spec_return_type(),
    {
        &self.return_type
    }

    /// How the function was defined, kept for introspection.
    pub fn function_definition(&self) -> (r: &FunctionDefinition)
        ensures
            *r == self.spec_definition(),
    {
        &self.function_definition
    }

    /// The resolved target the invocation path dispatches to.
    pub fn function(&self) -> &JvmFunction {
        &self.inner
    }
}

impl JvmFunctionFactory {
    /// Satisfies the host engine's function-factory contract: reads the
    /// declared return type, maps it to the required invocation-handle
    /// method name, resolves the language tag, dispatches source text to
    /// the dynamic compiler and class names to the resolver, and binds the
    /// outcome with the declared types into an engine-facing callable. A
    /// request that names neither usable payload fails with
    /// `InvalidDefinitionError` before the managed runtime is touched, and a
    /// failed registration constructs nothing: every failure path returns
    /// the error alone, so no partial state exists.
    pub fn create(&self, statement: CreateFunctionRequest) -> (r: Result<
        JvmFunctionWrapper,
        JvmFunctionError,
    >)
        ensures
            !(statement.return_type is Int64) ==> (r matches Err(e) && e is UnsupportedTypeError),
            statement.return_type is Int64 && definition_invalid(statement) ==> (r matches Err(
                e,
            ) && e is InvalidDefinitionError),
            r matches Ok(w) ==> {
                &&& statement.return_type is Int64
                &&& !definition_invalid(statement)
                &&& w.spec_name() == statement.name@
                &&& w.spec_argument_types() == statement.args@
                &&& w.spec_return_type() == statement.return_type
                &&& definition_matches_request(statement, w.spec_definition())
            },
            r matches Err(e) && e is UnsupportedTypeError ==> !(statement.return_type
                is Int64),
            r matches Err(e) && e is InvalidDefinitionError ==> definition_invalid(statement),
            statement.return_type is Int64 && !definition_invalid(statement) ==> (match
                source_submission(statement) {
                Option::Some(text) => ((r matches Err(e) && e is SourceParseError)
                    <==> crate::util::spec_class_name(text) is None),
                Option::None => !(r matches Err(e) && e is SourceParseError),
            }),
            r matches Err(e) ==> (e is UnsupportedTypeError || e is InvalidDefinitionError
                || crate::jvm::resolution_error(e) || crate::jvm::compilation_error(e)),
    {
        let plan = match plan_registration(&statement) {
            Ok(p) => p,
            Err(e) => {
                return Err(e);
            },
        };
        let RegistrationPlan { method_name, target, definition, argument_types } = plan;
        let inner = match target {
            ResolutionTarget::CompileSource(code) => {
                match self.compile_create_function(code.as_str(), method_name.as_str()) {
                    Ok(f) => f,
                    Err(e) => {
                        return Err(e);
                    },
                }
            },
            ResolutionTarget::ResolveClass(class_name) => {
                match self.create_function(class_name.as_str(), method_name.as_str()) {
                    Ok(f) => f,
                    Err(e) => {
                        return Err(e);
                    },
                }
            },
        };
        Ok(
            JvmFunctionWrapper {
                name: statement.name,
                argument_types,
                return_type: statement.return_type,
                function_definition: definition,
                inner,
            },
        )
    }
}

} // verus!

