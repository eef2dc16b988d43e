use vstd::prelude::*;

use crate::bridge::{ColumnType, Int64Column};
use crate::util::{spec_class_name, update_java_code};
use crate::JvmFunctionError;
use datafusion::arrow::array::ArrayData;
use jni::objects::{GlobalRef, JClass, JMethodID, JObject, JString, JThrowable};
use jni::{InitArgs, JNIEnv, JavaVM};
use std::sync::Arc;

verus! {

// ---------------------------------------------------------------------------
// Declarations of the managed-runtime handle types. All of them are opaque:
// the library carries them but never looks inside.
// ---------------------------------------------------------------------------

#[verifier::external_type_specification]
#[verifier::external_body]
pub struct ExJObjectRaw(jni::sys::_jobject);

#[verifier::external_type_specification]
#[verifier::external_body]
pub struct ExJavaVM(JavaVM);

#[verifier::external_type_specification]
#[verifier::external_body]
pub struct ExJNIEnv<'a>(JNIEnv<'a>);

#[verifier::external_type_specification]
#[verifier::external_body]
pub struct ExJClass<'a>(JClass<'a>);

#[verifier::external_type_specification]
#[verifier::external_body]
pub struct ExJObject<'a>(JObject<'a>);

#[verifier::external_type_specification]
#[verifier::external_body]
pub struct ExJString<'a>(JString<'a>);

#[verifier::external_type_specification]
#[verifier::external_body]
pub struct ExJThrowable<'a>(JThrowable<'a>);

#[verifier::external_type_specification]
#[verifier::external_body]
pub struct ExJMethodID(JMethodID);

#[verifier::external_type_specification]
#[verifier::external_body]
pub struct ExGlobalRef(GlobalRef);

#[verifier::external_type_specification]
#[verifier::external_body]
pub struct ExJniError(jni::errors::Error);

#[verifier::external_type_specification]
#[verifier::external_body]
pub struct ExInitArgs<'a>(InitArgs<'a>);

// ---------------------------------------------------------------------------
// Trusted wrappers around the managed-runtime interface. Each one makes a
// single call; nothing is promised beyond what the callee's documentation
// states, since every outcome depends on the state of the embedded runtime.
// ---------------------------------------------------------------------------

/// Relies on `Arc::deref`: borrows the shared runtime handle.
#[verifier::external_body]
fn vm_ref(vm: &Arc<JavaVM>) -> &JavaVM {
    vm
}

/// Relies on `Arc::clone`: another handle to the same shared runtime.
#[verifier::external_body]
fn clone_vm_handle(vm: &Arc<JavaVM>) -> Arc<JavaVM> {
    vm.clone()
}

/// Relies on `InitArgsBuilder` and `JavaVM::new`: boots an embedded runtime
/// with the given options. The underlying interface admits one runtime per
/// process; a second boot attempt fails rather than returning the first.
#[verifier::external_body]
fn start_jvm(options: &Vec<String>) -> (r: Result<Arc<JavaVM>, JvmFunctionError>)
    ensures
        r matches Err(e) ==> e is RuntimeStartError,
{
    let mut builder = jni::InitArgsBuilder::new().version(jni::JNIVersion::V8);
    for o in options {
        builder = builder.option(o.as_str());
    }
    let args = builder.build().map_err(|e| JvmFunctionError::RuntimeStartError(e.to_string()))?;
    let vm = JavaVM::new(args).map_err(|e| JvmFunctionError::RuntimeStartError(e.to_string()))?;
    Ok(Arc::new(vm))
}

/// Relies on `JavaVM::new`: boots an embedded runtime from prebuilt init
/// arguments; fails if booting fails or a runtime already exists.
#[verifier::external_body]
fn start_jvm_from_args(args: InitArgs<'_>) -> (r: Result<Arc<JavaVM>, JvmFunctionError>)
    ensures
        r matches Err(e) ==> e is RuntimeStartError,
{
    let vm = JavaVM::new(args).map_err(|e| JvmFunctionError::RuntimeStartError(e.to_string()))?;
    Ok(Arc::new(vm))
}

/// Relies on `JavaVM::attach_current_thread_as_daemon`: attaches the calling
/// thread as a long-lived daemon participant; calling it on an already
/// attached thread is a no-op.
#[verifier::external_body]
fn attach_thread<'a>(vm: &'a JavaVM) -> (r: Result<JNIEnv<'a>, jni::errors::Error>) {
    vm.attach_current_thread_as_daemon()
}

/// Relies on `JNIEnv::find_class`: looks a class up by its internal path
/// form; fails when the class cannot be located.
#[verifier::external_body]
fn find_class_call<'a>(env: &mut JNIEnv<'a>, path: &str) -> (r: Result<
    JClass<'a>,
    jni::errors::Error,
>) {
    env.find_class(path)
}

/// Relies on `JNIEnv::get_method_id`: resolves the handle of the method with
/// the given name and signature; fails when no such method exists.
#[verifier::external_body]
fn get_method_id_call<'a>(
    env: &mut JNIEnv<'a>,
    class: &JClass<'a>,
    name: &str,
    sig: &str,
) -> (r: Result<JMethodID, jni::errors::Error>) {
    env.get_method_id(class, name, sig)
}

/// Relies on `JNIEnv::new_object`: constructs a new instance through the
/// constructor with the given signature; fails when construction throws.
#[verifier::external_body]
fn new_object_call<'a>(env: &mut JNIEnv<'a>, class: &JClass<'a>, ctor_sig: &str) -> (r: Result<
    JObject<'a>,
    jni::errors::Error,
>) {
    env.new_object(class, ctor_sig, &[])
}

/// Relies on `JNIEnv::new_global_ref`: promotes a call-scoped reference to a
/// durable one that stays valid until dropped.
#[verifier::external_body]
fn new_global_ref_call<'a>(env: &JNIEnv<'a>, obj: JObject<'a>) -> (r: Result<
    GlobalRef,
    jni::errors::Error,
>) {
    env.new_global_ref(&obj)
}

/// Relies on `JNIEnv::new_string`: materialises a managed string.
#[verifier::external_body]
fn new_string_call<'a>(env: &JNIEnv<'a>, s: &str) -> (r: Result<JString<'a>, jni::errors::Error>) {
    env.new_string(s)
}

/// Relies on `JNIEnv::get_static_field`: reads a static object field.
#[verifier::external_body]
fn get_static_object_call<'a>(
    env: &mut JNIEnv<'a>,
    class_path: &str,
    field: &str,
    sig: &str,
) -> (r: Result<JObject<'a>, jni::errors::Error>) {
    env.get_static_field(class_path, field, sig)?.l()
}

/// Relies on `JNIEnv::call_method`: invokes a two-string-argument method
/// that returns an object. An exception thrown inside the call is reported
/// as an error and stays pending on the thread.
#[verifier::external_body]
fn call_two_string_method<'a>(
    env: &mut JNIEnv<'a>,
    target: &JObject<'a>,
    method: &str,
    sig: &str,
    first: &JString<'a>,
    second: &JString<'a>,
) -> (r: Result<JObject<'a>, jni::errors::Error>) {
    env.call_method(
        target,
        method,
        sig,
        &[jni::objects::JValue::Object(first), jni::objects::JValue::Object(second)],
    )?.l()
}

/// Relies on `JNIEnv::get_object_class`: the class of an object reference.
#[verifier::external_body]
fn get_object_class_call<'a>(env: &JNIEnv<'a>, obj: &JObject<'a>) -> (r: Result<
    JClass<'a>,
    jni::errors::Error,
>) {
    env.get_object_class(obj)
}

/// Relies on `JNIEnv::exception_check`: whether an exception is pending on
/// the calling thread.
#[verifier::external_body]
fn exception_check_call(env: &JNIEnv<'_>) -> (r: Result<bool, jni::errors::Error>) {
    env.exception_check()
}

/// Relies on `JNIEnv::exception_occurred`: a reference to the pending
/// exception.
#[verifier::external_body]
fn exception_occurred_call<'a>(env: &mut JNIEnv<'a>) -> (r: Result<
    JThrowable<'a>,
    jni::errors::Error,
>) {
    env.exception_occurred()
}

/// Relies on `JNIEnv::exception_describe`: prints the pending exception's
/// diagnostic description.
#[verifier::external_body]
fn exception_describe_call(env: &JNIEnv<'_>) -> (r: Result<(), jni::errors::Error>) {
    env.exception_describe()
}

/// Relies on `JNIEnv::exception_clear`: clears the pending exception so the
/// thread stays usable for subsequent calls.
#[verifier::external_body]
fn exception_clear_call(env: &JNIEnv<'_>) -> (r: Result<(), jni::errors::Error>) {
    env.exception_clear()
}

/// Relies on `Display` of `jni::errors::Error`: the error's message text.
#[verifier::external_body]
fn jni_error_text(e: &jni::errors::Error) -> String {
    format!("{}", e)
}

// ---------------------------------------------------------------------------
// The factory and the resolved callable.
// ---------------------------------------------------------------------------

/// Owns a handle to the process-wide embedded managed runtime. Every
/// factory in a process shares the single runtime; the underlying interface
/// refuses a second boot, so a host that constructs several factories keeps
/// one handle in a process-global slot and clones it via `from_jvm`.
pub struct JvmFunctionFactory {
    jvm: Arc<JavaVM>,
}

/// The resolved target of a bound function: the invocation handle of the
/// target method together with a durable reference to the instance it is
/// dispatched on. The durable reference is owned exclusively by this value
/// and released when it is dropped.
pub struct JvmFunction {
    target_method_id: JMethodID,
    target_object_global_ref: GlobalRef,
    jvm: Arc<JavaVM>,
}

pub open spec fn resolution_error(e: JvmFunctionError) -> bool {
    ||| e is RuntimeStartError
    ||| e is ClassNotFoundError
    ||| e is MethodNotFoundError
    ||| e is InstantiationError
}

pub open spec fn compilation_error(e: JvmFunctionError) -> bool {
    ||| e is SourceParseError
    ||| e is RuntimeStartError
    ||| e is CompilationError
    ||| e is MethodNotFoundError
    ||| e is InstantiationError
}

/// The fixed call convention of every target method: four pointer-sized
/// arguments carrying the exchange descriptors, no return value.
fn invocation_signature() -> (r: &'static str)
    ensures
        r@ == "(JJJJ)V"@,
{
    "(JJJJ)V"
}

fn base_class_type() -> (r: &'static str)
    ensures
        r@ == "com/github/milenkovicm/adhesive/Adhesive"@,
{
    "com/github/milenkovicm/adhesive/Adhesive"
}

fn compiler_class_name() -> (r: &'static str)
    ensures
        r@ == "com/github/milenkovicm/adhesive/Compiler"@,
{
    "com/github/milenkovicm/adhesive/Compiler"
}

/// The internal path form of a qualified class name: every `.` becomes `/`.
pub open spec fn spec_class_path(s: Seq<char>) -> Seq<char> {
    s.map_values(|c: char| if c == '.' { '/' } else { c })
}

fn dots_to_slashes(name: &str) -> (r: String)
    ensures
        r@ == spec_class_path(name@),
{
    let n = name.unicode_len();
    let mut out = String::new();
    let mut i: usize = 0;
    while i < n
        invariant
            n == name@.len(),
            i <= n,
            out@ == spec_class_path(name@.subrange(0, i as int)),
        decreases n - i,
    {
        let c = name.get_char(i);
        if c == '.' {
            out.append("/");
            proof {
                reveal_strlit("/");
            }
        } else {
            let piece = name.substring_char(i, i + 1);
            out.append(piece);
        }
        proof {
            assert(spec_class_path(name@.subrange(0, i + 1)) =~= spec_class_path(
                name@.subrange(0, i as int),
            ) + seq![if name@[i as int] == '.' { '/' } else { name@[i as int] }]);
            assert(name@.subrange(i as int, i + 1) =~= seq![name@[i as int]]);
        }
        i = i + 1;
    }
    proof {
        assert(name@.subrange(0, n as int) =~= name@);
    }
    out
}

/// Checks for a pending exception after a boundary call; if one is pending,
/// prints its description and clears it so the thread context stays usable,
/// and reports that an exception occurred.
pub fn has_exception_occurred(env: &mut JNIEnv<'_>) -> (r: Result<bool, JvmFunctionError>)
    ensures
        r matches Err(e) ==> e is ManagedRuntimeException,
{
    match exception_check_call(env) {
        Ok(true) => {
            let _exception = match exception_occurred_call(env) {
                Ok(t) => t,
                Err(e) => {
                    return Err(JvmFunctionError::ManagedRuntimeException(jni_error_text(&e)));
                },
            };
            match exception_describe_call(env) {
                Ok(_unit) => {},
                Err(e) => {
                    return Err(JvmFunctionError::ManagedRuntimeException(jni_error_text(&e)));
                },
            }
            match exception_clear_call(env) {
                Ok(_unit) => {},
                Err(e) => {
                    return Err(JvmFunctionError::ManagedRuntimeException(jni_error_text(&e)));
                },
            }
            Ok(true)
        },
        Ok(false) => Ok(false),
        Err(e) => Err(JvmFunctionError::ManagedRuntimeException(jni_error_text(&e))),
    }
}

/// The policy applied to the call state after every boundary call: a
/// pending exception is surfaced as `ManagedRuntimeException` to the caller
/// of the operation that triggered it; nothing is retried.
pub fn interpret_call_state(exception_pending: bool) -> (r: Result<(), JvmFunctionError>)
    ensures
        r is Ok <==> !exception_pending,
        r matches Err(e) ==> e is ManagedRuntimeException,
{
    if exception_pending {
        Err(
            JvmFunctionError::ManagedRuntimeException(
                "no handling for exception messages yet".to_owned(),
            ),
        )
    } else {
        Ok(())
    }
}

impl JvmFunctionFactory {
    /// Boots the embedded runtime with the given jar on its class path and
    /// returns a factory holding the handle. A second boot in the same
    /// process fails with `RuntimeStartError` rather than returning the
    /// first handle; a host that wants the handle shared keeps it in a
    /// process-global slot and constructs further factories via `from_jvm`.
    pub fn new_with_jar(jar_path: &str) -> (r: Result<JvmFunctionFactory, JvmFunctionError>)
        ensures
            r matches Err(e) ==> e is RuntimeStartError,
    {
        let mut class_path = "-Djava.class.path=".to_owned();
        class_path.append(jar_path);
        let mut options: Vec<String> = Vec::new();
        options.push("--add-opens=java.base/java.nio=ALL-UNNAMED".to_owned());
        options.push(class_path);
        let jvm = match start_jvm(&options) {
            Ok(vm) => vm,
            Err(e) => {
                return Err(e);
            },
        };
        Ok(JvmFunctionFactory { jvm })
    }

    /// Boots the embedded runtime from prebuilt init arguments. As with
    /// `new_with_jar`, a second boot in the same process fails with
    /// `RuntimeStartError` instead of returning the first handle.
    pub fn new_from_args(jvm_args: InitArgs<'_>) -> (r: Result<
        JvmFunctionFactory,
        JvmFunctionError,
    >)
        ensures
            r matches Err(e) ==> e is RuntimeStartError,
    {
        let jvm = match start_jvm_from_args(jvm_args) {
            Ok(vm) => vm,
            Err(e) => {
                return Err(e);
            },
        };
        Ok(JvmFunctionFactory { jvm })
    }

    /// Wraps an already booted runtime handle. A host that owns the single
    /// process-wide handle uses this to hand it to further factories.
    pub fn from_jvm(jvm: Arc<JavaVM>) -> JvmFunctionFactory {
        JvmFunctionFactory { jvm }
    }

    /// The shared runtime handle.
    pub fn vm(&self) -> &Arc<JavaVM> {
        &self.jvm
    }

    /// Binds an existing class to a callable: normalizes the class name to
    /// the runtime's internal path form, looks the class up, constructs a
    /// fresh instance through its zero-argument constructor, resolves the
    /// invocation handle under the fixed four-pointer call convention, and
    /// promotes the instance to a durable reference. Each call constructs
    /// its own instance; two resolutions of the same class are independent.
    /// A pending exception left by a failed step is cleared, so a failed
    /// resolution leaves the thread context usable and nothing registered.
    pub fn create_function(&self, class_name: &str, method_name: &str) -> (r: Result<
        JvmFunction,
        JvmFunctionError,
    >)
        ensures
            r matches Err(e) ==> resolution_error(e),
    {
        let vm = vm_ref(&self.jvm);
        let mut env = match attach_thread(vm) {
            Ok(env) => env,
            Err(e) => {
                return Err(JvmFunctionError::RuntimeStartError(jni_error_text(&e)));
            },
        };
        let path = dots_to_slashes(class_name);
        let clazz = match find_class_call(&mut env, path.as_str()) {
            Ok(c) => c,
            Err(e) => {
                let text = jni_error_text(&e);
                let _pending = has_exception_occurred(&mut env);
                return Err(JvmFunctionError::ClassNotFoundError(text));
            },
        };
        let method_id = match get_method_id_call(&mut env, &clazz, method_name, invocation_signature()) {
            Ok(m) => m,
            Err(e) => {
                let text = jni_error_text(&e);
                let _pending = has_exception_occurred(&mut env);
                return Err(JvmFunctionError::MethodNotFoundError(text));
            },
        };
        let instance = match new_object_call(&mut env, &clazz, "()V") {
            Ok(o) => o,
            Err(e) => {
                let text = jni_error_text(&e);
                let _pending = has_exception_occurred(&mut env);
                return Err(JvmFunctionError::InstantiationError(text));
            },
        };
        let global_ref = match new_global_ref_call(&env, instance) {
            Ok(g) => g,
            Err(e) => {
                let text = jni_error_text(&e);
                let _pending = has_exception_occurred(&mut env);
                return Err(JvmFunctionError::InstantiationError(text));
            },
        };
        Ok(
            JvmFunction {
                target_method_id: method_id,
                target_object_global_ref: global_ref,
                jvm: clone_vm_handle(&self.jvm),
            },
        )
    }

    /// Turns submitted source text into a callable without the caller naming
    /// a class: extracts the declared class name, synthesizes a fresh unique
    /// package, rewrites the source to declare it, and submits the rewritten
    /// source under the synthesized fully-qualified name to the compiler
    /// singleton inside the runtime. If the compiler throws, the submission
    /// fails with `CompilationError`; if the text declares no class, with
    /// `SourceParseError`, before the runtime is touched.
    pub fn compile_create_function(&self, java_code: &str, method_name: &str) -> (r: Result<
        JvmFunction,
        JvmFunctionError,
    >)
        ensures
            spec_class_name(java_code@) is None ==> (r matches Err(e) && e is SourceParseError),
            r matches Err(e) && e is SourceParseError ==> spec_class_name(java_code@) is None,
            r matches Err(e) ==> compilation_error(e),
            r is Ok ==> spec_class_name(java_code@) is Some,
    {
        let (code, fqn) = match update_java_code(java_code) {
            Ok(p) => p,
            Err(e) => {
                return Err(e);
            },
        };
        let vm = vm_ref(&self.jvm);
        let mut env = match attach_thread(vm) {
            Ok(env) => env,
            Err(e) => {
                return Err(JvmFunctionError::RuntimeStartError(jni_error_text(&e)));
            },
        };
        let mut compiler_signature = "(Ljava/lang/String;Ljava/lang/String;)L".to_owned();
        compiler_signature.append(base_class_type());
        compiler_signature.append(";");
        let mut instance_signature = "L".to_owned();
        instance_signature.append(compiler_class_name());
        instance_signature.append(";");
        let compiler_instance = match get_static_object_call(
            &mut env,
            compiler_class_name(),
            "INSTANCE",
            instance_signature.as_str(),
        ) {
            Ok(o) => o,
            Err(e) => {
                let text = jni_error_text(&e);
                let _pending = has_exception_occurred(&mut env);
                return Err(JvmFunctionError::CompilationError(text));
            },
        };
        let new_class_name = match new_string_call(&env, fqn.as_str()) {
            Ok(s) => s,
            Err(e) => {
                return Err(JvmFunctionError::CompilationError(jni_error_text(&e)));
            },
        };
        let new_class_definition = match new_string_call(&env, code.as_str()) {
            Ok(s) => s,
            Err(e) => {
                return Err(JvmFunctionError::CompilationError(jni_error_text(&e)));
            },
        };
        let compiled = call_two_string_method(
            &mut env,
            &compiler_instance,
            "compile",
            compiler_signature.as_str(),
            &new_class_name,
            &new_class_definition,
        );
        let pending = match has_exception_occurred(&mut env) {
            Ok(b) => b,
            Err(e) => {
                return Err(JvmFunctionError::CompilationError(e.message().clone()));
            },
        };
        if pending {
            return Err(
                JvmFunctionError::CompilationError(
                    "the compiler service threw while compiling the submission".to_owned(),
                ),
            );
        }
        let new_instance = match compiled {
            Ok(o) => o,
            Err(e) => {
                return Err(JvmFunctionError::CompilationError(jni_error_text(&e)));
            },
        };
        let clazz = match get_object_class_call(&env, &new_instance) {
            Ok(c) => c,
            Err(e) => {
                return Err(JvmFunctionError::CompilationError(jni_error_text(&e)));
            },
        };
        let target_method_id = match get_method_id_call(&mut env, &clazz, method_name, invocation_signature()) {
            Ok(m) => m,
            Err(e) => {
                let text = jni_error_text(&e);
                let _pending = has_exception_occurred(&mut env);
                return Err(JvmFunctionError::MethodNotFoundError(text));
            },
        };
        let target_object_global_ref = match new_global_ref_call(&env, new_instance) {
            Ok(g) => g,
            Err(e) => {
                return Err(JvmFunctionError::InstantiationError(jni_error_text(&e)));
            },
        };
        Ok(
            JvmFunction {
                target_method_id,
                target_object_global_ref,
                jvm: clone_vm_handle(&self.jvm),
            },
        )
    }
}

impl JvmFunction {
    /// The invocation handle of the target method.
    pub fn method_id(&self) -> &JMethodID {
        &self.target_method_id
    }

    /// The durable reference to the target instance.
    pub fn global_ref(&self) -> &GlobalRef {
        &self.target_object_global_ref
    }

    /// The shared runtime handle, for attaching the calling thread.
    pub fn vm(&self) -> &Arc<JavaVM> {
        &self.jvm
    }

    /// Assembles the argument columns into the exchange form the boundary
    /// call passes to the managed side: the columns become children of one
    /// synthetic struct-typed column, value for value. On every set of
    /// same-length, null-free 64-bit integer columns with matching declared
    /// types the assembly succeeds; it fails when the declared types and the
    /// columns disagree in count or the assembled buffers are rejected.
    pub fn create_arrow_data(dtypes: &Vec<ColumnType>, arrays: &Vec<Int64Column>) -> (r: Result<
        ArrayData,
        JvmFunctionError,
    >)
        ensures
            dtypes@.len() != arrays@.len() ==> r is Err,
            r matches Err(e) ==> e is BufferImportError,
            crate::bridge::boundary_exportable(dtypes@, arrays@) ==> r is Ok,
            r matches Ok(d) ==> crate::bridge::arrow_struct_children(d) == arrays@.map_values(
                |c: Int64Column| c.values@,
            ),
    {
        let envelope = match crate::bridge::export_inputs(dtypes, arrays) {
            Ok(env) => env,
            Err(e) => {
                return Err(e);
            },
        };
        let rows: usize = if envelope.columns.len() > 0 {
            envelope.columns[0].values.len()
        } else {
            0
        };
        proof {
            if crate::bridge::boundary_exportable(dtypes@, arrays@) {
                assert forall|i: int|
                    0 <= i < envelope.fields@.len() implies (#[trigger] envelope.fields@[i]).dtype
                    is Int64 by {
                    assert(envelope.fields@[i].dtype == dtypes@[i]);
                    assert(dtypes@[i] is Int64);
                }
                assert forall|i: int|
                    0 <= i < envelope.columns@.len() implies (
                #[trigger] envelope.columns@[i]).values@.len() == rows by {
                    assert(envelope.columns@[i].values@ == arrays@[i].values@);
                    assert(arrays@[i].values@.len() == crate::bridge::column_rows(arrays@));
                }
                assert forall|i: int, j: int|
                    0 <= i < envelope.columns@.len() && 0 <= j
                        < envelope.columns@[i].values@.len() implies (
                #[trigger] envelope.columns@[i].values@[j]) is Some by {
                    assert(envelope.columns@[i].values@ == arrays@[i].values@);
                    assert(arrays@[i].values@[j] is Some);
                }
            }
        }
        let result = crate::bridge::envelope_to_arrow(&envelope, rows);
        proof {
            assert(envelope.columns@.map_values(|c: Int64Column| c.values@) =~= arrays@.map_values(
                |c: Int64Column| c.values@,
            ));
        }
        result
    }
}

} // verus!
